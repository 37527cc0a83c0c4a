//! The powers of the top level: every power of every power set of every
//! category of the top level is included from the start.

use super::marks::clone_refs;
use crate::structs::keyed::Keyed;
use crate::structs::powers::{BasePower, BasePowerSet, PowerCategory};
use crate::structs::ArchetypeRef;
use vstd::prelude::*;

verus! {

/// Whether every position that a category holds is one of a power set,
/// and every position that a power set holds is one of a power.
pub open spec fn hierarchy_valid(
    power_cats: &Keyed<PowerCategory>,
    power_sets: &Keyed<BasePowerSet>,
    powers: &Keyed<BasePower>,
) -> bool {
    &&& forall|c: int, k: int|
        0 <= c < power_cats.values().len() && 0 <= k < power_cats.values()[c].pp_power_sets@.len()
            ==> #[trigger] power_cats.values()[c].pp_power_sets@[k] < power_sets.values().len()
    &&& forall|s: int, k: int|
        0 <= s < power_sets.values().len() && 0 <= k < power_sets.values()[s].pp_powers@.len()
            ==> #[trigger] power_sets.values()[s].pp_powers@[k] < powers.values().len()
}

/// The positions of the powers of each of `sets`.
pub open spec fn powers_of(sets: Seq<BasePowerSet>) -> Seq<Seq<usize>> {
    Seq::new(sets.len(), |s: int| sets[s].pp_powers@)
}

/// Whether `x` is among the first `n` of `list`.
pub open spec fn among(list: Seq<usize>, x: int, n: nat) -> bool
    decreases n,
{
    if n == 0 || n > list.len() {
        false
    } else {
        among(list, x, (n - 1) as nat) || list[n - 1] == x
    }
}

/// Whether one of the first `n` power sets at the positions `set_places`
/// holds the power at position `p`.
pub open spec fn reaches(set_places: Seq<usize>, set_powers: Seq<Seq<usize>>, p: int, n: nat) -> bool
    decreases n,
{
    if n == 0 || n > set_places.len() {
        false
    } else {
        reaches(set_places, set_powers, p, (n - 1) as nat) || (set_places[n - 1]
            < set_powers.len() && among(
            set_powers[set_places[n - 1] as int],
            p,
            set_powers[set_places[n - 1] as int].len(),
        ))
    }
}

/// The position of the last of the first `n` of `categories` that stands
/// at the top level and holds a power set that holds the power at
/// position `p`.
pub open spec fn seeding(
    categories: Seq<PowerCategory>,
    set_powers: Seq<Seq<usize>>,
    p: int,
    n: nat,
) -> Option<int>
    decreases n,
{
    if n == 0 || n > categories.len() {
        None
    } else if categories[n - 1].top_level && reaches(
        categories[n - 1].pp_power_sets@,
        set_powers,
        p,
        categories[n - 1].pp_power_sets@.len(),
    ) {
        Some(n - 1)
    } else {
        seeding(categories, set_powers, p, (n - 1) as nat)
    }
}

/// Whether one of the first `n` of `categories` stands at the top level
/// and holds the power set at position `s`.
pub open spec fn touched(categories: Seq<PowerCategory>, s: int, n: nat) -> bool
    decreases n,
{
    if n == 0 || n > categories.len() {
        false
    } else {
        touched(categories, s, (n - 1) as nat) || (categories[n - 1].top_level && among(
            categories[n - 1].pp_power_sets@,
            s,
            categories[n - 1].pp_power_sets@.len(),
        ))
    }
}

/// Whether one of the first `n` power sets at the positions `set_places`
/// holds a power.
pub open spec fn any_powers(set_places: Seq<usize>, set_powers: Seq<Seq<usize>>, n: nat) -> bool
    decreases n,
{
    if n == 0 || n > set_places.len() {
        false
    } else {
        any_powers(set_places, set_powers, (n - 1) as nat) || (set_places[n - 1]
            < set_powers.len() && set_powers[set_places[n - 1] as int].len() > 0)
    }
}

/// Whether `after` is the power `before` once it is included with the
/// archetypes `by` in place of its own, where there are such, and the
/// power `before` itself where there are none.
#[verifier::opaque]
pub open spec fn power_seeded(before: BasePower, after: BasePower, by: Option<Seq<ArchetypeRef>>) -> bool {
    &&& after.include_in_output == (before.include_in_output || by is Some)
    &&& after.archetypes@ == (match by {
        Some(archetypes) => archetypes,
        None => before.archetypes@,
    })
    &&& after == (BasePower {
        include_in_output: after.include_in_output,
        archetypes: after.archetypes,
        ..before
    })
}

/// The power set with the given mark of inclusion.
pub open spec fn set_with(set: BasePowerSet, included: bool) -> BasePowerSet {
    BasePowerSet { include_in_output: included, ..set }
}

/// The category that is included and stands at the top level where
/// `included` holds, and neither where it does not.
pub open spec fn category_with(category: PowerCategory, included: bool) -> PowerCategory {
    PowerCategory { include_in_output: included, top_level: included, ..category }
}

/// Includes the power, with a copy of `archetypes` in place of its own.
fn seed_power(power: &mut BasePower, archetypes: &Vec<ArchetypeRef>)
    ensures
        power_seeded(*old(power), *final(power), Some(archetypes@)),
{
    reveal(power_seeded);
    power.include_in_output = true;
    power.archetypes = clone_refs(archetypes);
}

/// A power that is left as it is, is seeded with nothing.
proof fn lemma_not_seeded(power: BasePower)
    ensures
        power_seeded(power, power, None),
{
    reveal(power_seeded);
}

/// A power that is seeded twice is seeded with what came last.
proof fn lemma_seeded_again(
    before: BasePower,
    middle: BasePower,
    after: BasePower,
    first: Option<Seq<ArchetypeRef>>,
    second: Option<Seq<ArchetypeRef>>,
)
    requires
        power_seeded(before, middle, first),
        power_seeded(middle, after, second),
    ensures
        power_seeded(
            before,
            after,
            if second is Some {
                second
            } else {
                first
            },
        ),
{
    reveal(power_seeded);
}

/// Notes whether the power set is included.
fn mark_set(power_set: &mut BasePowerSet, included: bool)
    ensures
        *final(power_set) == set_with(*old(power_set), included),
{
    power_set.include_in_output = included;
}

/// Notes whether the category is included; it stands at the top level
/// where it is.
fn mark_category(category: &mut PowerCategory, included: bool)
    ensures
        *final(category) == category_with(*old(category), included),
{
    category.include_in_output = included;
    category.top_level = included;
}

/// Includes the powers at the positions `places`, each with a copy of
/// `archetypes` in place of its own.
fn seed_powers(places: &Vec<usize>, archetypes: &Vec<ArchetypeRef>, powers: &mut Keyed<BasePower>)
    requires
        old(powers).wf(),
        forall|k: int| 0 <= k < places@.len() ==> #[trigger] places@[k] < old(powers).values().len(),
    ensures
        final(powers).wf(),
        final(powers).keys() == old(powers).keys(),
        final(powers).names() == old(powers).names(),
        final(powers).values().len() == old(powers).values().len(),
        forall|p: int|
            0 <= p < old(powers).values().len() ==> power_seeded(
                old(powers).values()[p],
                #[trigger] final(powers).values()[p],
                if among(places@, p, places@.len()) {
                    Some(archetypes@)
                } else {
                    None
                },
            ),
{
    let ghost start = *powers;
    let mut m: usize = 0;
    proof {
        assert forall|p: int| 0 <= p < start.values().len() implies power_seeded(
            start.values()[p],
            #[trigger] powers.values()[p],
            None,
        ) by {
            lemma_not_seeded(start.values()[p]);
        }
    }
    while m < places.len()
        invariant
            m <= places.len(),
            powers.wf(),
            powers.keys() == start.keys(),
            powers.names() == start.names(),
            powers.values().len() == start.values().len(),
            forall|k: int| 0 <= k < places@.len() ==> #[trigger] places@[k] < start.values().len(),
            forall|p: int|
                0 <= p < start.values().len() ==> power_seeded(
                    start.values()[p],
                    #[trigger] powers.values()[p],
                    if among(places@, p, m as nat) {
                        Some(archetypes@)
                    } else {
                        None
                    },
                ),
        decreases places.len() - m,
    {
        let ghost before = *powers;
        let place = places[m];
        seed_power(powers.at_mut(place), archetypes);
        proof {
            assert forall|p: int| 0 <= p < start.values().len() implies power_seeded(
                start.values()[p],
                #[trigger] powers.values()[p],
                if among(places@, p, (m + 1) as nat) {
                    Some(archetypes@)
                } else {
                    None
                },
            ) by {
                if p == place {
                    lemma_seeded_again(
                        start.values()[p],
                        before.values()[p],
                        powers.values()[p],
                        if among(places@, p, m as nat) {
                            Some(archetypes@)
                        } else {
                            None
                        },
                        Some(archetypes@),
                    );
                }
            }
        }
        m = m + 1;
    }
}

/// Includes the powers of the power sets at the positions `set_places`,
/// each with a copy of `archetypes` in place of its own, and notes of
/// each of these power sets whether it holds a power. Returns whether one
/// of them does.
fn seed_sets(
    set_places: &Vec<usize>,
    archetypes: &Vec<ArchetypeRef>,
    power_sets: &mut Keyed<BasePowerSet>,
    powers: &mut Keyed<BasePower>,
) -> (any: bool)
    requires
        old(power_sets).wf(),
        old(powers).wf(),
        forall|k: int|
            0 <= k < set_places@.len() ==> #[trigger] set_places@[k] < old(power_sets).values().len(),
        forall|s: int, k: int|
            0 <= s < old(power_sets).values().len() && 0 <= k < old(
                power_sets,
            ).values()[s].pp_powers@.len() ==> #[trigger] old(power_sets).values()[s].pp_powers@[k]
                < old(powers).values().len(),
    ensures
        final(power_sets).wf(),
        final(powers).wf(),
        final(power_sets).keys() == old(power_sets).keys(),
        final(power_sets).names() == old(power_sets).names(),
        final(power_sets).values().len() == old(power_sets).values().len(),
        final(powers).keys() == old(powers).keys(),
        final(powers).names() == old(powers).names(),
        final(powers).values().len() == old(powers).values().len(),
        any == any_powers(set_places@, powers_of(old(power_sets).values()), set_places@.len()),
        forall|s: int|
            0 <= s < old(power_sets).values().len() ==> #[trigger] final(power_sets).values()[s]
                == (if among(set_places@, s, set_places@.len()) {
                set_with(
                    old(power_sets).values()[s],
                    old(power_sets).values()[s].pp_powers@.len() > 0,
                )
            } else {
                old(power_sets).values()[s]
            }),
        forall|p: int|
            0 <= p < old(powers).values().len() ==> power_seeded(
                old(powers).values()[p],
                #[trigger] final(powers).values()[p],
                if reaches(
                    set_places@,
                    powers_of(old(power_sets).values()),
                    p,
                    set_places@.len(),
                ) {
                    Some(archetypes@)
                } else {
                    None
                },
            ),
{
    let ghost first_sets = *power_sets;
    let ghost first_powers = *powers;
    let ghost set_powers = powers_of(first_sets.values());
    let mut any = false;
    let mut k: usize = 0;
    proof {
        assert forall|p: int| 0 <= p < first_powers.values().len() implies power_seeded(
            first_powers.values()[p],
            #[trigger] powers.values()[p],
            None,
        ) by {
            lemma_not_seeded(first_powers.values()[p]);
        }
    }
    while k < set_places.len()
        invariant
            k <= set_places.len(),
            power_sets.wf(),
            powers.wf(),
            set_powers == powers_of(first_sets.values()),
            power_sets.keys() == first_sets.keys(),
            power_sets.names() == first_sets.names(),
            power_sets.values().len() == first_sets.values().len(),
            powers.keys() == first_powers.keys(),
            powers.names() == first_powers.names(),
            powers.values().len() == first_powers.values().len(),
            forall|j: int|
                0 <= j < set_places@.len() ==> #[trigger] set_places@[j] < first_sets.values().len(),
            forall|s: int, j: int|
                0 <= s < first_sets.values().len() && 0 <= j < first_sets.values()[s].pp_powers@.len()
                    ==> #[trigger] first_sets.values()[s].pp_powers@[j] < first_powers.values().len(),
            any == any_powers(set_places@, set_powers, k as nat),
            forall|s: int|
                0 <= s < first_sets.values().len() ==> #[trigger] power_sets.values()[s] == (if among(
                    set_places@,
                    s,
                    k as nat,
                ) {
                    set_with(first_sets.values()[s], first_sets.values()[s].pp_powers@.len() > 0)
                } else {
                    first_sets.values()[s]
                }),
            forall|p: int|
                0 <= p < first_powers.values().len() ==> power_seeded(
                    first_powers.values()[p],
                    #[trigger] powers.values()[p],
                    if reaches(set_places@, set_powers, p, k as nat) {
                        Some(archetypes@)
                    } else {
                        None
                    },
                ),
        decreases set_places.len() - k,
    {
        let ghost before = *powers;
        let place = set_places[k];
        let power_set = power_sets.at(place);
        seed_powers(&power_set.pp_powers, archetypes, powers);
        let has_powers = power_set.pp_powers.len() > 0;
        mark_set(power_sets.at_mut(place), has_powers);
        if has_powers {
            any = true;
        }
        proof {
            assert forall|p: int| 0 <= p < first_powers.values().len() implies power_seeded(
                first_powers.values()[p],
                #[trigger] powers.values()[p],
                if reaches(set_places@, set_powers, p, (k + 1) as nat) {
                    Some(archetypes@)
                } else {
                    None
                },
            ) by {
                lemma_seeded_again(
                    first_powers.values()[p],
                    before.values()[p],
                    powers.values()[p],
                    if reaches(set_places@, set_powers, p, k as nat) {
                        Some(archetypes@)
                    } else {
                        None
                    },
                    if among(set_powers[place as int], p, set_powers[place as int].len()) {
                        Some(archetypes@)
                    } else {
                        None
                    },
                );
            }
        }
        k = k + 1;
    }
    any
}

/// Whether `after` are the categories `before` once the powers of the
/// first `n` of them are included, where they stand at the top level: a
/// category of the top level is included, and stays at the top level,
/// where one of its power sets holds a power.
pub open spec fn categories_seeded(
    before: Seq<PowerCategory>,
    after: Seq<PowerCategory>,
    set_powers: Seq<Seq<usize>>,
    n: nat,
) -> bool {
    &&& after.len() == before.len()
    &&& forall|c: int|
        0 <= c < before.len() ==> #[trigger] after[c] == (if c < n && before[c].top_level {
            category_with(
                before[c],
                any_powers(before[c].pp_power_sets@, set_powers, before[c].pp_power_sets@.len()),
            )
        } else {
            before[c]
        })
}

/// Whether `after` are the power sets `before` once the powers of the
/// first `n` of `categories` are included: a power set of a category of
/// the top level is included where it holds a power.
pub open spec fn sets_seeded(
    before: Seq<BasePowerSet>,
    after: Seq<BasePowerSet>,
    categories: Seq<PowerCategory>,
    n: nat,
) -> bool {
    &&& after.len() == before.len()
    &&& forall|s: int|
        0 <= s < before.len() ==> #[trigger] after[s] == (if touched(categories, s, n) {
            set_with(before[s], before[s].pp_powers@.len() > 0)
        } else {
            before[s]
        })
}

/// The archetypes that the power at position `p` gets from the last of
/// the first `n` of `categories` that holds it at the top level.
pub open spec fn seed_of(
    categories: Seq<PowerCategory>,
    set_powers: Seq<Seq<usize>>,
    p: int,
    n: nat,
) -> Option<Seq<ArchetypeRef>> {
    match seeding(categories, set_powers, p, n) {
        Some(c) => Some(categories[c].archetypes@),
        None => None,
    }
}

/// Whether `after` are the powers `before` once the powers of the first
/// `n` of `categories` are included: a power of a power set of a category
/// of the top level is included, and has the archetypes of the last such
/// category in place of its own.
pub open spec fn powers_seeded(
    before: Seq<BasePower>,
    after: Seq<BasePower>,
    categories: Seq<PowerCategory>,
    set_powers: Seq<Seq<usize>>,
    n: nat,
) -> bool {
    &&& after.len() == before.len()
    &&& forall|p: int|
        0 <= p < before.len() ==> power_seeded(
            before[p],
            #[trigger] after[p],
            seed_of(categories, set_powers, p, n),
        )
}

/// Whether the second three collections are the first three once the
/// powers of the top level are included: see `include_top_level`.
pub open spec fn top_level_included(
    cats_before: &Keyed<PowerCategory>,
    sets_before: &Keyed<BasePowerSet>,
    powers_before: &Keyed<BasePower>,
    cats_after: &Keyed<PowerCategory>,
    sets_after: &Keyed<BasePowerSet>,
    powers_after: &Keyed<BasePower>,
) -> bool {
    &&& cats_after.keys() == cats_before.keys()
    &&& cats_after.names() == cats_before.names()
    &&& sets_after.keys() == sets_before.keys()
    &&& sets_after.names() == sets_before.names()
    &&& powers_after.keys() == powers_before.keys()
    &&& powers_after.names() == powers_before.names()
    &&& categories_seeded(
        cats_before.values(),
        cats_after.values(),
        powers_of(sets_before.values()),
        cats_before.values().len(),
    )
    &&& sets_seeded(
        sets_before.values(),
        sets_after.values(),
        cats_before.values(),
        cats_before.values().len(),
    )
    &&& powers_seeded(
        powers_before.values(),
        powers_after.values(),
        cats_before.values(),
        powers_of(sets_before.values()),
        cats_before.values().len(),
    )
}

/// Includes every power of every power set of every category that stands
/// at the top level, and gives each such power the archetypes of the
/// category in place of its own; where several categories hold a power,
/// those of the last. A power set of such a category is included where
/// it holds a power, and the category where one of its power sets does;
/// a category of the top level that is not included leaves the top level.
pub fn include_top_level(
    power_cats: &mut Keyed<PowerCategory>,
    power_sets: &mut Keyed<BasePowerSet>,
    powers: &mut Keyed<BasePower>,
)
    requires
        old(power_cats).wf(),
        old(power_sets).wf(),
        old(powers).wf(),
        hierarchy_valid(old(power_cats), old(power_sets), old(powers)),
    ensures
        final(power_cats).wf(),
        final(power_sets).wf(),
        final(powers).wf(),
        top_level_included(
            old(power_cats),
            old(power_sets),
            old(powers),
            final(power_cats),
            final(power_sets),
            final(powers),
        ),
{
    let ghost first_cats = *power_cats;
    let ghost first_sets = *power_sets;
    let ghost first_powers = *powers;
    let ghost set_powers = powers_of(first_sets.values());
    let n = power_cats.len();
    let mut c: usize = 0;
    proof {
        assert forall|p: int| 0 <= p < first_powers.values().len() implies power_seeded(
            first_powers.values()[p],
            #[trigger] powers.values()[p],
            seed_of(first_cats.values(), set_powers, p, 0),
        ) by {
            lemma_not_seeded(first_powers.values()[p]);
        }
    }
    while c < n
        invariant
            c <= n,
            n == first_cats.values().len(),
            power_cats.wf(),
            power_sets.wf(),
            powers.wf(),
            set_powers == powers_of(first_sets.values()),
            hierarchy_valid(&first_cats, &first_sets, &first_powers),
            power_cats.keys() == first_cats.keys(),
            power_cats.names() == first_cats.names(),
            power_sets.keys() == first_sets.keys(),
            power_sets.names() == first_sets.names(),
            powers.keys() == first_powers.keys(),
            powers.names() == first_powers.names(),
            powers.values().len() == first_powers.values().len(),
            categories_seeded(first_cats.values(), power_cats.values(), set_powers, c as nat),
            sets_seeded(first_sets.values(), power_sets.values(), first_cats.values(), c as nat),
            powers_seeded(
                first_powers.values(),
                powers.values(),
                first_cats.values(),
                set_powers,
                c as nat,
            ),
        decreases n - c,
    {
        let ghost sets_before = *power_sets;
        let ghost powers_before = *powers;
        let category = power_cats.at(c);
        if category.top_level {
            let archetypes = clone_refs(&category.archetypes);
            proof {
                assert(powers_of(sets_before.values()) =~= set_powers);
            }
            let any = seed_sets(&category.pp_power_sets, &archetypes, power_sets, powers);
            mark_category(power_cats.at_mut(c), any);
            proof {
                assert forall|p: int| 0 <= p < first_powers.values().len() implies power_seeded(
                    first_powers.values()[p],
                    #[trigger] powers.values()[p],
                    seed_of(first_cats.values(), set_powers, p, (c + 1) as nat),
                ) by {
                    lemma_seeded_again(
                        first_powers.values()[p],
                        powers_before.values()[p],
                        powers.values()[p],
                        seed_of(first_cats.values(), set_powers, p, c as nat),
                        if reaches(
                            category.pp_power_sets@,
                            set_powers,
                            p,
                            category.pp_power_sets@.len(),
                        ) {
                            Some(archetypes@)
                        } else {
                            None
                        },
                    );
                }
            }
        }
        c = c + 1;
    }
}

} // verus!
