//! The cascade: a power that is included has its power set and its
//! category included with it.

use super::closure::{closed, idle, led, pass};
use super::entities::{entity_marks, names_of, power_resolved};
use super::marks::{
    categories_marked, category_hit, category_key, lemma_owner_keys, marks_well_named,
    power_hit, power_marked, set_hit, set_key, sets_marked, well_named, MarkView,
};
use super::redirects::{
    due, due_count, lemma_redirect_marks_named, redirect_marks, with_redirects_resolved,
};
use super::seeding::{
    top_level_included, among, any_powers, categories_seeded, category_with, power_seeded, powers_of, powers_seeded,
    reaches, seed_of, seeding, set_with, sets_seeded, touched,
};
use crate::structs::archetype::Archetype;
use crate::structs::keyed::Keyed;
use crate::structs::namekey::fold;
use crate::structs::powers::{BasePower, BasePowerSet, PowerCategory};
use crate::structs::villains::VillainDef;
use vstd::prelude::*;

verus! {

/// Whether the power set and the category that the power called `name`
/// belongs to are included, where they are there.
pub open spec fn owners_included(
    power_cats: &Keyed<PowerCategory>,
    power_sets: &Keyed<BasePowerSet>,
    name: Seq<char>,
) -> bool {
    &&& forall|s: int|
        0 <= s < power_sets.values().len() && #[trigger] power_sets.keys()[s] == set_key(name)
            ==> power_sets.values()[s].include_in_output
    &&& forall|c: int|
        0 <= c < power_cats.values().len() && #[trigger] power_cats.keys()[c] == category_key(name)
            ==> power_cats.values()[c].include_in_output
}

/// Whether every power that is included, and is called by a full name,
/// has its power set and its category included with it.
pub open spec fn cascade(
    power_cats: &Keyed<PowerCategory>,
    power_sets: &Keyed<BasePowerSet>,
    powers: &Keyed<BasePower>,
) -> bool {
    forall|p: int|
        0 <= p < powers.values().len() && (#[trigger] powers.values()[p]).include_in_output
            && well_named(powers.names()[p]) ==> owners_included(
            power_cats,
            power_sets,
            powers.names()[p],
        )
}

/// A power that one of the first `n` marks includes is named by one of
/// them.
proof fn lemma_power_hit(marks: Seq<MarkView>, key: Seq<char>, n: nat)
    requires
        power_hit(marks, key, n),
    ensures
        exists|m: int| 0 <= m < n && m < marks.len() && fold(#[trigger] marks[m].name) == key,
    decreases n,
{
    if n > 0 && n <= marks.len() && fold(marks[n - 1].name) != key {
        lemma_power_hit(marks, key, (n - 1) as nat);
    }
}

/// A mark includes the category and the power set of the power that it
/// names.
proof fn lemma_owners_hit(marks: Seq<MarkView>, m: int, n: nat)
    requires
        0 <= m < n <= marks.len(),
    ensures
        category_hit(marks, category_key(marks[m].name), n),
        set_hit(marks, set_key(marks[m].name), n),
    decreases n,
{
    if m < n - 1 {
        lemma_owners_hit(marks, m, (n - 1) as nat);
    }
}

/// Applying marks keeps the cascade: each mark includes a power together
/// with its power set and its category.
pub proof fn lemma_cascade_marked(
    cats_before: &Keyed<PowerCategory>,
    sets_before: &Keyed<BasePowerSet>,
    powers_before: &Keyed<BasePower>,
    cats_after: &Keyed<PowerCategory>,
    sets_after: &Keyed<BasePowerSet>,
    powers_after: &Keyed<BasePower>,
    marks: Seq<MarkView>,
)
    requires
        powers_before.wf(),
        cascade(cats_before, sets_before, powers_before),
        marks_well_named(marks),
        categories_marked(cats_before, cats_after, marks, marks.len()),
        sets_marked(sets_before, sets_after, marks, marks.len()),
        powers_after.keys() == powers_before.keys(),
        powers_after.names() == powers_before.names(),
        powers_after.values().len() == powers_before.values().len(),
        forall|j: int|
            0 <= j < powers_before.values().len() ==> (#[trigger] powers_after.values()[j]).include_in_output
                == (powers_before.values()[j].include_in_output || power_hit(
                marks,
                powers_before.keys()[j],
                marks.len(),
            )),
    ensures
        cascade(cats_after, sets_after, powers_after),
{
    powers_before.lemma_wf();
    assert forall|p: int|
        0 <= p < powers_after.values().len() && (#[trigger] powers_after.values()[p]).include_in_output
            && well_named(powers_after.names()[p]) implies owners_included(
        cats_after,
        sets_after,
        powers_after.names()[p],
    ) by {
        let name = powers_after.names()[p];
        if !powers_before.values()[p].include_in_output {
            lemma_power_hit(marks, powers_before.keys()[p], marks.len());
            let m = choose|m: int|
                0 <= m < marks.len() && fold(#[trigger] marks[m].name) == powers_before.keys()[p];
            lemma_owner_keys(marks[m].name, name);
            lemma_owners_hit(marks, m, marks.len());
        }
    }
}

/// A pass keeps the cascade.
pub proof fn lemma_cascade_pass(
    villains: &Keyed<VillainDef>,
    villain_archetypes: &Keyed<Archetype>,
    cats_before: &Keyed<PowerCategory>,
    sets_before: &Keyed<BasePowerSet>,
    powers_before: &Keyed<BasePower>,
    cats_between: &Keyed<PowerCategory>,
    sets_between: &Keyed<BasePowerSet>,
    powers_between: &Keyed<BasePower>,
    cats_after: &Keyed<PowerCategory>,
    sets_after: &Keyed<BasePowerSet>,
    powers_after: &Keyed<BasePower>,
)
    requires
        powers_before.wf(),
        powers_between.wf(),
        cascade(cats_before, sets_before, powers_before),
        pass(
            villains,
            villain_archetypes,
            cats_before,
            sets_before,
            powers_before,
            cats_between,
            sets_between,
            powers_between,
            cats_after,
            sets_after,
            powers_after,
        ),
    ensures
        cascade(cats_after, sets_after, powers_after),
{
    reveal(power_marked);
    let n = powers_before.values().len();
    let names = names_of(villains, villain_archetypes, sets_before, powers_before);
    let first = entity_marks(powers_before.values(), names, n);
    let second = redirect_marks(powers_between.values(), n);
    lemma_cascade_marked(
        cats_before,
        sets_before,
        powers_before,
        cats_between,
        sets_between,
        powers_between,
        first,
    );
    lemma_redirect_marks_named(powers_between.values(), n);
    lemma_cascade_marked(
        cats_between,
        sets_between,
        powers_between,
        cats_after,
        sets_after,
        powers_after,
        second,
    );
}

/// Whether the names agree with the hierarchy: each power that a power
/// set of a category holds is called by a full name, and that name
/// begins with the names of the category and of the power set.
pub open spec fn nominal(
    power_cats: &Keyed<PowerCategory>,
    power_sets: &Keyed<BasePowerSet>,
    powers: &Keyed<BasePower>,
) -> bool {
    forall|c: int, s: int, p: int|
        #![trigger among(power_cats.values()[c].pp_power_sets@, s, power_cats.values()[c].pp_power_sets@.len()), among(power_sets.values()[s].pp_powers@, p, power_sets.values()[s].pp_powers@.len())]
        0 <= c < power_cats.values().len() && 0 <= s < power_sets.values().len() && 0 <= p
            < powers.values().len() && among(
            power_cats.values()[c].pp_power_sets@,
            s,
            power_cats.values()[c].pp_power_sets@.len(),
        ) && among(power_sets.values()[s].pp_powers@, p, power_sets.values()[s].pp_powers@.len())
            ==> well_named(powers.names()[p]) && power_sets.keys()[s] == set_key(
            powers.names()[p],
        ) && power_cats.keys()[c] == category_key(powers.names()[p])
}

/// Whether nothing is included.
pub open spec fn nothing_included(
    power_cats: &Keyed<PowerCategory>,
    power_sets: &Keyed<BasePowerSet>,
    powers: &Keyed<BasePower>,
) -> bool {
    &&& forall|c: int|
        0 <= c < power_cats.values().len() ==> !(#[trigger] power_cats.values()[c]).include_in_output
    &&& forall|s: int|
        0 <= s < power_sets.values().len() ==> !(#[trigger] power_sets.values()[s]).include_in_output
    &&& forall|p: int| 0 <= p < powers.values().len() ==> !(#[trigger] powers.values()[p]).include_in_output
}

/// What is among the first `n` of a list stands at one of its first `n`
/// places, and the other way round.
proof fn lemma_among(list: Seq<usize>, x: int, n: nat)
    requires
        n <= list.len(),
    ensures
        among(list, x, n) <==> exists|m: int| 0 <= m < n && #[trigger] list[m] == x,
    decreases n,
{
    if n > 0 {
        lemma_among(list, x, (n - 1) as nat);
    }
}

/// A power that power sets reach is held by one of them.
proof fn lemma_reaches(set_places: Seq<usize>, set_powers: Seq<Seq<usize>>, p: int, n: nat)
    requires
        n <= set_places.len(),
        reaches(set_places, set_powers, p, n),
    ensures
        exists|k: int|
            0 <= k < n && (#[trigger] set_places[k]) < set_powers.len() && among(
                set_powers[set_places[k] as int],
                p,
                set_powers[set_places[k] as int].len(),
            ),
    decreases n,
{
    if n > 0 && !(set_places[n - 1] < set_powers.len() && among(
        set_powers[set_places[n - 1] as int],
        p,
        set_powers[set_places[n - 1] as int].len(),
    )) {
        lemma_reaches(set_places, set_powers, p, (n - 1) as nat);
    }
}

/// The category that seeds a power stands at the top level and reaches
/// it.
proof fn lemma_seeding(categories: Seq<PowerCategory>, set_powers: Seq<Seq<usize>>, p: int, n: nat)
    requires
        n <= categories.len(),
        seeding(categories, set_powers, p, n) is Some,
    ensures
        0 <= seeding(categories, set_powers, p, n)->0 < n,
        categories[seeding(categories, set_powers, p, n)->0].top_level,
        reaches(
            categories[seeding(categories, set_powers, p, n)->0].pp_power_sets@,
            set_powers,
            p,
            categories[seeding(categories, set_powers, p, n)->0].pp_power_sets@.len(),
        ),
    decreases n,
{
    if n > 0 {
        if !(categories[n - 1].top_level && reaches(
            categories[n - 1].pp_power_sets@,
            set_powers,
            p,
            categories[n - 1].pp_power_sets@.len(),
        )) {
            lemma_seeding(categories, set_powers, p, (n - 1) as nat);
        }
    }
}

/// A power set that a category of the top level holds is touched.
proof fn lemma_touched(categories: Seq<PowerCategory>, s: int, c: int, n: nat)
    requires
        0 <= c < n <= categories.len(),
        categories[c].top_level,
        among(categories[c].pp_power_sets@, s, categories[c].pp_power_sets@.len()),
    ensures
        touched(categories, s, n),
    decreases n,
{
    if c < n - 1 {
        lemma_touched(categories, s, c, (n - 1) as nat);
    }
}

/// Where one of the power sets holds a power, some of them do.
proof fn lemma_any_powers(set_places: Seq<usize>, set_powers: Seq<Seq<usize>>, k: int, n: nat)
    requires
        0 <= k < n <= set_places.len(),
        set_places[k] < set_powers.len(),
        set_powers[set_places[k] as int].len() > 0,
    ensures
        any_powers(set_places, set_powers, n),
    decreases n,
{
    if k < n - 1 {
        lemma_any_powers(set_places, set_powers, k, (n - 1) as nat);
    }
}

/// Including the powers of the top level establishes the cascade, where
/// nothing was included before and the names agree with the hierarchy.
pub proof fn lemma_cascade_seeded(
    cats_before: &Keyed<PowerCategory>,
    sets_before: &Keyed<BasePowerSet>,
    powers_before: &Keyed<BasePower>,
    cats_after: &Keyed<PowerCategory>,
    sets_after: &Keyed<BasePowerSet>,
    powers_after: &Keyed<BasePower>,
)
    requires
        cats_before.wf(),
        sets_before.wf(),
        powers_before.wf(),
        nothing_included(cats_before, sets_before, powers_before),
        nominal(cats_before, sets_before, powers_before),
        cats_after.keys() == cats_before.keys(),
        sets_after.keys() == sets_before.keys(),
        powers_after.names() == powers_before.names(),
        categories_seeded(
            cats_before.values(),
            cats_after.values(),
            powers_of(sets_before.values()),
            cats_before.values().len(),
        ),
        sets_seeded(
            sets_before.values(),
            sets_after.values(),
            cats_before.values(),
            cats_before.values().len(),
        ),
        powers_seeded(
            powers_before.values(),
            powers_after.values(),
            cats_before.values(),
            powers_of(sets_before.values()),
            cats_before.values().len(),
        ),
    ensures
        cascade(cats_after, sets_after, powers_after),
{
    reveal(power_seeded);
    cats_before.lemma_wf();
    sets_before.lemma_wf();
    powers_before.lemma_wf();
    let cats = cats_before.values();
    let sets = sets_before.values();
    let set_powers = powers_of(sets);
    let n = cats.len();
    assert forall|p: int|
        0 <= p < powers_after.values().len() && (#[trigger] powers_after.values()[p]).include_in_output
            && well_named(powers_after.names()[p]) implies owners_included(
        cats_after,
        sets_after,
        powers_after.names()[p],
    ) by {
        let name = powers_after.names()[p];
        lemma_seeding(cats, set_powers, p, n);
        let c = seeding(cats, set_powers, p, n)->0;
        let places = cats[c].pp_power_sets@;
        lemma_reaches(places, set_powers, p, places.len());
        let k = choose|k: int|
            0 <= k < places.len() && (#[trigger] places[k]) < set_powers.len() && among(
                set_powers[places[k] as int],
                p,
                set_powers[places[k] as int].len(),
            );
        let s = places[k] as int;
        lemma_among(places, s, places.len());
        lemma_among(sets[s].pp_powers@, p, sets[s].pp_powers@.len());
        lemma_touched(cats, s, c, n);
        lemma_any_powers(places, set_powers, k, places.len());
    }
}

/// Whether every category, power set and power that is included in the
/// first three collections is included in the second three, under the
/// same names.
pub open spec fn included_stay(
    cats_before: &Keyed<PowerCategory>,
    sets_before: &Keyed<BasePowerSet>,
    powers_before: &Keyed<BasePower>,
    cats_after: &Keyed<PowerCategory>,
    sets_after: &Keyed<BasePowerSet>,
    powers_after: &Keyed<BasePower>,
) -> bool {
    &&& cats_after.keys() == cats_before.keys()
    &&& sets_after.keys() == sets_before.keys()
    &&& powers_after.keys() == powers_before.keys()
    &&& cats_after.values().len() == cats_before.values().len()
    &&& sets_after.values().len() == sets_before.values().len()
    &&& powers_after.values().len() == powers_before.values().len()
    &&& forall|c: int|
        0 <= c < cats_before.values().len() && cats_before.values()[c].include_in_output ==> (
        #[trigger] cats_after.values()[c]).include_in_output
    &&& forall|c: int|
        0 <= c < cats_before.values().len() ==> (#[trigger] cats_after.values()[c]).top_level
            == cats_before.values()[c].top_level
    &&& forall|s: int|
        0 <= s < sets_before.values().len() && sets_before.values()[s].include_in_output ==> (
        #[trigger] sets_after.values()[s]).include_in_output
    &&& forall|p: int|
        0 <= p < powers_before.values().len() && powers_before.values()[p].include_in_output ==> (
        #[trigger] powers_after.values()[p]).include_in_output
}

/// A pass clears no mark of inclusion.
pub proof fn lemma_pass_keeps(
    villains: &Keyed<VillainDef>,
    villain_archetypes: &Keyed<Archetype>,
    cats_before: &Keyed<PowerCategory>,
    sets_before: &Keyed<BasePowerSet>,
    powers_before: &Keyed<BasePower>,
    cats_between: &Keyed<PowerCategory>,
    sets_between: &Keyed<BasePowerSet>,
    powers_between: &Keyed<BasePower>,
    cats_after: &Keyed<PowerCategory>,
    sets_after: &Keyed<BasePowerSet>,
    powers_after: &Keyed<BasePower>,
)
    requires
        pass(
            villains,
            villain_archetypes,
            cats_before,
            sets_before,
            powers_before,
            cats_between,
            sets_between,
            powers_between,
            cats_after,
            sets_after,
            powers_after,
        ),
    ensures
        included_stay(
            cats_before,
            sets_before,
            powers_before,
            cats_after,
            sets_after,
            powers_after,
        ),
{
    reveal(power_marked);
    assert forall|c: int|
        0 <= c < cats_before.values().len() implies (#[trigger] cats_after.values()[c]).top_level
        == cats_before.values()[c].top_level && (cats_before.values()[c].include_in_output
        ==> cats_after.values()[c].include_in_output) by {
        assert(cats_between.values()[c].top_level == cats_before.values()[c].top_level);
    }
    assert forall|s: int|
        0 <= s < sets_before.values().len() && sets_before.values()[s].include_in_output implies (
    #[trigger] sets_after.values()[s]).include_in_output by {
        assert(sets_between.values()[s].include_in_output);
    }
    assert forall|p: int|
        0 <= p < powers_before.values().len()
            && powers_before.values()[p].include_in_output implies (
    #[trigger] powers_after.values()[p]).include_in_output by {
        assert(powers_between.values()[p].include_in_output);
    }
}

/// Passes clear no mark of inclusion.
pub proof fn lemma_led_keeps(
    villains: &Keyed<VillainDef>,
    villain_archetypes: &Keyed<Archetype>,
    cats_first: &Keyed<PowerCategory>,
    sets_first: &Keyed<BasePowerSet>,
    powers_first: &Keyed<BasePower>,
    cats_last: &Keyed<PowerCategory>,
    sets_last: &Keyed<BasePowerSet>,
    powers_last: &Keyed<BasePower>,
    n: nat,
)
    requires
        led(
            villains,
            villain_archetypes,
            cats_first,
            sets_first,
            powers_first,
            cats_last,
            sets_last,
            powers_last,
            n,
        ),
    ensures
        included_stay(cats_first, sets_first, powers_first, cats_last, sets_last, powers_last),
    decreases n,
{
    if n > 0 {
        let (cats, sets, powers, cats_between, sets_between, powers_between) = choose|
            cats: Keyed<PowerCategory>,
            sets: Keyed<BasePowerSet>,
            powers: Keyed<BasePower>,
            cats_between: Keyed<PowerCategory>,
            sets_between: Keyed<BasePowerSet>,
            powers_between: Keyed<BasePower>,
        |
            #![trigger pass(villains, villain_archetypes, &cats, &sets, &powers, &cats_between, &sets_between, &powers_between, cats_last, sets_last, powers_last)]
            led(
                villains,
                villain_archetypes,
                cats_first,
                sets_first,
                powers_first,
                &cats,
                &sets,
                &powers,
                (n - 1) as nat,
            ) && pass(
                villains,
                villain_archetypes,
                &cats,
                &sets,
                &powers,
                &cats_between,
                &sets_between,
                &powers_between,
                cats_last,
                sets_last,
                powers_last,
            );
        lemma_led_keeps(
            villains,
            villain_archetypes,
            cats_first,
            sets_first,
            powers_first,
            &cats,
            &sets,
            &powers,
            (n - 1) as nat,
        );
        lemma_pass_keeps(
            villains,
            villain_archetypes,
            &cats,
            &sets,
            &powers,
            &cats_between,
            &sets_between,
            &powers_between,
            cats_last,
            sets_last,
            powers_last,
        );
    }
}

/// What is included before the references are resolved is included when
/// they are: a mark of inclusion, once set, is never cleared.
pub proof fn lemma_closed_keeps(
    villains: &Keyed<VillainDef>,
    villain_archetypes: &Keyed<Archetype>,
    cats_first: &Keyed<PowerCategory>,
    sets_first: &Keyed<BasePowerSet>,
    powers_first: &Keyed<BasePower>,
    cats_last: &Keyed<PowerCategory>,
    sets_last: &Keyed<BasePowerSet>,
    powers_last: &Keyed<BasePower>,
    productive: nat,
)
    requires
        closed(
            villains,
            villain_archetypes,
            cats_first,
            sets_first,
            powers_first,
            cats_last,
            sets_last,
            powers_last,
            productive,
        ),
    ensures
        included_stay(cats_first, sets_first, powers_first, cats_last, sets_last, powers_last),
{
    let (cats, sets, powers, cats_between, sets_between, powers_between) = choose|
        cats: Keyed<PowerCategory>,
        sets: Keyed<BasePowerSet>,
        powers: Keyed<BasePower>,
        cats_between: Keyed<PowerCategory>,
        sets_between: Keyed<BasePowerSet>,
        powers_between: Keyed<BasePower>,
    |
        #![trigger pass(villains, villain_archetypes, &cats, &sets, &powers, &cats_between, &sets_between, &powers_between, cats_last, sets_last, powers_last)]
        led(
            villains,
            villain_archetypes,
            cats_first,
            sets_first,
            powers_first,
            &cats,
            &sets,
            &powers,
            productive,
        ) && pass(
            villains,
            villain_archetypes,
            &cats,
            &sets,
            &powers,
            &cats_between,
            &sets_between,
            &powers_between,
            cats_last,
            sets_last,
            powers_last,
        );
    lemma_led_keeps(
        villains,
        villain_archetypes,
        cats_first,
        sets_first,
        powers_first,
        &cats,
        &sets,
        &powers,
        productive,
    );
    lemma_pass_keeps(
        villains,
        villain_archetypes,
        &cats,
        &sets,
        &powers,
        &cats_between,
        &sets_between,
        &powers_between,
        cats_last,
        sets_last,
        powers_last,
    );
}

/// A power set that holds a power reaches it.
proof fn lemma_reached(set_places: Seq<usize>, set_powers: Seq<Seq<usize>>, p: int, k: int, n: nat)
    requires
        0 <= k < n <= set_places.len(),
        set_places[k] < set_powers.len(),
        among(set_powers[set_places[k] as int], p, set_powers[set_places[k] as int].len()),
    ensures
        reaches(set_places, set_powers, p, n),
    decreases n,
{
    if k < n - 1 {
        lemma_reached(set_places, set_powers, p, k, (n - 1) as nat);
    }
}

/// A power that a category of the top level reaches is seeded.
proof fn lemma_seeded(
    categories: Seq<PowerCategory>,
    set_powers: Seq<Seq<usize>>,
    p: int,
    c: int,
    n: nat,
)
    requires
        0 <= c < n <= categories.len(),
        categories[c].top_level,
        reaches(
            categories[c].pp_power_sets@,
            set_powers,
            p,
            categories[c].pp_power_sets@.len(),
        ),
    ensures
        seeding(categories, set_powers, p, n) is Some,
    decreases n,
{
    if c < n - 1 {
        lemma_seeded(categories, set_powers, p, c, (n - 1) as nat);
    }
}

/// Including the powers of the top level includes every power that a
/// power set of a category of the top level holds, with that power set
/// and that category, which stays at the top level.
pub proof fn lemma_top_level_reached(
    cats_before: &Keyed<PowerCategory>,
    sets_before: &Keyed<BasePowerSet>,
    powers_before: &Keyed<BasePower>,
    cats_after: &Keyed<PowerCategory>,
    sets_after: &Keyed<BasePowerSet>,
    powers_after: &Keyed<BasePower>,
    c: int,
    s: int,
    p: int,
)
    requires
        top_level_included(
            cats_before,
            sets_before,
            powers_before,
            cats_after,
            sets_after,
            powers_after,
        ),
        0 <= c < cats_before.values().len(),
        0 <= s < sets_before.values().len(),
        0 <= p < powers_before.values().len(),
        cats_before.values()[c].top_level,
        among(
            cats_before.values()[c].pp_power_sets@,
            s,
            cats_before.values()[c].pp_power_sets@.len(),
        ),
        among(
            sets_before.values()[s].pp_powers@,
            p,
            sets_before.values()[s].pp_powers@.len(),
        ),
    ensures
        powers_after.values()[p].include_in_output,
        sets_after.values()[s].include_in_output,
        cats_after.values()[c].include_in_output,
        cats_after.values()[c].top_level,
{
    reveal(power_seeded);
    let cats = cats_before.values();
    let set_powers = powers_of(sets_before.values());
    let places = cats[c].pp_power_sets@;
    lemma_among(places, s, places.len());
    let k = choose|k: int| 0 <= k < places.len() && #[trigger] places[k] == s;
    lemma_among(sets_before.values()[s].pp_powers@, p, sets_before.values()[s].pp_powers@.len());
    lemma_reached(places, set_powers, p, k, places.len());
    lemma_seeded(cats, set_powers, p, c, cats.len());
    lemma_touched(cats, s, c, cats.len());
    lemma_any_powers(places, set_powers, k, places.len());
    assert(power_seeded(
        powers_before.values()[p],
        powers_after.values()[p],
        seed_of(cats, set_powers, p, cats.len()),
    ));
}

/// A power that is included with the top level keeps what it was noted
/// to have had followed: where its redirects were not followed before, it
/// has them to follow.
pub proof fn lemma_seeded_due(
    cats_before: &Keyed<PowerCategory>,
    sets_before: &Keyed<BasePowerSet>,
    powers_before: &Keyed<BasePower>,
    cats_after: &Keyed<PowerCategory>,
    sets_after: &Keyed<BasePowerSet>,
    powers_after: &Keyed<BasePower>,
    p: int,
)
    requires
        top_level_included(
            cats_before,
            sets_before,
            powers_before,
            cats_after,
            sets_after,
            powers_after,
        ),
        0 <= p < powers_before.values().len(),
        powers_after.values()[p].include_in_output,
        !powers_before.values()[p].redirects_resolved,
    ensures
        due(powers_after.values()[p]),
{
    reveal(power_seeded);
    assert(power_seeded(
        powers_before.values()[p],
        powers_after.values()[p],
        seed_of(
            cats_before.values(),
            powers_of(sets_before.values()),
            p,
            cats_before.values().len(),
        ),
    ));
}

/// A power that has redirects to follow is counted.
proof fn lemma_due_counted(powers: Seq<BasePower>, j: int, n: nat)
    requires
        0 <= j < n <= powers.len(),
        due(powers[j]),
    ensures
        due_count(powers, n) > 0,
    decreases n,
{
    if j < n - 1 {
        lemma_due_counted(powers, j, (n - 1) as nat);
    }
}

/// Where a power is included whose redirects have not been followed, the
/// first pass resolves something: the pass that finds nothing left to
/// resolve is the second at the earliest.
pub proof fn lemma_closed_twice(
    villains: &Keyed<VillainDef>,
    villain_archetypes: &Keyed<Archetype>,
    cats_first: &Keyed<PowerCategory>,
    sets_first: &Keyed<BasePowerSet>,
    powers_first: &Keyed<BasePower>,
    cats_last: &Keyed<PowerCategory>,
    sets_last: &Keyed<BasePowerSet>,
    powers_last: &Keyed<BasePower>,
    productive: nat,
    j: int,
)
    requires
        closed(
            villains,
            villain_archetypes,
            cats_first,
            sets_first,
            powers_first,
            cats_last,
            sets_last,
            powers_last,
            productive,
        ),
        0 <= j < powers_first.values().len(),
        due(powers_first.values()[j]),
    ensures
        productive >= 1,
{
    if productive == 0 {
        let (cats, sets, powers, cats_between, sets_between, powers_between) = choose|
            cats: Keyed<PowerCategory>,
            sets: Keyed<BasePowerSet>,
            powers: Keyed<BasePower>,
            cats_between: Keyed<PowerCategory>,
            sets_between: Keyed<BasePowerSet>,
            powers_between: Keyed<BasePower>,
        |
            #![trigger pass(villains, villain_archetypes, &cats, &sets, &powers, &cats_between, &sets_between, &powers_between, cats_last, sets_last, powers_last)]
            led(
                villains,
                villain_archetypes,
                cats_first,
                sets_first,
                powers_first,
                &cats,
                &sets,
                &powers,
                productive,
            ) && pass(
                villains,
                villain_archetypes,
                &cats,
                &sets,
                &powers,
                &cats_between,
                &sets_between,
                &powers_between,
                cats_last,
                sets_last,
                powers_last,
            ) && idle(&powers, &powers_between);
        assert(powers == *powers_first);
        assert(due(powers_between.values()[j]));
        lemma_due_counted(powers_between.values(), j, powers_between.values().len());
    }
}

} // verus!
