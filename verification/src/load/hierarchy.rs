//! The hierarchy of categories, power sets and powers: which archetypes
//! belong to which category, which categories stand at the top level, and
//! which entities hold which.

use crate::structs::archetype::Archetype;
use crate::structs::boosts::BoostSet;
use crate::structs::config::PowersConfig;
use crate::structs::keyed::{position_in, Keyed};
use crate::structs::namekey::{fold, occurs, NameKey};
use crate::structs::powers::{BasePower, BasePowerSet, PowerCategory};
use crate::structs::{ArchetypeRef, PrimarySecondary};
use vstd::prelude::*;

verus! {

/// Finds the position of the power category that `name` names, if it
/// names one.
pub fn find_power_category(power_categories: &Keyed<PowerCategory>, name: Option<&NameKey>) -> (place:
    Option<usize>)
    requires
        power_categories.wf(),
    ensures
        place == (match name {
            Some(n) => match power_categories.position(n.norm()) {
                Some(i) => Some(i as usize),
                None => None,
            },
            None => None,
        }),
        place matches Some(i) ==> i < power_categories.values().len()
            && power_categories.keys()[i as int] == name->0.norm(),
{
    match name {
        Some(n) => power_categories.find(n),
        None => None,
    }
}

/// Whether `name` names the category under `key`.
pub open spec fn names_category(name: Option<NameKey>, key: Seq<char>) -> bool {
    name is Some && name->0.norm() == key
}

/// One copy of `archetype` where `hit` holds, and nothing where it does
/// not.
pub open spec fn once_if(hit: bool, archetype: ArchetypeRef) -> Seq<ArchetypeRef> {
    if hit {
        seq![archetype]
    } else {
        Seq::empty()
    }
}

/// As many copies of `archetype` as there are names of the category under
/// `key` among the first `n` of `globals`.
pub open spec fn attached_globally(
    globals: Seq<Seq<char>>,
    key: Seq<char>,
    archetype: ArchetypeRef,
    n: nat,
) -> Seq<ArchetypeRef>
    decreases n,
{
    if n == 0 || n > globals.len() {
        Seq::empty()
    } else {
        attached_globally(globals, key, archetype, (n - 1) as nat) + once_if(
            fold(globals[n - 1]) == key,
            archetype,
        )
    }
}

/// What one archetype adds to the archetypes of the category under `key`:
/// a copy of itself for each of its four categories that is that
/// category, the primary, the secondary, the epic pool and the power
/// pool, and one for each global category that is.
pub open spec fn attached_by(
    archetype: Archetype,
    reference: ArchetypeRef,
    globals: Seq<Seq<char>>,
    key: Seq<char>,
) -> Seq<ArchetypeRef> {
    once_if(names_category(archetype.pch_primary_category, key), reference) + once_if(
        names_category(archetype.pch_secondary_category, key),
        reference,
    ) + once_if(names_category(archetype.pch_epic_pool_category, key), reference) + once_if(
        names_category(archetype.pch_power_pool_category, key),
        reference,
    ) + attached_globally(globals, key, reference, globals.len())
}

/// What the first `n` of `archetypes` add to the archetypes of the
/// category under `key`.
pub open spec fn attached(
    archetypes: Seq<Archetype>,
    globals: Seq<Seq<char>>,
    key: Seq<char>,
    n: nat,
) -> Seq<ArchetypeRef>
    decreases n,
{
    if n == 0 || n > archetypes.len() {
        Seq::empty()
    } else {
        attached(archetypes, globals, key, (n - 1) as nat) + attached_by(
            archetypes[n - 1],
            ArchetypeRef { villain: false, index: (n - 1) as usize },
            globals,
            key,
        )
    }
}

/// The choice that the category under `key` is after one archetype: the
/// secondary where it is the secondary category of the archetype, else
/// the primary where it is the primary category, else what it was.
pub open spec fn choice_by(archetype: Archetype, key: Seq<char>, before: PrimarySecondary) -> PrimarySecondary {
    if names_category(archetype.pch_secondary_category, key) {
        PrimarySecondary::Secondary
    } else if names_category(archetype.pch_primary_category, key) {
        PrimarySecondary::Primary
    } else {
        before
    }
}

/// The choice that the category under `key` is after the first `n` of
/// `archetypes`.
pub open spec fn choice(
    archetypes: Seq<Archetype>,
    key: Seq<char>,
    n: nat,
    before: PrimarySecondary,
) -> PrimarySecondary
    decreases n,
{
    if n == 0 || n > archetypes.len() {
        before
    } else {
        choice_by(archetypes[n - 1], key, choice(archetypes, key, (n - 1) as nat, before))
    }
}

/// Whether `after` is the category `before` with `more` added to its
/// archetypes and `choice` for its choice.
pub open spec fn category_matched(
    before: PowerCategory,
    after: PowerCategory,
    more: Seq<ArchetypeRef>,
    choice: PrimarySecondary,
) -> bool {
    &&& after.archetypes@ == before.archetypes@ + more
    &&& after.pri_sec == choice
    &&& after == (PowerCategory { archetypes: after.archetypes, pri_sec: after.pri_sec, ..before })
}

/// Adds `archetype` to the category, with the choice that it makes of the
/// category, if it makes one.
fn attach_to(category: &mut PowerCategory, archetype: ArchetypeRef, choice: Option<PrimarySecondary>)
    ensures
        category_matched(
            *old(category),
            *final(category),
            seq![archetype],
            match choice {
                Some(c) => c,
                None => old(category).pri_sec,
            },
        ),
{
    category.archetypes.push(archetype);
    match choice {
        Some(c) => {
            category.pri_sec = c;
        },
        None => {},
    }
    assert(category.archetypes@ =~= old(category).archetypes@ + seq![archetype]);
}

/// Adds `archetype` to the category that `name` names, if it names one.
fn attach(
    power_categories: &mut Keyed<PowerCategory>,
    name: Option<&NameKey>,
    archetype: ArchetypeRef,
    choice: Option<PrimarySecondary>,
)
    requires
        old(power_categories).wf(),
    ensures
        final(power_categories).wf(),
        final(power_categories).keys() == old(power_categories).keys(),
        final(power_categories).names() == old(power_categories).names(),
        final(power_categories).values().len() == old(power_categories).values().len(),
        forall|j: int|
            0 <= j < old(power_categories).values().len() ==> category_matched(
                old(power_categories).values()[j],
                #[trigger] final(power_categories).values()[j],
                once_if(
                    name is Some && name->0.norm() == old(power_categories).keys()[j],
                    archetype,
                ),
                if choice is Some && name is Some && name->0.norm() == old(power_categories).keys()[j] {
                    choice->0
                } else {
                    old(power_categories).values()[j].pri_sec
                },
            ),
{
    proof {
        old(power_categories).lemma_wf();
    }
    match find_power_category(power_categories, name) {
        Some(i) => {
            let pcat = power_categories.at_mut(i);
            attach_to(pcat, archetype, choice);
        },
        None => {},
    }
}

/// One matching after another adds the archetypes of both.
proof fn lemma_matched_twice(
    before: PowerCategory,
    middle: PowerCategory,
    after: PowerCategory,
    first: Seq<ArchetypeRef>,
    second: Seq<ArchetypeRef>,
    choice: PrimarySecondary,
)
    requires
        category_matched(before, middle, first, middle.pri_sec),
        category_matched(middle, after, second, choice),
    ensures
        category_matched(before, after, first + second, choice),
{
    assert(after.archetypes@ =~= before.archetypes@ + (first + second));
}

/// Adds one archetype to each category that it belongs to.
fn attach_archetype(
    power_categories: &mut Keyed<PowerCategory>,
    archetype: &Archetype,
    reference: ArchetypeRef,
    globals: &Vec<NameKey>,
)
    requires
        old(power_categories).wf(),
    ensures
        final(power_categories).wf(),
        final(power_categories).keys() == old(power_categories).keys(),
        final(power_categories).names() == old(power_categories).names(),
        final(power_categories).values().len() == old(power_categories).values().len(),
        forall|j: int|
            0 <= j < old(power_categories).values().len() ==> category_matched(
                old(power_categories).values()[j],
                #[trigger] final(power_categories).values()[j],
                attached_by(*archetype, reference, globals.deep_view(), old(power_categories).keys()[j]),
                choice_by(
                    *archetype,
                    old(power_categories).keys()[j],
                    old(power_categories).values()[j].pri_sec,
                ),
            ),
{
    let ghost start = *power_categories;
    let ghost keys = power_categories.keys();
    attach(
        power_categories,
        archetype.pch_primary_category.as_ref(),
        reference,
        Some(PrimarySecondary::Primary),
    );
    let ghost one = *power_categories;
    // theoretically there should only be 1 match per primary/secondary ...
    attach(
        power_categories,
        archetype.pch_secondary_category.as_ref(),
        reference,
        Some(PrimarySecondary::Secondary),
    );
    let ghost two = *power_categories;
    attach(power_categories, archetype.pch_epic_pool_category.as_ref(), reference, None);
    let ghost three = *power_categories;
    attach(power_categories, archetype.pch_power_pool_category.as_ref(), reference, None);
    let ghost four = *power_categories;
    proof {
        assert forall|j: int| 0 <= j < start.values().len() implies category_matched(
            start.values()[j],
            #[trigger] four.values()[j],
            once_if(names_category(archetype.pch_primary_category, keys[j]), reference) + once_if(
                names_category(archetype.pch_secondary_category, keys[j]),
                reference,
            ) + once_if(names_category(archetype.pch_epic_pool_category, keys[j]), reference)
                + once_if(names_category(archetype.pch_power_pool_category, keys[j]), reference),
            choice_by(*archetype, keys[j], start.values()[j].pri_sec),
        ) by {
            let a = once_if(names_category(archetype.pch_primary_category, keys[j]), reference);
            let b = once_if(names_category(archetype.pch_secondary_category, keys[j]), reference);
            let c = once_if(names_category(archetype.pch_epic_pool_category, keys[j]), reference);
            let d = once_if(names_category(archetype.pch_power_pool_category, keys[j]), reference);
            lemma_matched_twice(start.values()[j], one.values()[j], two.values()[j], a, b, two.values()[j].pri_sec);
            lemma_matched_twice(start.values()[j], two.values()[j], three.values()[j], a + b, c, three.values()[j].pri_sec);
            lemma_matched_twice(start.values()[j], three.values()[j], four.values()[j], a + b + c, d, four.values()[j].pri_sec);
        }
    }
    let mut g: usize = 0;
    while g < globals.len()
        invariant
            g <= globals.len(),
            power_categories.wf(),
            keys == start.keys(),
            power_categories.keys() == start.keys(),
            power_categories.names() == start.names(),
            power_categories.values().len() == start.values().len(),
            forall|j: int|
                0 <= j < start.values().len() ==> category_matched(
                    start.values()[j],
                    #[trigger] power_categories.values()[j],
                    once_if(names_category(archetype.pch_primary_category, keys[j]), reference)
                        + once_if(
                        names_category(archetype.pch_secondary_category, keys[j]),
                        reference,
                    ) + once_if(names_category(archetype.pch_epic_pool_category, keys[j]), reference)
                        + once_if(
                        names_category(archetype.pch_power_pool_category, keys[j]),
                        reference,
                    ) + attached_globally(globals.deep_view(), keys[j], reference, g as nat),
                    choice_by(*archetype, keys[j], start.values()[j].pri_sec),
                ),
        decreases globals.len() - g,
    {
        let ghost before = *power_categories;
        attach(power_categories, Some(&globals[g]), reference, None);
        proof {
            assert forall|j: int| 0 <= j < start.values().len() implies category_matched(
                start.values()[j],
                #[trigger] power_categories.values()[j],
                once_if(names_category(archetype.pch_primary_category, keys[j]), reference)
                    + once_if(names_category(archetype.pch_secondary_category, keys[j]), reference)
                    + once_if(names_category(archetype.pch_epic_pool_category, keys[j]), reference)
                    + once_if(names_category(archetype.pch_power_pool_category, keys[j]), reference)
                    + attached_globally(globals.deep_view(), keys[j], reference, (g + 1) as nat),
                choice_by(*archetype, keys[j], start.values()[j].pri_sec),
            ) by {
                let four_ = once_if(names_category(archetype.pch_primary_category, keys[j]), reference)
                    + once_if(names_category(archetype.pch_secondary_category, keys[j]), reference)
                    + once_if(names_category(archetype.pch_epic_pool_category, keys[j]), reference)
                    + once_if(names_category(archetype.pch_power_pool_category, keys[j]), reference);
                let sofar = attached_globally(globals.deep_view(), keys[j], reference, g as nat);
                let one_more = once_if(fold(globals.deep_view()[g as int]) == keys[j], reference);
                lemma_matched_twice(
                    start.values()[j],
                    before.values()[j],
                    power_categories.values()[j],
                    four_ + sofar,
                    one_more,
                    power_categories.values()[j].pri_sec,
                );
                assert(four_ + sofar + one_more =~= four_ + (sofar + one_more));
            }
        }
        g = g + 1;
    }
}

/// Whether `after` are the categories `before` once the archetypes are
/// assigned to them: see `match_archetypes_to_power_categories`.
pub open spec fn archetypes_matched(
    archetypes: &Keyed<Archetype>,
    config: &PowersConfig,
    before: &Keyed<PowerCategory>,
    after: &Keyed<PowerCategory>,
) -> bool {
    &&& after.keys() == before.keys()
    &&& after.names() == before.names()
    &&& after.values().len() == before.values().len()
    &&& forall|j: int|
        0 <= j < before.values().len() ==> category_matched(
            before.values()[j],
            #[trigger] after.values()[j],
            attached(
                archetypes.values(),
                config.global_categories.deep_view(),
                before.keys()[j],
                archetypes.values().len(),
            ),
            choice(
                archetypes.values(),
                before.keys()[j],
                archetypes.values().len(),
                before.values()[j].pri_sec,
            ),
        )
}

/// Assigns the archetypes to the power categories that they belong to:
/// each archetype, in the order of the collection, to its primary, its
/// secondary, its epic pool and its power pool category, and to each of
/// the global categories of the configuration. A category that is the
/// primary or the secondary choice of an archetype is noted as that. A
/// category that is not found is passed over.
pub fn match_archetypes_to_power_categories(
    archetypes: &Keyed<Archetype>,
    config: &PowersConfig,
    power_categories: &mut Keyed<PowerCategory>,
)
    requires
        archetypes.wf(),
        old(power_categories).wf(),
    ensures
        final(power_categories).wf(),
        archetypes_matched(archetypes, config, old(power_categories), final(power_categories)),
{
    let ghost start = *power_categories;
    let ghost globals = config.global_categories.deep_view();
    let n = archetypes.len();
    let mut i: usize = 0;
    while i < n
        invariant
            i <= n,
            n == archetypes.values().len(),
            archetypes.wf(),
            globals == config.global_categories.deep_view(),
            power_categories.wf(),
            power_categories.keys() == start.keys(),
            power_categories.names() == start.names(),
            power_categories.values().len() == start.values().len(),
            forall|j: int|
                0 <= j < start.values().len() ==> category_matched(
                    start.values()[j],
                    #[trigger] power_categories.values()[j],
                    attached(archetypes.values(), globals, start.keys()[j], i as nat),
                    choice(archetypes.values(), start.keys()[j], i as nat, start.values()[j].pri_sec),
                ),
        decreases n - i,
    {
        let ghost before = *power_categories;
        let reference = ArchetypeRef { villain: false, index: i };
        attach_archetype(power_categories, archetypes.at(i), reference, &config.global_categories);
        proof {
            assert forall|j: int| 0 <= j < start.values().len() implies category_matched(
                start.values()[j],
                #[trigger] power_categories.values()[j],
                attached(archetypes.values(), globals, start.keys()[j], (i + 1) as nat),
                choice(
                    archetypes.values(),
                    start.keys()[j],
                    (i + 1) as nat,
                    start.values()[j].pri_sec,
                ),
            ) by {
                let key = start.keys()[j];
                let more = attached_by(archetypes.values()[i as int], reference, globals, key);
                lemma_matched_twice(
                    start.values()[j],
                    before.values()[j],
                    power_categories.values()[j],
                    attached(archetypes.values(), globals, key, i as nat),
                    more,
                    power_categories.values()[j].pri_sec,
                );
            }
        }
        i = i + 1;
    }
}

/// Whether one of the first `n` of `names` is the name under `key`.
pub open spec fn listed(names: Seq<Seq<char>>, key: Seq<char>, n: nat) -> bool
    decreases n,
{
    if n == 0 || n > names.len() {
        false
    } else {
        listed(names, key, (n - 1) as nat) || fold(names[n - 1]) == key
    }
}

/// Whether `names` holds the name `name`, whatever the case of either.
pub fn lists_name(names: &Vec<NameKey>, name: &NameKey) -> (found: bool)
    ensures
        found == listed(names.deep_view(), name.norm(), names@.len()),
{
    let mut i: usize = 0;
    while i < names.len()
        invariant
            i <= names.len(),
            !listed(names.deep_view(), name.norm(), i as nat),
        decreases names.len() - i,
    {
        if names[i] == *name {
            proof {
                lemma_listed_stays(names.deep_view(), name.norm(), (i + 1) as nat, names@.len());
            }
            return true;
        }
        i = i + 1;
    }
    false
}

/// A name that is among the first `i` names is among any greater number
/// of them.
pub proof fn lemma_listed_stays(names: Seq<Seq<char>>, key: Seq<char>, i: nat, n: nat)
    requires
        i <= n <= names.len(),
        listed(names, key, i),
    ensures
        listed(names, key, n),
    decreases n,
{
    if i < n {
        lemma_listed_stays(names, key, i, (n - 1) as nat);
    }
}

/// Notes the category as one of the top level.
fn set_top_level(category: &mut PowerCategory)
    ensures
        *final(category) == (PowerCategory { top_level: true, ..*old(category) }),
{
    category.top_level = true;
}

/// Whether one of the first `n` of `categories` stands at the top level.
pub open spec fn any_top_level(categories: Seq<PowerCategory>, n: nat) -> bool
    decreases n,
{
    if n == 0 || n > categories.len() {
        false
    } else {
        any_top_level(categories, (n - 1) as nat) || categories[n - 1].top_level
    }
}

/// Whether `after` are the categories `before` once those of the top
/// level are flagged: see `flag_top_level`.
pub open spec fn top_level_flagged(
    config: &PowersConfig,
    before: &Keyed<PowerCategory>,
    after: &Keyed<PowerCategory>,
) -> bool {
    &&& after.keys() == before.keys()
    &&& after.names() == before.names()
    &&& after.values().len() == before.values().len()
    &&& forall|j: int|
        0 <= j < before.values().len() ==> #[trigger] after.values()[j] == (PowerCategory {
            top_level: before.values()[j].top_level || config.power_categories@.len() == 0
                || listed(
                config.power_categories.deep_view(),
                before.keys()[j],
                config.power_categories@.len(),
            ),
            ..before.values()[j]
        })
}

/// Flags the categories of the top level: those that the configuration
/// lists, or all where it lists none. Returns whether there is anything
/// to work on: false where the configuration lists categories and no
/// category stands at the top level.
pub fn flag_top_level(config: &PowersConfig, power_categories: &mut Keyed<PowerCategory>) -> (proceed:
    bool)
    requires
        old(power_categories).wf(),
    ensures
        final(power_categories).wf(),
        top_level_flagged(config, old(power_categories), final(power_categories)),
        proceed == (config.power_categories@.len() == 0 || any_top_level(
            final(power_categories).values(),
            final(power_categories).values().len(),
        )),
{
    let ghost start = *power_categories;
    let n = power_categories.len();
    let every = config.power_categories.len() == 0;
    let mut found = false;
    let mut j: usize = 0;
    while j < n
        invariant
            j <= n,
            n == start.values().len(),
            every == (config.power_categories@.len() == 0),
            power_categories.wf(),
            power_categories.keys() == start.keys(),
            power_categories.names() == start.names(),
            power_categories.values().len() == n,
            forall|k: int|
                0 <= k < j ==> #[trigger] power_categories.values()[k] == (PowerCategory {
                    top_level: start.values()[k].top_level || every || listed(
                        config.power_categories.deep_view(),
                        start.keys()[k],
                        config.power_categories@.len(),
                    ),
                    ..start.values()[k]
                }),
            forall|k: int| j <= k < n ==> #[trigger] power_categories.values()[k] == start.values()[k],
            found == any_top_level(power_categories.values(), j as nat),
        decreases n - j,
    {
        let ghost before = power_categories.values();
        let flag = every || lists_name(&config.power_categories, power_categories.name_at(j));
        if flag {
            set_top_level(power_categories.at_mut(j));
        }
        if power_categories.at(j).top_level {
            found = true;
        }
        proof {
            lemma_any_top_level_prefix(before, power_categories.values(), j as nat);
        }
        j = j + 1;
    }
    every || found
}

/// Whether one of the first `n` categories stands at the top level does
/// not depend on the categories that follow.
pub proof fn lemma_any_top_level_prefix(a: Seq<PowerCategory>, b: Seq<PowerCategory>, n: nat)
    requires
        n <= a.len(),
        n <= b.len(),
        forall|k: int| 0 <= k < n ==> a[k] == b[k],
    ensures
        any_top_level(a, n) == any_top_level(b, n),
    decreases n,
{
    if n > 0 {
        lemma_any_top_level_prefix(a, b, (n - 1) as nat);
    }
}

/// Whether one of the first `n` power names of the enhancement set is the
/// name under `key`.
pub open spec fn lists_power(boost_set: BoostSet, key: Seq<char>, n: nat) -> bool {
    listed(boost_set.ppch_powers.deep_view(), key, n)
}

/// The list with `text` added, unless it holds it.
pub open spec fn with_once(list: Seq<Seq<char>>, text: Seq<char>) -> Seq<Seq<char>> {
    if list.contains(text) {
        list
    } else {
        list.push(text)
    }
}

/// The groups of enhancement sets that the power under `key` allows after
/// the first `n` of `boost_sets`: to those that it allowed, each set that
/// has a group and lists the power adds its group, once.
pub open spec fn allowed_after(
    base: Seq<Seq<char>>,
    boost_sets: Seq<BoostSet>,
    key: Seq<char>,
    n: nat,
) -> Seq<Seq<char>>
    decreases n,
{
    if n == 0 || n > boost_sets.len() {
        base
    } else if boost_sets[n - 1].pch_group_name is Some && lists_power(
        boost_sets[n - 1],
        key,
        boost_sets[n - 1].ppch_powers@.len(),
    ) {
        with_once(
            allowed_after(base, boost_sets, key, (n - 1) as nat),
            boost_sets[n - 1].pch_group_name->0@,
        )
    } else {
        allowed_after(base, boost_sets, key, (n - 1) as nat)
    }
}

/// Whether `list` holds `text`.
pub fn holds_text(list: &Vec<String>, text: &String) -> (found: bool)
    ensures
        found == list.deep_view().contains(text@),
{
    let mut i: usize = 0;
    while i < list.len()
        invariant
            i <= list.len(),
            forall|j: int| 0 <= j < i ==> list.deep_view()[j] != text@,
        decreases list.len() - i,
    {
        assert(list.deep_view()[i as int] == list@[i as int]@);
        if list[i] == *text {
            return true;
        }
        i = i + 1;
    }
    false
}

/// Whether `after` is the power `before` with `groups` for the groups of
/// enhancement sets that it allows.
pub open spec fn power_allows(before: BasePower, after: BasePower, groups: Seq<Seq<char>>) -> bool {
    &&& after.enhancement_set_categories_allowed.deep_view() == groups
    &&& after == (BasePower {
        enhancement_set_categories_allowed: after.enhancement_set_categories_allowed,
        ..before
    })
}

/// Adds `group` to the groups of enhancement sets that the power allows,
/// unless it is among them.
fn allow(power: &mut BasePower, group: &String)
    ensures
        power_allows(
            *old(power),
            *final(power),
            with_once(old(power).enhancement_set_categories_allowed.deep_view(), group@),
        ),
{
    if !holds_text(&power.enhancement_set_categories_allowed, group) {
        let ghost before = power.enhancement_set_categories_allowed.deep_view();
        power.enhancement_set_categories_allowed.push(group.clone());
        assert(power.enhancement_set_categories_allowed.deep_view() =~= before.push(group@));
    }
}

/// Adds the group of one enhancement set to each power that the set
/// lists.
fn allow_set(boost_set: &BoostSet, group: &String, powers: &mut Keyed<BasePower>)
    requires
        old(powers).wf(),
        boost_set.pch_group_name is Some,
        boost_set.pch_group_name->0@ == group@,
    ensures
        final(powers).wf(),
        final(powers).keys() == old(powers).keys(),
        final(powers).names() == old(powers).names(),
        final(powers).values().len() == old(powers).values().len(),
        forall|j: int|
            0 <= j < old(powers).values().len() ==> power_allows(
                old(powers).values()[j],
                #[trigger] final(powers).values()[j],
                if lists_power(*boost_set, old(powers).keys()[j], boost_set.ppch_powers@.len()) {
                    with_once(
                        old(powers).values()[j].enhancement_set_categories_allowed.deep_view(),
                        group@,
                    )
                } else {
                    old(powers).values()[j].enhancement_set_categories_allowed.deep_view()
                },
            ),
{
    let ghost start = *powers;
    proof {
        start.lemma_wf();
    }
    let mut k: usize = 0;
    while k < boost_set.ppch_powers.len()
        invariant
            k <= boost_set.ppch_powers.len(),
            powers.wf(),
            powers.keys() == start.keys(),
            powers.names() == start.names(),
            powers.values().len() == start.values().len(),
            start.keys().len() == start.values().len(),
            forall|a: int, b: int|
                0 <= a < start.keys().len() && 0 <= b < start.keys().len() && start.keys()[a]
                    == start.keys()[b] ==> a == b,
            forall|j: int|
                0 <= j < start.values().len() ==> power_allows(
                    start.values()[j],
                    #[trigger] powers.values()[j],
                    if lists_power(*boost_set, start.keys()[j], k as nat) {
                        with_once(
                            start.values()[j].enhancement_set_categories_allowed.deep_view(),
                            group@,
                        )
                    } else {
                        start.values()[j].enhancement_set_categories_allowed.deep_view()
                    },
                ),
        decreases boost_set.ppch_powers.len() - k,
    {
        let found = powers.find(&boost_set.ppch_powers[k]);
        match found {
            Some(i) => {
                allow(powers.at_mut(i), group);
            },
            None => {},
        }
        proof {
            assert forall|j: int| 0 <= j < start.values().len() implies power_allows(
                start.values()[j],
                #[trigger] powers.values()[j],
                if lists_power(*boost_set, start.keys()[j], (k + 1) as nat) {
                    with_once(
                        start.values()[j].enhancement_set_categories_allowed.deep_view(),
                        group@,
                    )
                } else {
                    start.values()[j].enhancement_set_categories_allowed.deep_view()
                },
            ) by {
                let base = start.values()[j].enhancement_set_categories_allowed.deep_view();
                assert(base.push(group@)[base.len() as int] == group@);
            }
        }
        k = k + 1;
    }
}

/// Whether `after` are the powers `before` once the groups of the
/// enhancement sets are assigned to them: see
/// `match_enh_categories_to_powers`.
pub open spec fn enh_categories_matched(
    boost_sets: &Keyed<BoostSet>,
    before: &Keyed<BasePower>,
    after: &Keyed<BasePower>,
) -> bool {
    &&& after.keys() == before.keys()
    &&& after.names() == before.names()
    &&& after.values().len() == before.values().len()
    &&& forall|j: int|
        0 <= j < before.values().len() ==> power_allows(
            before.values()[j],
            #[trigger] after.values()[j],
            allowed_after(
                before.values()[j].enhancement_set_categories_allowed.deep_view(),
                boost_sets.values(),
                before.keys()[j],
                boost_sets.values().len(),
            ),
        )
}

/// Assigns the groups of the enhancement sets to the powers: each set
/// that has a group adds it to the groups that each power that it lists
/// allows, once. A power that is not found is passed over.
pub fn match_enh_categories_to_powers(boost_sets: &Keyed<BoostSet>, powers: &mut Keyed<BasePower>)
    requires
        boost_sets.wf(),
        old(powers).wf(),
    ensures
        final(powers).wf(),
        enh_categories_matched(boost_sets, old(powers), final(powers)),
{
    let ghost start = *powers;
    let n = boost_sets.len();
    let mut b: usize = 0;
    while b < n
        invariant
            b <= n,
            n == boost_sets.values().len(),
            boost_sets.wf(),
            powers.wf(),
            powers.keys() == start.keys(),
            powers.names() == start.names(),
            powers.values().len() == start.values().len(),
            forall|j: int|
                0 <= j < start.values().len() ==> power_allows(
                    start.values()[j],
                    #[trigger] powers.values()[j],
                    allowed_after(
                        start.values()[j].enhancement_set_categories_allowed.deep_view(),
                        boost_sets.values(),
                        start.keys()[j],
                        b as nat,
                    ),
                ),
        decreases n - b,
    {
        let boost_set = boost_sets.at(b);
        match &boost_set.pch_group_name {
            Some(category_name) => {
                allow_set(boost_set, category_name, powers);
            },
            None => {},
        }
        b = b + 1;
    }
}

/// Whether the name under `key` holds one of the first `n` of `filters`,
/// whatever the case of either.
pub open spec fn excluded(key: Seq<char>, filters: Seq<Seq<char>>, n: nat) -> bool
    decreases n,
{
    if n == 0 || n > filters.len() {
        false
    } else {
        excluded(key, filters, (n - 1) as nat) || occurs(key, fold(filters[n - 1]))
    }
}

/// Which of the names under `keys` hold none of `filters`.
pub open spec fn passing(keys: Seq<Seq<char>>, filters: Seq<Seq<char>>) -> Seq<bool> {
    Seq::new(keys.len(), |j: int| !excluded(keys[j], filters, filters.len()))
}

/// Leaves out the power sets whose name holds one of `filters`, whatever
/// the case of either. The positions of the power sets that stay change.
pub fn filter_power_sets(power_sets: Keyed<BasePowerSet>, filters: &Vec<NameKey>) -> (kept: Keyed<
    BasePowerSet,
>)
    requires
        power_sets.wf(),
    ensures
        kept.wf(),
        kept@ == power_sets@.kept(
            passing(power_sets.keys(), filters.deep_view()),
            power_sets.keys().len(),
        ),
{
    let n = power_sets.len();
    let mut keep: Vec<bool> = Vec::new();
    let mut j: usize = 0;
    while j < n
        invariant
            j <= n,
            n == power_sets.keys().len(),
            n == power_sets.values().len(),
            power_sets.wf(),
            keep@ == passing(power_sets.keys(), filters.deep_view()).take(j as int),
        decreases n - j,
    {
        let name = power_sets.name_at(j);
        let mut found = false;
        let mut f: usize = 0;
        while f < filters.len()
            invariant
                f <= filters.len(),
                name.norm() == power_sets.keys()[j as int],
                found == excluded(power_sets.keys()[j as int], filters.deep_view(), f as nat),
            decreases filters.len() - f,
        {
            if name.partial_match(filters[f].get()) {
                found = true;
            }
            f = f + 1;
        }
        keep.push(!found);
        j = j + 1;
    }
    assert(keep@ =~= passing(power_sets.keys(), filters.deep_view()));
    power_sets.retain(&keep)
}

/// The positions, among the entities under `keys`, of those of the first
/// `n` of `names` that are found there, in the order of the names.
pub open spec fn positions_of(keys: Seq<Seq<char>>, names: Seq<Seq<char>>, n: nat) -> Seq<usize>
    decreases n,
{
    if n == 0 || n > names.len() {
        Seq::empty()
    } else {
        match position_in(keys, fold(names[n - 1])) {
            Some(i) => positions_of(keys, names, (n - 1) as nat).push(i as usize),
            None => positions_of(keys, names, (n - 1) as nat),
        }
    }
}

/// The positions of names that are found are positions of entities.
pub proof fn lemma_positions_valid(keys: Seq<Seq<char>>, names: Seq<Seq<char>>, n: nat)
    requires
        keys.len() <= usize::MAX,
    ensures
        forall|k: int|
            0 <= k < positions_of(keys, names, n).len() ==> #[trigger] positions_of(
                keys,
                names,
                n,
            )[k] < keys.len(),
    decreases n,
{
    if n > 0 && n <= names.len() {
        lemma_positions_valid(keys, names, (n - 1) as nat);
        let before = positions_of(keys, names, (n - 1) as nat);
        let found = position_in(keys, fold(names[n - 1]));
        assert(found is Some ==> positions_of(keys, names, n) == before.push(found->0 as usize));
    }
}

/// The positions in `table` of the entities that `names` name.
pub fn find_all<T>(table: &Keyed<T>, names: &Vec<NameKey>) -> (places: Vec<usize>)
    requires
        table.wf(),
    ensures
        places@ == positions_of(table.keys(), names.deep_view(), names@.len()),
        forall|k: int| 0 <= k < places@.len() ==> #[trigger] places@[k] < table.values().len(),
{
    let mut places: Vec<usize> = Vec::new();
    let mut i: usize = 0;
    while i < names.len()
        invariant
            i <= names.len(),
            table.wf(),
            places@ == positions_of(table.keys(), names.deep_view(), i as nat),
            forall|k: int| 0 <= k < places@.len() ==> #[trigger] places@[k] < table.values().len(),
        decreases names.len() - i,
    {
        match table.find(&names[i]) {
            Some(place) => {
                places.push(place);
            },
            None => {},
        }
        i = i + 1;
    }
    places
}

/// Whether `after` is the power set `before` with `places` for the
/// positions of its powers.
pub open spec fn set_linked(before: BasePowerSet, after: BasePowerSet, places: Seq<usize>) -> bool {
    &&& after.pp_powers@ == places
    &&& after == (BasePowerSet { pp_powers: after.pp_powers, ..before })
}

/// Whether `after` is the category `before` with `places` for the
/// positions of its power sets.
pub open spec fn category_linked(before: PowerCategory, after: PowerCategory, places: Seq<usize>) -> bool {
    &&& after.pp_power_sets@ == places
    &&& after == (PowerCategory { pp_power_sets: after.pp_power_sets, ..before })
}

/// Gives the power set `places` for the positions of its powers.
fn add_powers(power_set: &mut BasePowerSet, places: Vec<usize>)
    ensures
        set_linked(*old(power_set), *final(power_set), places@),
{
    power_set.pp_powers = places;
}

/// Gives the category `places` for the positions of its power sets.
fn add_power_sets(category: &mut PowerCategory, places: Vec<usize>)
    ensures
        category_linked(*old(category), *final(category), places@),
{
    category.pp_power_sets = places;
}

/// Whether `after` are the power sets `before` once each has the
/// positions of its powers: see `link_powers`.
pub open spec fn powers_linked(
    powers: &Keyed<BasePower>,
    before: &Keyed<BasePowerSet>,
    after: &Keyed<BasePowerSet>,
) -> bool {
    &&& after.keys() == before.keys()
    &&& after.names() == before.names()
    &&& after.values().len() == before.values().len()
    &&& forall|j: int|
        0 <= j < before.values().len() ==> set_linked(
            before.values()[j],
            #[trigger] after.values()[j],
            positions_of(
                powers.keys(),
                before.values()[j].pp_power_names.deep_view(),
                before.values()[j].pp_power_names@.len(),
            ),
        )
}

/// Gives each power set the positions of its powers: of those that it
/// names and that are found among `powers`, in the order of the names.
pub fn link_powers(power_sets: &mut Keyed<BasePowerSet>, powers: &Keyed<BasePower>)
    requires
        old(power_sets).wf(),
        powers.wf(),
    ensures
        final(power_sets).wf(),
        powers_linked(powers, old(power_sets), final(power_sets)),
{
    let ghost start = *power_sets;
    let n = power_sets.len();
    let mut j: usize = 0;
    while j < n
        invariant
            j <= n,
            n == start.values().len(),
            powers.wf(),
            power_sets.wf(),
            power_sets.keys() == start.keys(),
            power_sets.names() == start.names(),
            power_sets.values().len() == n,
            forall|k: int|
                0 <= k < j ==> set_linked(
                    start.values()[k],
                    #[trigger] power_sets.values()[k],
                    positions_of(
                        powers.keys(),
                        start.values()[k].pp_power_names.deep_view(),
                        start.values()[k].pp_power_names@.len(),
                    ),
                ),
            forall|k: int| j <= k < n ==> #[trigger] power_sets.values()[k] == start.values()[k],
        decreases n - j,
    {
        let places = find_all(powers, &power_sets.at(j).pp_power_names);
        add_powers(power_sets.at_mut(j), places);
        j = j + 1;
    }
}

/// Whether `after` are the categories `before` once each has the
/// positions of its power sets: see `link_power_sets`.
pub open spec fn power_sets_linked(
    power_sets: &Keyed<BasePowerSet>,
    before: &Keyed<PowerCategory>,
    after: &Keyed<PowerCategory>,
) -> bool {
    &&& after.keys() == before.keys()
    &&& after.names() == before.names()
    &&& after.values().len() == before.values().len()
    &&& forall|j: int|
        0 <= j < before.values().len() ==> category_linked(
            before.values()[j],
            #[trigger] after.values()[j],
            positions_of(
                power_sets.keys(),
                before.values()[j].ppch_power_set_names.deep_view(),
                before.values()[j].ppch_power_set_names@.len(),
            ),
        )
}

/// Gives each category the positions of its power sets: of those that it
/// names and that are found among `power_sets`, in the order of the
/// names.
pub fn link_power_sets(power_categories: &mut Keyed<PowerCategory>, power_sets: &Keyed<BasePowerSet>)
    requires
        old(power_categories).wf(),
        power_sets.wf(),
    ensures
        final(power_categories).wf(),
        power_sets_linked(power_sets, old(power_categories), final(power_categories)),
{
    let ghost start = *power_categories;
    let n = power_categories.len();
    let mut j: usize = 0;
    while j < n
        invariant
            j <= n,
            n == start.values().len(),
            power_sets.wf(),
            power_categories.wf(),
            power_categories.keys() == start.keys(),
            power_categories.names() == start.names(),
            power_categories.values().len() == n,
            forall|k: int|
                0 <= k < j ==> category_linked(
                    start.values()[k],
                    #[trigger] power_categories.values()[k],
                    positions_of(
                        power_sets.keys(),
                        start.values()[k].ppch_power_set_names.deep_view(),
                        start.values()[k].ppch_power_set_names@.len(),
                    ),
                ),
            forall|k: int| j <= k < n ==> #[trigger] power_categories.values()[k] == start.values()[k],
        decreases n - j,
    {
        let places = find_all(power_sets, &power_categories.at(j).ppch_power_set_names);
        add_power_sets(power_categories.at_mut(j), places);
        j = j + 1;
    }
}

} // verus!
