//! The closure: the passes over the powers are repeated until a pass
//! finds nothing left to resolve.

use super::cascade::{cascade, lemma_cascade_pass};
use super::entities::{
    entities_resolved, entity_marks, entity_pending, group_marks, group_pending, group_resolved,
    groups_marks, groups_pending, groups_resolved, names_of, pending, power_resolved,
    resolve_entity_defs_and_power_grants, template_resolved, templates_marks, templates_pending,
    Names,
};
use super::marks::{clipped, one_more, power_marked, MarkView};
use super::redirects::{
    due, due_count, redirect_marks, redirects_followed, resolve_power_redirects,
    with_redirects_resolved,
};
use crate::structs::archetype::Archetype;
use crate::structs::keyed::Keyed;
use crate::structs::powers::{
    AttribModTemplate, BasePower, BasePowerSet, EffectGroup, PowerCategory,
};
use crate::structs::villains::VillainDef;
use crate::structs::ArchetypeRef;
use vstd::prelude::*;

verus! {

/// Whether nothing is left to resolve: no power that is included holds a
/// parameter block that is still to resolve, and the redirects of every
/// power that is included have been followed.
pub open spec fn settled(powers: Seq<BasePower>) -> bool {
    entity_pending(powers, powers.len()) == 0 && due_count(powers, powers.len()) == 0
}

/// What is left to resolve in one power, included or not: its parameter
/// blocks that are still to resolve, and its redirects unless they have
/// been followed.
pub open spec fn work(power: BasePower) -> nat {
    groups_pending(power.pp_effects@, power.pp_effects@.len()) + if power.redirects_resolved {
        0nat
    } else {
        1nat
    }
}

/// What is left to resolve in the first `n` of `powers`.
pub open spec fn open_work(powers: Seq<BasePower>, n: nat) -> nat
    decreases n,
{
    if n == 0 || n > powers.len() {
        0
    } else {
        open_work(powers, (n - 1) as nat) + work(powers[n - 1])
    }
}

/// A template whose parameter block was resolved has none that is still
/// to resolve.
proof fn lemma_template_quiet(before: AttribModTemplate, after: AttribModTemplate, names: Names)
    requires
        template_resolved(before, after, names),
    ensures
        !pending(after),
{
}

/// Templates whose parameter blocks were resolved have none that is still
/// to resolve.
proof fn lemma_templates_quiet(
    before: Seq<AttribModTemplate>,
    after: Seq<AttribModTemplate>,
    names: Names,
    n: nat,
)
    requires
        after.len() == before.len(),
        n <= after.len(),
        forall|i: int| 0 <= i < before.len() ==> template_resolved(before[i], #[trigger] after[i], names),
    ensures
        templates_pending(after, n) == 0,
    decreases n,
{
    if n > 0 {
        lemma_templates_quiet(before, after, names, (n - 1) as nat);
        lemma_template_quiet(before[n - 1], after[n - 1], names);
    }
}

/// A group whose parameter blocks were resolved has none that is still to
/// resolve.
proof fn lemma_group_quiet(before: EffectGroup, after: EffectGroup, names: Names, n: nat)
    requires
        group_resolved(before, after, names),
        n <= after.pp_effects@.len(),
    ensures
        group_pending(after, n) == 0,
    decreases before, n,
{
    if n == 0 {
        lemma_templates_quiet(
            before.pp_templates@,
            after.pp_templates@,
            names,
            after.pp_templates@.len(),
        );
    } else {
        lemma_group_quiet(before, after, names, (n - 1) as nat);
        lemma_group_quiet(
            before.pp_effects@[n - 1],
            after.pp_effects@[n - 1],
            names,
            after.pp_effects@[n - 1].pp_effects@.len(),
        );
    }
}

/// Groups whose parameter blocks were resolved have none that is still to
/// resolve.
proof fn lemma_groups_quiet(before: Seq<EffectGroup>, after: Seq<EffectGroup>, names: Names, n: nat)
    requires
        groups_resolved(before, after, names),
        n <= after.len(),
    ensures
        groups_pending(after, n) == 0,
    decreases n,
{
    if n > 0 {
        lemma_groups_quiet(before, after, names, (n - 1) as nat);
        lemma_group_quiet(before[n - 1], after[n - 1], names, after[n - 1].pp_effects@.len());
    }
}

/// Templates with no parameter block that is still to resolve give no
/// marks.
proof fn lemma_templates_idle(
    templates: Seq<AttribModTemplate>,
    archetypes: Seq<ArchetypeRef>,
    names: Names,
    n: nat,
)
    requires
        templates_pending(templates, n) == 0,
    ensures
        templates_marks(templates, archetypes, names, n) == Seq::<MarkView>::empty(),
    decreases n,
{
    if n > 0 && n <= templates.len() {
        lemma_templates_idle(templates, archetypes, names, (n - 1) as nat);
    }
}

/// A group with no parameter block that is still to resolve gives no
/// marks.
proof fn lemma_group_idle(group: EffectGroup, archetypes: Seq<ArchetypeRef>, names: Names, n: nat)
    requires
        group_pending(group, n) == 0,
    ensures
        group_marks(group, archetypes, names, n) == Seq::<MarkView>::empty(),
    decreases group, n,
{
    if n == 0 || n > group.pp_effects@.len() {
        lemma_templates_idle(group.pp_templates@, archetypes, names, group.pp_templates@.len());
    } else {
        lemma_group_idle(group, archetypes, names, (n - 1) as nat);
        lemma_group_idle(
            group.pp_effects@[n - 1],
            archetypes,
            names,
            group.pp_effects@[n - 1].pp_effects@.len(),
        );
    }
}

/// Groups with no parameter block that is still to resolve give no marks.
proof fn lemma_groups_idle(
    groups: Seq<EffectGroup>,
    archetypes: Seq<ArchetypeRef>,
    names: Names,
    n: nat,
)
    requires
        groups_pending(groups, n) == 0,
    ensures
        groups_marks(groups, archetypes, names, n) == Seq::<MarkView>::empty(),
    decreases n,
{
    if n > 0 && n <= groups.len() {
        lemma_groups_idle(groups, archetypes, names, (n - 1) as nat);
        lemma_group_idle(groups[n - 1], archetypes, names, groups[n - 1].pp_effects@.len());
    }
}

/// Powers with no parameter block that is still to resolve give no marks.
proof fn lemma_entities_idle(powers: Seq<BasePower>, names: Names, n: nat)
    requires
        entity_pending(powers, n) == 0,
    ensures
        entity_marks(powers, names, n) == Seq::<MarkView>::empty(),
    decreases n,
{
    if n > 0 && n <= powers.len() {
        lemma_entities_idle(powers, names, (n - 1) as nat);
        if powers[n - 1].include_in_output {
            lemma_groups_idle(
                powers[n - 1].pp_effects@,
                powers[n - 1].archetypes@,
                names,
                powers[n - 1].pp_effects@.len(),
            );
        }
    }
}

/// Where no power has redirects to follow there are no marks of
/// redirects, and no power is due; and the other way round.
proof fn lemma_redirects_idle(powers: Seq<BasePower>, n: nat)
    requires
        n <= powers.len(),
    ensures
        due_count(powers, n) == 0 <==> forall|j: int| 0 <= j < n ==> !due(#[trigger] powers[j]),
        due_count(powers, n) == 0 ==> redirect_marks(powers, n) == Seq::<MarkView>::empty(),
    decreases n,
{
    if n > 0 {
        lemma_redirects_idle(powers, (n - 1) as nat);
    }
}

/// Resolving the parameter blocks of the powers that are included takes
/// as much from what is left to resolve as was pending in them.
proof fn lemma_entities_work(
    before: Seq<BasePower>,
    after: Seq<BasePower>,
    keys: Seq<Seq<char>>,
    marks: Seq<MarkView>,
    names: Names,
    n: nat,
)
    requires
        after.len() == before.len(),
        keys.len() == before.len(),
        n <= before.len(),
        forall|j: int|
            0 <= j < before.len() ==> power_resolved(
                before[j],
                #[trigger] after[j],
                keys[j],
                marks,
                marks.len(),
                names,
            ),
    ensures
        open_work(after, n) + entity_pending(before, n) == open_work(before, n),
    decreases n,
{
    if n > 0 {
        lemma_entities_work(before, after, keys, marks, names, (n - 1) as nat);
        let b = before[n - 1];
        let a = after[n - 1];
        if b.include_in_output {
            lemma_groups_quiet(b.pp_effects@, a.pp_effects@, names, a.pp_effects@.len());
        }
    }
}

/// Following the redirects of the powers that have redirects to follow
/// takes one from what is left to resolve for each of them.
proof fn lemma_redirects_work(
    before: Seq<BasePower>,
    after: Seq<BasePower>,
    keys: Seq<Seq<char>>,
    marks: Seq<MarkView>,
    n: nat,
)
    requires
        after.len() == before.len(),
        keys.len() == before.len(),
        n <= before.len(),
        forall|j: int|
            0 <= j < before.len() ==> power_marked(
                with_redirects_resolved(before[j], due(before[j])),
                #[trigger] after[j],
                keys[j],
                marks,
                marks.len(),
            ),
    ensures
        open_work(after, n) + due_count(before, n) == open_work(before, n),
    decreases n,
{
    reveal(power_marked);
    if n > 0 {
        lemma_redirects_work(before, after, keys, marks, (n - 1) as nat);
        let b = before[n - 1];
        let a = after[n - 1];
    }
}

/// Whether the second three collections are the first three after one
/// pass: first the parameter blocks of the powers are resolved, then the
/// redirects of the powers are followed.
pub open spec fn pass(
    villains: &Keyed<VillainDef>,
    villain_archetypes: &Keyed<Archetype>,
    cats_before: &Keyed<PowerCategory>,
    sets_before: &Keyed<BasePowerSet>,
    powers_before: &Keyed<BasePower>,
    cats_between: &Keyed<PowerCategory>,
    sets_between: &Keyed<BasePowerSet>,
    powers_between: &Keyed<BasePower>,
    cats_after: &Keyed<PowerCategory>,
    sets_after: &Keyed<BasePowerSet>,
    powers_after: &Keyed<BasePower>,
) -> bool {
    &&& entities_resolved(
        villains,
        villain_archetypes,
        cats_before,
        sets_before,
        powers_before,
        cats_between,
        sets_between,
        powers_between,
    )
    &&& redirects_followed(
        cats_between,
        sets_between,
        powers_between,
        cats_after,
        sets_after,
        powers_after,
    )
}

/// Whether a pass from the first three collections over the second three
/// resolves nothing.
pub open spec fn idle(powers_before: &Keyed<BasePower>, powers_between: &Keyed<BasePower>) -> bool {
    &&& entity_pending(powers_before.values(), powers_before.values().len()) == 0
    &&& due_count(powers_between.values(), powers_between.values().len()) == 0
}

/// Whether `n` passes, each of which resolves something, lead from the
/// first three collections to the second three.
pub open spec fn led(
    villains: &Keyed<VillainDef>,
    villain_archetypes: &Keyed<Archetype>,
    cats_first: &Keyed<PowerCategory>,
    sets_first: &Keyed<BasePowerSet>,
    powers_first: &Keyed<BasePower>,
    cats_last: &Keyed<PowerCategory>,
    sets_last: &Keyed<BasePowerSet>,
    powers_last: &Keyed<BasePower>,
    n: nat,
) -> bool
    decreases n,
{
    if n == 0 {
        *cats_last == *cats_first && *sets_last == *sets_first && *powers_last == *powers_first
    } else {
        exists|
            cats: Keyed<PowerCategory>,
            sets: Keyed<BasePowerSet>,
            powers: Keyed<BasePower>,
            cats_between: Keyed<PowerCategory>,
            sets_between: Keyed<BasePowerSet>,
            powers_between: Keyed<BasePower>,
        |
            #![trigger pass(villains, villain_archetypes, &cats, &sets, &powers, &cats_between, &sets_between, &powers_between, cats_last, sets_last, powers_last)]
            led(
                villains,
                villain_archetypes,
                cats_first,
                sets_first,
                powers_first,
                &cats,
                &sets,
                &powers,
                (n - 1) as nat,
            ) && pass(
                villains,
                villain_archetypes,
                &cats,
                &sets,
                &powers,
                &cats_between,
                &sets_between,
                &powers_between,
                cats_last,
                sets_last,
                powers_last,
            ) && !idle(&powers, &powers_between)
    }
}

/// Whether the three collections are what a run of the passes makes of
/// the first three: passes that resolve something, `productive` of them,
/// and then one pass that resolves nothing.
pub open spec fn closed(
    villains: &Keyed<VillainDef>,
    villain_archetypes: &Keyed<Archetype>,
    cats_first: &Keyed<PowerCategory>,
    sets_first: &Keyed<BasePowerSet>,
    powers_first: &Keyed<BasePower>,
    cats_last: &Keyed<PowerCategory>,
    sets_last: &Keyed<BasePowerSet>,
    powers_last: &Keyed<BasePower>,
    productive: nat,
) -> bool {
    exists|
        cats: Keyed<PowerCategory>,
        sets: Keyed<BasePowerSet>,
        powers: Keyed<BasePower>,
        cats_between: Keyed<PowerCategory>,
        sets_between: Keyed<BasePowerSet>,
        powers_between: Keyed<BasePower>,
    |
        #![trigger pass(villains, villain_archetypes, &cats, &sets, &powers, &cats_between, &sets_between, &powers_between, cats_last, sets_last, powers_last)]
        led(
            villains,
            villain_archetypes,
            cats_first,
            sets_first,
            powers_first,
            &cats,
            &sets,
            &powers,
            productive,
        ) && pass(
            villains,
            villain_archetypes,
            &cats,
            &sets,
            &powers,
            &cats_between,
            &sets_between,
            &powers_between,
            cats_last,
            sets_last,
            powers_last,
        ) && idle(&powers, &powers_between)
}

/// Whether the marks of inclusion are the same in the second three
/// collections as in the first three.
pub open spec fn marks_kept(
    cats_before: &Keyed<PowerCategory>,
    sets_before: &Keyed<BasePowerSet>,
    powers_before: &Keyed<BasePower>,
    cats_after: &Keyed<PowerCategory>,
    sets_after: &Keyed<BasePowerSet>,
    powers_after: &Keyed<BasePower>,
) -> bool {
    &&& cats_after.values() == cats_before.values()
    &&& sets_after.values() == sets_before.values()
    &&& powers_after.values().len() == powers_before.values().len()
    &&& forall|j: int|
        0 <= j < powers_before.values().len() ==> {
            &&& (#[trigger] powers_after.values()[j]).include_in_output
                == powers_before.values()[j].include_in_output
            &&& powers_after.values()[j].archetypes@ == powers_before.values()[j].archetypes@
            &&& powers_after.values()[j].redirects_resolved
                == powers_before.values()[j].redirects_resolved
        }
}

/// A pass that resolves nothing marks nothing, and leaves nothing to
/// resolve. And where nothing is left to resolve, a pass resolves
/// nothing.
pub proof fn lemma_idle_pass(
    villains: &Keyed<VillainDef>,
    villain_archetypes: &Keyed<Archetype>,
    cats_before: &Keyed<PowerCategory>,
    sets_before: &Keyed<BasePowerSet>,
    powers_before: &Keyed<BasePower>,
    cats_between: &Keyed<PowerCategory>,
    sets_between: &Keyed<BasePowerSet>,
    powers_between: &Keyed<BasePower>,
    cats_after: &Keyed<PowerCategory>,
    sets_after: &Keyed<BasePowerSet>,
    powers_after: &Keyed<BasePower>,
)
    requires
        cats_before.wf(),
        sets_before.wf(),
        powers_before.wf(),
        pass(
            villains,
            villain_archetypes,
            cats_before,
            sets_before,
            powers_before,
            cats_between,
            sets_between,
            powers_between,
            cats_after,
            sets_after,
            powers_after,
        ),
    ensures
        settled(powers_before.values()) ==> idle(powers_before, powers_between),
        idle(powers_before, powers_between) ==> settled(powers_after.values()) && marks_kept(
            cats_before,
            sets_before,
            powers_before,
            cats_after,
            sets_after,
            powers_after,
        ),
{
    reveal(power_marked);
    let n = powers_before.values().len();
    let names = names_of(villains, villain_archetypes, sets_before, powers_before);
    let first = entity_marks(powers_before.values(), names, n);
    let second = redirect_marks(powers_between.values(), n);
    cats_before.lemma_wf();
    sets_before.lemma_wf();
    powers_before.lemma_wf();
    lemma_redirects_idle(powers_before.values(), n);
    lemma_redirects_idle(powers_between.values(), n);
    lemma_redirects_idle(powers_after.values(), n);
    if entity_pending(powers_before.values(), n) == 0 {
        lemma_entities_idle(powers_before.values(), names, n);
        assert(cats_between.values() =~= cats_before.values());
        assert(sets_between.values() =~= sets_before.values());
        if due_count(powers_between.values(), n) == 0 {
            assert(cats_after.values() =~= cats_between.values());
            assert(sets_after.values() =~= sets_between.values());
            assert forall|j: int| 0 <= j < n implies {
                &&& (#[trigger] powers_after.values()[j]).include_in_output
                    == powers_before.values()[j].include_in_output
                &&& powers_after.values()[j].archetypes@ == powers_before.values()[j].archetypes@
                &&& powers_after.values()[j].redirects_resolved
                    == powers_before.values()[j].redirects_resolved
                &&& !due(powers_after.values()[j])
                &&& powers_after.values()[j].include_in_output ==> groups_pending(
                    powers_after.values()[j].pp_effects@,
                    powers_after.values()[j].pp_effects@.len(),
                ) == 0
            } by {
                let b = powers_before.values()[j];
                let m = powers_between.values()[j];
                let a = powers_after.values()[j];
                if b.include_in_output {
                    lemma_groups_quiet(b.pp_effects@, m.pp_effects@, names, m.pp_effects@.len());
                }
            }
            lemma_none_pending(powers_after.values(), n);
        }
    }
}

/// Where no power that is included holds a parameter block that is still
/// to resolve, none is pending.
proof fn lemma_none_pending(powers: Seq<BasePower>, n: nat)
    requires
        n <= powers.len(),
        forall|j: int|
            0 <= j < n && (#[trigger] powers[j]).include_in_output ==> groups_pending(
                powers[j].pp_effects@,
                powers[j].pp_effects@.len(),
            ) == 0,
    ensures
        entity_pending(powers, n) == 0,
    decreases n,
{
    if n > 0 {
        lemma_none_pending(powers, (n - 1) as nat);
    }
}

/// Resolves what the included powers refer to, pass by pass, until a pass
/// finds nothing left to resolve. A pass first resolves the parameter
/// blocks that create entities or grant powers, see
/// `resolve_entity_defs_and_power_grants`, and then follows the redirects
/// of powers, see `resolve_power_redirects`. What a pass includes is
/// looked at by the next pass. Returns the number of passes: one more
/// than the passes that resolved something.
pub fn resolve_references(
    villains: &Keyed<VillainDef>,
    villain_archetypes: &Keyed<Archetype>,
    power_cats: &mut Keyed<PowerCategory>,
    power_sets: &mut Keyed<BasePowerSet>,
    powers: &mut Keyed<BasePower>,
) -> (passes: usize)
    requires
        villains.wf(),
        villain_archetypes.wf(),
        old(power_cats).wf(),
        old(power_sets).wf(),
        old(powers).wf(),
    ensures
        final(power_cats).wf(),
        final(power_sets).wf(),
        final(powers).wf(),
        settled(final(powers).values()),
        exists|productive: nat|
            passes == clipped(productive + 1) && #[trigger] closed(
                villains,
                villain_archetypes,
                old(power_cats),
                old(power_sets),
                old(powers),
                final(power_cats),
                final(power_sets),
                final(powers),
                productive,
            ),
        settled(old(powers).values()) ==> passes == 1 && marks_kept(
            old(power_cats),
            old(power_sets),
            old(powers),
            final(power_cats),
            final(power_sets),
            final(powers),
        ),
        cascade(old(power_cats), old(power_sets), old(powers)) ==> cascade(
            final(power_cats),
            final(power_sets),
            final(powers),
        ),
{
    let mut passes: usize = 0;
    let mut done = false;
    let ghost mut productive: nat = 0;
    while !done
        invariant
            villains.wf(),
            villain_archetypes.wf(),
            power_cats.wf(),
            power_sets.wf(),
            powers.wf(),
            !done ==> passes == clipped(productive) && led(
                villains,
                villain_archetypes,
                old(power_cats),
                old(power_sets),
                old(powers),
                power_cats,
                power_sets,
                powers,
                productive,
            ),
            !done && settled(old(powers).values()) ==> productive == 0,
            done ==> settled(powers.values()) && passes == clipped(productive + 1) && closed(
                villains,
                villain_archetypes,
                old(power_cats),
                old(power_sets),
                old(powers),
                power_cats,
                power_sets,
                powers,
                productive,
            ),
            cascade(old(power_cats), old(power_sets), old(powers)) ==> cascade(
                power_cats,
                power_sets,
                powers,
            ),
            done && settled(old(powers).values()) ==> productive == 0 && marks_kept(
                old(power_cats),
                old(power_sets),
                old(powers),
                power_cats,
                power_sets,
                powers,
            ),
        decreases
                if done {
                    0
                } else {
                    open_work(powers.values(), powers.values().len()) + 1
                },
    {
        let ghost cats_before = *power_cats;
        let ghost sets_before = *power_sets;
        let ghost powers_before = *powers;
        // copy pet entity defs into powers
        let found = resolve_entity_defs_and_power_grants(
            villains,
            villain_archetypes,
            power_cats,
            power_sets,
            powers,
        );
        let ghost cats_between = *power_cats;
        let ghost sets_between = *power_sets;
        let ghost powers_between = *powers;
        // look for redirects and make sure the referenced powers are included
        let followed = resolve_power_redirects(powers, power_cats, power_sets);
        passes = one_more(passes);
        proof {
            let n = powers_before.values().len();
            let names = names_of(villains, villain_archetypes, &sets_before, &powers_before);
            powers_before.lemma_wf();
            powers_between.lemma_wf();
            lemma_entities_work(
                powers_before.values(),
                powers_between.values(),
                powers_before.keys(),
                entity_marks(powers_before.values(), names, n),
                names,
                n,
            );
            lemma_redirects_work(
                powers_between.values(),
                powers.values(),
                powers_between.keys(),
                redirect_marks(powers_between.values(), n),
                n,
            );
            assert(pass(
                villains,
                villain_archetypes,
                &cats_before,
                &sets_before,
                &powers_before,
                &cats_between,
                &sets_between,
                &powers_between,
                power_cats,
                power_sets,
                powers,
            ));
            lemma_idle_pass(
                villains,
                villain_archetypes,
                &cats_before,
                &sets_before,
                &powers_before,
                &cats_between,
                &sets_between,
                &powers_between,
                power_cats,
                power_sets,
                powers,
            );
            if cascade(&cats_before, &sets_before, &powers_before) {
                lemma_cascade_pass(
                    villains,
                    villain_archetypes,
                    &cats_before,
                    &sets_before,
                    &powers_before,
                    &cats_between,
                    &sets_between,
                    &powers_between,
                    power_cats,
                    power_sets,
                    powers,
                );
            }
        }
        if found == 0 && followed == 0 {
            done = true;
        } else {
            proof {
                productive = productive + 1;
            }
        }
    }
    passes
}

} // verus!
