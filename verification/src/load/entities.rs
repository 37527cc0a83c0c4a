//! Entities that powers create, and powers that powers grant: the
//! parameter blocks of attribute modifiers that name further powers.

use super::marks::{
    add_counts, apply_marks, categories_marked, clipped, dotted, marks_for, marks_well_named,
    one_more, power_hit, archetypes_after, clone_refs, power_marked, push_marks, sets_marked,
    Mark, MarkView,
};
use crate::structs::archetype::Archetype;
use crate::structs::keyed::{position_in, Keyed};
use crate::structs::namekey::{fold, separator, wildcard, NameKey};
use crate::structs::params::{AttribModParam, AttribModParam_EntCreate, AttribModParam_Power};
use crate::structs::powers::{
    AttribModTemplate, BasePower, BasePowerSet, EffectGroup, PowerCategory,
};
use crate::structs::villains::{PowerNameRef, VillainDef};
use crate::structs::ArchetypeRef;
use vstd::prelude::*;
use vstd::string::StringExecFns;

verus! {

/// What the resolution of a parameter block looks up: the villains, the
/// keys of the archetypes of villains, the power names of each power set,
/// and the full name of each power.
pub struct Names {
    pub villain_keys: Seq<Seq<char>>,
    pub villains: Seq<VillainDef>,
    pub class_keys: Seq<Seq<char>>,
    pub set_keys: Seq<Seq<char>>,
    pub set_powers: Seq<Seq<Seq<char>>>,
    pub power_keys: Seq<Seq<char>>,
    pub power_names: Seq<Option<Seq<char>>>,
}

/// What the four collections hold of names.
pub open spec fn names_of(
    villains: &Keyed<VillainDef>,
    villain_archetypes: &Keyed<Archetype>,
    power_sets: &Keyed<BasePowerSet>,
    powers: &Keyed<BasePower>,
) -> Names {
    Names {
        villain_keys: villains.keys(),
        villains: villains.values(),
        class_keys: villain_archetypes.keys(),
        set_keys: power_sets.keys(),
        set_powers: Seq::new(
            power_sets.values().len(),
            |k: int| power_sets.values()[k].pp_power_names.deep_view(),
        ),
        power_keys: powers.keys(),
        power_names: Seq::new(
            powers.values().len(),
            |k: int| powers.values()[k].pch_full_name.deep_view(),
        ),
    }
}

/// The names of the powers that one power reference of a villain stands
/// for. A reference with a wildcard for the power stands for all power
/// names of the power set; any other for the full name of the power that
/// is found under category, power set and power. A reference that lacks a
/// part, and one whose power set or power is not found, stands for none.
pub open spec fn refs_of(reference: PowerNameRef, names: Names) -> Seq<Seq<char>> {
    if reference.power_category is Some && reference.power_set is Some && reference.power is Some {
        let category = reference.power_category->0@;
        let set = reference.power_set->0@;
        let power = reference.power->0@;
        if power == wildcard() {
            match position_in(names.set_keys, fold(dotted(category, set))) {
                Some(k) => names.set_powers[k],
                None => Seq::empty(),
            }
        } else {
            match position_in(names.power_keys, fold(dotted(dotted(category, set), power))) {
                Some(k) => match names.power_names[k] {
                    Some(full) => seq![full],
                    None => Seq::empty(),
                },
                None => Seq::empty(),
            }
        }
    } else {
        Seq::empty()
    }
}

/// The names of the powers that the first `n` power references of
/// `villain` stand for.
pub open spec fn villain_refs(villain: VillainDef, names: Names, n: nat) -> Seq<Seq<char>>
    decreases n,
{
    if n == 0 || n > villain.powers@.len() {
        Seq::empty()
    } else {
        villain_refs(villain, names, (n - 1) as nat) + refs_of(villain.powers@[n - 1], names)
    }
}

/// The archetype of `villain`: the one that is kept under an at sign and
/// the name of its class among the archetypes of villains, if there is
/// one.
pub open spec fn entity_archetypes(villain: VillainDef, names: Names) -> Seq<ArchetypeRef> {
    match villain.character_class_name {
        Some(class) => match position_in(names.class_keys, fold(seq!['@'] + class@)) {
            Some(k) => seq![ArchetypeRef { villain: true, index: k as usize }],
            None => Seq::empty(),
        },
        None => Seq::empty(),
    }
}

/// The villain that the block creates: the one under the name of its
/// entity, where the block has no redirects of its own.
pub open spec fn entity_of(block: AttribModParam_EntCreate, names: Names) -> Option<int> {
    if block.redirects@.len() > 0 {
        None
    } else {
        match block.pch_entity_def {
            Some(name) => position_in(names.villain_keys, fold(name@)),
            None => None,
        }
    }
}

/// The power references of the block once it is resolved: those that it
/// had, and after them the powers of the villain that it creates.
pub open spec fn entcreate_refs(block: AttribModParam_EntCreate, names: Names) -> Seq<Seq<char>> {
    match entity_of(block, names) {
        Some(k) => block.power_refs.deep_view() + villain_refs(
            names.villains[k],
            names,
            names.villains[k].powers@.len(),
        ),
        None => block.power_refs.deep_view(),
    }
}

/// The marks that resolving the block gives, for a power with the given
/// archetypes. A block with redirects marks the powers that they name,
/// with the archetypes of the power. Any other block marks the powers of
/// the villain that it creates, with the archetype of the villain.
pub open spec fn entcreate_marks(
    block: AttribModParam_EntCreate,
    archetypes: Seq<ArchetypeRef>,
    names: Names,
) -> Seq<MarkView> {
    if block.redirects@.len() > 0 {
        marks_for(block.redirects.deep_view(), archetypes, block.redirects@.len())
    } else {
        match entity_of(block, names) {
            Some(k) => marks_for(
                entcreate_refs(block, names),
                entity_archetypes(names.villains[k], names),
                entcreate_refs(block, names).len(),
            ),
            None => Seq::empty(),
        }
    }
}

/// Whether `after` is the block `before` once it is resolved: it knows
/// the villain that it creates and the powers of that villain, and is
/// noted as resolved.
pub open spec fn entcreate_resolved(
    before: AttribModParam_EntCreate,
    after: AttribModParam_EntCreate,
    names: Names,
) -> bool {
    &&& after.villain_def == (match entity_of(before, names) {
        Some(k) => Some(k as usize),
        None => before.villain_def,
    })
    &&& after.power_refs.deep_view() == entcreate_refs(before, names)
    &&& after == (AttribModParam_EntCreate {
        villain_def: after.villain_def,
        power_refs: after.power_refs,
        resolved: true,
        ..before
    })
}

/// Adds to `refs` the names of the powers that `reference` stands for.
fn collect_refs(
    reference: &PowerNameRef,
    villains: &Keyed<VillainDef>,
    villain_archetypes: &Keyed<Archetype>,
    power_sets: &Keyed<BasePowerSet>,
    powers: &Keyed<BasePower>,
    refs: &mut Vec<NameKey>,
)
    requires
        power_sets.wf(),
        powers.wf(),
    ensures
        final(refs).deep_view() == old(refs).deep_view() + refs_of(
            *reference,
            names_of(villains, villain_archetypes, power_sets, powers),
        ),
{
    let ghost before = refs.deep_view();
    match (&reference.power_category, &reference.power_set, &reference.power) {
        (Some(category), Some(set), Some(power)) => {
            let mut text = String::from_str(category.get());
            text.append(".");
            text.append(set.get());
            proof {
                reveal_strlit(".");
                assert("."@ =~= seq![separator()]);
            }
            if power.is_wildcard() {
                // find all the powers in the specified set
                let set_name = NameKey::new(text.as_str());
                match power_sets.find(&set_name) {
                    Some(k) => {
                        let found = power_sets.at(k);
                        let mut j: usize = 0;
                        while j < found.pp_power_names.len()
                            invariant
                                j <= found.pp_power_names.len(),
                                refs.deep_view() == before + found.pp_power_names.deep_view().take(
                                    j as int,
                                ),
                            decreases found.pp_power_names.len() - j,
                        {
                            let ghost sofar = refs.deep_view();
                            let name = found.pp_power_names[j].clone();
                            refs.push(name);
                            assert(refs.deep_view() =~= sofar.push(name@));
                            j = j + 1;
                        }
                    },
                    None => {},
                }
            } else {
                // get a specific power
                text.append(".");
                text.append(power.get());
                let power_name = NameKey::new(text.as_str());
                match powers.find(&power_name) {
                    Some(k) => {
                        match &powers.at(k).pch_full_name {
                            Some(full) => {
                                let name = full.clone();
                                refs.push(name);
                            },
                            None => {},
                        }
                    },
                    None => {},
                }
            }
        },
        _ => {},
    }
}

/// Copies the names of the powers of the villain at position `villain`
/// into the block, and returns the archetype of the villain.
fn copy_powers_to_entcreate(
    entcreate: &mut AttribModParam_EntCreate,
    villain: usize,
    villains: &Keyed<VillainDef>,
    villain_archetypes: &Keyed<Archetype>,
    power_sets: &Keyed<BasePowerSet>,
    powers: &Keyed<BasePower>,
) -> (archetypes: Vec<ArchetypeRef>)
    requires
        villains.wf(),
        villain_archetypes.wf(),
        power_sets.wf(),
        powers.wf(),
        villain < villains.values().len(),
    ensures
        final(entcreate).power_refs.deep_view() == old(entcreate).power_refs.deep_view()
            + villain_refs(
            villains.values()[villain as int],
            names_of(villains, villain_archetypes, power_sets, powers),
            villains.values()[villain as int].powers@.len(),
        ),
        *final(entcreate) == (AttribModParam_EntCreate {
            power_refs: final(entcreate).power_refs,
            ..*old(entcreate)
        }),
        archetypes@ == entity_archetypes(
            villains.values()[villain as int],
            names_of(villains, villain_archetypes, power_sets, powers),
        ),
{
    let ghost names = names_of(villains, villain_archetypes, power_sets, powers);
    let villain_def = villains.at(villain);
    // look up the powers specified in the entity def
    let mut i: usize = 0;
    while i < villain_def.powers.len()
        invariant
            i <= villain_def.powers.len(),
            power_sets.wf(),
            powers.wf(),
            names == names_of(villains, villain_archetypes, power_sets, powers),
            entcreate.power_refs.deep_view() == old(entcreate).power_refs.deep_view()
                + villain_refs(*villain_def, names, i as nat),
            *entcreate == (AttribModParam_EntCreate {
                power_refs: entcreate.power_refs,
                ..*old(entcreate)
            }),
        decreases villain_def.powers.len() - i,
    {
        collect_refs(
            &villain_def.powers[i],
            villains,
            villain_archetypes,
            power_sets,
            powers,
            &mut entcreate.power_refs,
        );
        i = i + 1;
    }
    // get the specific archetype for this entity
    let mut archetypes: Vec<ArchetypeRef> = Vec::new();
    match &villain_def.character_class_name {
        Some(class_name) => {
            let mut text = String::from_str("@");
            text.append(class_name.get());
            proof {
                reveal_strlit("@");
                assert("@"@ =~= seq!['@']);
            }
            let class_key = NameKey::new(text.as_str());
            match villain_archetypes.find(&class_key) {
                Some(k) => {
                    archetypes.push(ArchetypeRef { villain: true, index: k });
                },
                None => {},
            }
        },
        None => {},
    }
    archetypes
}

/// Resolves a block that creates an entity, and adds its marks to `marks`.
fn resolve_entcreate(
    entcreate: &mut AttribModParam_EntCreate,
    archetypes: &Vec<ArchetypeRef>,
    villains: &Keyed<VillainDef>,
    villain_archetypes: &Keyed<Archetype>,
    power_sets: &Keyed<BasePowerSet>,
    powers: &Keyed<BasePower>,
    marks: &mut Vec<Mark>,
)
    requires
        villains.wf(),
        villain_archetypes.wf(),
        power_sets.wf(),
        powers.wf(),
    ensures
        marks_well_named(old(marks).deep_view()) ==> marks_well_named(final(marks).deep_view()),
        entcreate_resolved(
            *old(entcreate),
            *final(entcreate),
            names_of(villains, villain_archetypes, power_sets, powers),
        ),
        final(marks).deep_view() == old(marks).deep_view() + entcreate_marks(
            *old(entcreate),
            archetypes@,
            names_of(villains, villain_archetypes, power_sets, powers),
        ),
{
    if entcreate.redirects.len() > 0 {
        // the block redirects to one or more powers
        push_marks(&entcreate.redirects, archetypes, marks);
    } else {
        let found = match &entcreate.pch_entity_def {
            Some(entity_def_name) => villains.find(entity_def_name),
            None => None,
        };
        match found {
            Some(k) => {
                // copy entity def data into the mod param
                entcreate.villain_def = Some(k);
                // copy villain's powers into the mod param
                let entity_archetypes = copy_powers_to_entcreate(
                    entcreate,
                    k,
                    villains,
                    villain_archetypes,
                    power_sets,
                    powers,
                );
                // now mark all of the powers for inclusion
                push_marks(&entcreate.power_refs, &entity_archetypes, marks);
            },
            None => {},
        }
    }
    entcreate.resolved = true;
}

/// Whether the template has a parameter block that is still to resolve.
pub open spec fn pending(template: AttribModTemplate) -> bool {
    match template.p_params {
        Some(AttribModParam::EntCreate(block)) => !block.resolved,
        Some(AttribModParam::Power(block)) => !block.resolved,
        _ => false,
    }
}

/// The marks that resolving the parameter block of the template gives,
/// for a power with the given archetypes. A block that grants powers
/// marks the powers that it names.
pub open spec fn template_marks(
    template: AttribModTemplate,
    archetypes: Seq<ArchetypeRef>,
    names: Names,
) -> Seq<MarkView> {
    match template.p_params {
        Some(AttribModParam::EntCreate(block)) => if block.resolved {
            Seq::empty()
        } else {
            entcreate_marks(block, archetypes, names)
        },
        Some(AttribModParam::Power(block)) => if block.resolved {
            Seq::empty()
        } else {
            marks_for(
                block.ppch_power_names.deep_view(),
                archetypes,
                block.ppch_power_names@.len(),
            )
        },
        _ => Seq::empty(),
    }
}

/// Whether `after` is the template `before` once its parameter block is
/// resolved, where it was still to resolve.
pub open spec fn template_resolved(
    before: AttribModTemplate,
    after: AttribModTemplate,
    names: Names,
) -> bool {
    match before.p_params {
        Some(AttribModParam::EntCreate(block)) => if block.resolved {
            after == before
        } else {
            &&& after.p_params matches Some(AttribModParam::EntCreate(resolved))
                && entcreate_resolved(block, resolved, names)
            &&& after == (AttribModTemplate { p_params: after.p_params, ..before })
        },
        Some(AttribModParam::Power(block)) => if block.resolved {
            after == before
        } else {
            &&& after.p_params == Some(
                AttribModParam::Power(AttribModParam_Power { resolved: true, ..block }),
            )
            &&& after == (AttribModTemplate { p_params: after.p_params, ..before })
        },
        _ => after == before,
    }
}

/// Resolves the parameter block of the template, where it is still to
/// resolve, and adds its marks to `marks`. Returns whether it did.
fn resolve_template(
    template: &mut AttribModTemplate,
    archetypes: &Vec<ArchetypeRef>,
    villains: &Keyed<VillainDef>,
    villain_archetypes: &Keyed<Archetype>,
    power_sets: &Keyed<BasePowerSet>,
    powers: &Keyed<BasePower>,
    marks: &mut Vec<Mark>,
) -> (resolved: bool)
    requires
        villains.wf(),
        villain_archetypes.wf(),
        power_sets.wf(),
        powers.wf(),
    ensures
        marks_well_named(old(marks).deep_view()) ==> marks_well_named(final(marks).deep_view()),
        resolved == pending(*old(template)),
        template_resolved(
            *old(template),
            *final(template),
            names_of(villains, villain_archetypes, power_sets, powers),
        ),
        final(marks).deep_view() == old(marks).deep_view() + template_marks(
            *old(template),
            archetypes@,
            names_of(villains, villain_archetypes, power_sets, powers),
        ),
{
    match &mut template.p_params {
        Some(AttribModParam::EntCreate(e)) => {
            if !e.resolved {
                resolve_entcreate(
                    e,
                    archetypes,
                    villains,
                    villain_archetypes,
                    power_sets,
                    powers,
                    marks,
                );
                true
            } else {
                false
            }
        },
        Some(AttribModParam::Power(p)) => {
            if !p.resolved {
                // mark the powers referred to by this param
                push_marks(&p.ppch_power_names, archetypes, marks);
                p.resolved = true;
                true
            } else {
                false
            }
        },
        _ => false,
    }
}

/// The marks that resolving the first `n` of `templates` gives.
pub open spec fn templates_marks(
    templates: Seq<AttribModTemplate>,
    archetypes: Seq<ArchetypeRef>,
    names: Names,
    n: nat,
) -> Seq<MarkView>
    decreases n,
{
    if n == 0 || n > templates.len() {
        Seq::empty()
    } else {
        templates_marks(templates, archetypes, names, (n - 1) as nat) + template_marks(
            templates[n - 1],
            archetypes,
            names,
        )
    }
}

/// How many of the first `n` of `templates` have a parameter block that
/// is still to resolve.
pub open spec fn templates_pending(templates: Seq<AttribModTemplate>, n: nat) -> nat
    decreases n,
{
    if n == 0 || n > templates.len() {
        0
    } else if pending(templates[n - 1]) {
        templates_pending(templates, (n - 1) as nat) + 1
    } else {
        templates_pending(templates, (n - 1) as nat)
    }
}

/// The marks that resolving the templates of `group`, and then the first
/// `n` of the groups that it holds, gives.
pub open spec fn group_marks(
    group: EffectGroup,
    archetypes: Seq<ArchetypeRef>,
    names: Names,
    n: nat,
) -> Seq<MarkView>
    decreases group, n,
{
    if n == 0 || n > group.pp_effects@.len() {
        templates_marks(group.pp_templates@, archetypes, names, group.pp_templates@.len())
    } else {
        group_marks(group, archetypes, names, (n - 1) as nat) + group_marks(
            group.pp_effects@[n - 1],
            archetypes,
            names,
            group.pp_effects@[n - 1].pp_effects@.len(),
        )
    }
}

/// How many parameter blocks are still to resolve in the templates of
/// `group` and in the first `n` of the groups that it holds.
pub open spec fn group_pending(group: EffectGroup, n: nat) -> nat
    decreases group, n,
{
    if n == 0 || n > group.pp_effects@.len() {
        templates_pending(group.pp_templates@, group.pp_templates@.len())
    } else {
        group_pending(group, (n - 1) as nat) + group_pending(
            group.pp_effects@[n - 1],
            group.pp_effects@[n - 1].pp_effects@.len(),
        )
    }
}

/// Whether `after` is the group `before` once every parameter block in it
/// and in the groups that it holds is resolved.
pub open spec fn group_resolved(before: EffectGroup, after: EffectGroup, names: Names) -> bool
    decreases before,
{
    &&& after.pp_templates@.len() == before.pp_templates@.len()
    &&& forall|i: int|
        0 <= i < before.pp_templates@.len() ==> template_resolved(
            before.pp_templates@[i],
            #[trigger] after.pp_templates@[i],
            names,
        )
    &&& after.pp_effects@.len() == before.pp_effects@.len()
    &&& forall|i: int|
        0 <= i < before.pp_effects@.len() ==> group_resolved(
            before.pp_effects@[i],
            #[trigger] after.pp_effects@[i],
            names,
        )
    &&& after == (EffectGroup {
        pp_templates: after.pp_templates,
        pp_effects: after.pp_effects,
        ..before
    })
}

/// The number of levels of groups in `group`, counting only the first `n`
/// of the groups that it holds.
pub open spec fn depth(group: EffectGroup, n: nat) -> nat
    decreases group, n,
{
    if n == 0 || n > group.pp_effects@.len() {
        1
    } else if depth(group, (n - 1) as nat) > depth(
        group.pp_effects@[n - 1],
        group.pp_effects@[n - 1].pp_effects@.len(),
    ) {
        depth(group, (n - 1) as nat)
    } else {
        depth(group.pp_effects@[n - 1], group.pp_effects@[n - 1].pp_effects@.len()) + 1
    }
}

/// A group has more levels than each group that it holds.
pub proof fn lemma_depth(group: EffectGroup, k: int, n: nat)
    requires
        0 <= k < n <= group.pp_effects@.len(),
    ensures
        depth(group.pp_effects@[k], group.pp_effects@[k].pp_effects@.len()) < depth(group, n),
    decreases n,
{
    if k < n - 1 {
        lemma_depth(group, k, (n - 1) as nat);
    }
}

/// Resolves every parameter block that is still to resolve in `group` and
/// in the groups that it holds, the blocks of a group before those of the
/// groups in it, and adds the marks to `marks`. Returns the number of
/// blocks that it resolved.
fn resolve_group(
    group: &mut EffectGroup,
    archetypes: &Vec<ArchetypeRef>,
    villains: &Keyed<VillainDef>,
    villain_archetypes: &Keyed<Archetype>,
    power_sets: &Keyed<BasePowerSet>,
    powers: &Keyed<BasePower>,
    marks: &mut Vec<Mark>,
) -> (count: usize)
    requires
        villains.wf(),
        villain_archetypes.wf(),
        power_sets.wf(),
        powers.wf(),
    ensures
        marks_well_named(old(marks).deep_view()) ==> marks_well_named(final(marks).deep_view()),
        group_resolved(
            *old(group),
            *final(group),
            names_of(villains, villain_archetypes, power_sets, powers),
        ),
        final(marks).deep_view() == old(marks).deep_view() + group_marks(
            *old(group),
            archetypes@,
            names_of(villains, villain_archetypes, power_sets, powers),
            old(group).pp_effects@.len(),
        ),
        count == clipped(group_pending(*old(group), old(group).pp_effects@.len())),
    decreases depth(*old(group), old(group).pp_effects@.len()),
{
    let ghost names = names_of(villains, villain_archetypes, power_sets, powers);
    let ghost start = *group;
    let ghost first = marks.deep_view();
    let mut count: usize = 0;
    let templates = group.pp_templates.len();
    let mut i: usize = 0;
    while i < templates
        invariant
            i <= templates,
            templates == start.pp_templates@.len(),
            villains.wf(),
            villain_archetypes.wf(),
            power_sets.wf(),
            powers.wf(),
            names == names_of(villains, villain_archetypes, power_sets, powers),
            group.pp_templates@.len() == templates,
            forall|j: int|
                0 <= j < i ==> template_resolved(
                    start.pp_templates@[j],
                    #[trigger] group.pp_templates@[j],
                    names,
                ),
            forall|j: int| i <= j < templates ==> #[trigger] group.pp_templates@[j] == start.pp_templates@[j],
            *group == (EffectGroup { pp_templates: group.pp_templates, ..start }),
            marks.deep_view() == first + templates_marks(
                start.pp_templates@,
                archetypes@,
                names,
                i as nat,
            ),
            marks_well_named(first) ==> marks_well_named(marks.deep_view()),
            count == clipped(templates_pending(start.pp_templates@, i as nat)),
        decreases templates - i,
    {
        let resolved = resolve_template(
            &mut group.pp_templates[i],
            archetypes,
            villains,
            villain_archetypes,
            power_sets,
            powers,
            marks,
        );
        if resolved {
            count = one_more(count);
        }
        i = i + 1;
    }
    let ghost middle = *group;
    let groups = group.pp_effects.len();
    let mut k: usize = 0;
    while k < groups
        invariant
            k <= groups,
            groups == start.pp_effects@.len(),
            start == *old(group),
            villains.wf(),
            villain_archetypes.wf(),
            power_sets.wf(),
            powers.wf(),
            names == names_of(villains, villain_archetypes, power_sets, powers),
            group.pp_effects@.len() == groups,
            forall|j: int|
                0 <= j < k ==> group_resolved(
                    start.pp_effects@[j],
                    #[trigger] group.pp_effects@[j],
                    names,
                ),
            forall|j: int| k <= j < groups ==> #[trigger] group.pp_effects@[j] == start.pp_effects@[j],
            *group == (EffectGroup { pp_effects: group.pp_effects, ..middle }),
            marks.deep_view() == first + group_marks(start, archetypes@, names, k as nat),
            marks_well_named(first) ==> marks_well_named(marks.deep_view()),
            count == clipped(group_pending(start, k as nat)),
        decreases groups - k,
    {
        proof {
            lemma_depth(start, k as int, groups as nat);
        }
        let more = resolve_group(
            &mut group.pp_effects[k],
            archetypes,
            villains,
            villain_archetypes,
            power_sets,
            powers,
            marks,
        );
        count = add_counts(count, more);
        k = k + 1;
    }
    count
}

/// The marks that resolving the first `n` of `groups` gives.
pub open spec fn groups_marks(
    groups: Seq<EffectGroup>,
    archetypes: Seq<ArchetypeRef>,
    names: Names,
    n: nat,
) -> Seq<MarkView>
    decreases n,
{
    if n == 0 || n > groups.len() {
        Seq::empty()
    } else {
        groups_marks(groups, archetypes, names, (n - 1) as nat) + group_marks(
            groups[n - 1],
            archetypes,
            names,
            groups[n - 1].pp_effects@.len(),
        )
    }
}

/// How many parameter blocks are still to resolve in the first `n` of
/// `groups`.
pub open spec fn groups_pending(groups: Seq<EffectGroup>, n: nat) -> nat
    decreases n,
{
    if n == 0 || n > groups.len() {
        0
    } else {
        groups_pending(groups, (n - 1) as nat) + group_pending(
            groups[n - 1],
            groups[n - 1].pp_effects@.len(),
        )
    }
}

/// Whether `after` are the groups `before` once every parameter block in
/// them is resolved.
pub open spec fn groups_resolved(
    before: Seq<EffectGroup>,
    after: Seq<EffectGroup>,
    names: Names,
) -> bool {
    &&& after.len() == before.len()
    &&& forall|i: int|
        0 <= i < before.len() ==> group_resolved(before[i], #[trigger] after[i], names)
}

/// Resolves every parameter block that is still to resolve in `groups`,
/// and adds the marks to `marks`. Returns the number of blocks that it
/// resolved.
fn resolve_groups(
    groups: &mut Vec<EffectGroup>,
    archetypes: &Vec<ArchetypeRef>,
    villains: &Keyed<VillainDef>,
    villain_archetypes: &Keyed<Archetype>,
    power_sets: &Keyed<BasePowerSet>,
    powers: &Keyed<BasePower>,
    marks: &mut Vec<Mark>,
) -> (count: usize)
    requires
        villains.wf(),
        villain_archetypes.wf(),
        power_sets.wf(),
        powers.wf(),
    ensures
        marks_well_named(old(marks).deep_view()) ==> marks_well_named(final(marks).deep_view()),
        groups_resolved(
            old(groups)@,
            final(groups)@,
            names_of(villains, villain_archetypes, power_sets, powers),
        ),
        final(marks).deep_view() == old(marks).deep_view() + groups_marks(
            old(groups)@,
            archetypes@,
            names_of(villains, villain_archetypes, power_sets, powers),
            old(groups)@.len(),
        ),
        count == clipped(groups_pending(old(groups)@, old(groups)@.len())),
{
    let ghost names = names_of(villains, villain_archetypes, power_sets, powers);
    let ghost start = groups@;
    let ghost first = marks.deep_view();
    let mut count: usize = 0;
    let n = groups.len();
    let mut k: usize = 0;
    while k < n
        invariant
            k <= n,
            n == start.len(),
            villains.wf(),
            villain_archetypes.wf(),
            power_sets.wf(),
            powers.wf(),
            names == names_of(villains, villain_archetypes, power_sets, powers),
            groups@.len() == n,
            forall|j: int| 0 <= j < k ==> group_resolved(start[j], #[trigger] groups@[j], names),
            forall|j: int| k <= j < n ==> #[trigger] groups@[j] == start[j],
            marks.deep_view() == first + groups_marks(start, archetypes@, names, k as nat),
            marks_well_named(first) ==> marks_well_named(marks.deep_view()),
            count == clipped(groups_pending(start, k as nat)),
        decreases n - k,
    {
        let more = resolve_group(
            &mut groups[k],
            archetypes,
            villains,
            villain_archetypes,
            power_sets,
            powers,
            marks,
        );
        count = add_counts(count, more);
        k = k + 1;
    }
    count
}

/// The marks that resolving the parameter blocks of the first `n` of
/// `powers` gives: those of each power that is included, with the
/// archetypes of that power.
pub open spec fn entity_marks(powers: Seq<BasePower>, names: Names, n: nat) -> Seq<MarkView>
    decreases n,
{
    if n == 0 || n > powers.len() {
        Seq::empty()
    } else if powers[n - 1].include_in_output {
        entity_marks(powers, names, (n - 1) as nat) + groups_marks(
            powers[n - 1].pp_effects@,
            powers[n - 1].archetypes@,
            names,
            powers[n - 1].pp_effects@.len(),
        )
    } else {
        entity_marks(powers, names, (n - 1) as nat)
    }
}

/// How many parameter blocks are still to resolve in those of the first
/// `n` of `powers` that are included.
pub open spec fn entity_pending(powers: Seq<BasePower>, n: nat) -> nat
    decreases n,
{
    if n == 0 || n > powers.len() {
        0
    } else if powers[n - 1].include_in_output {
        entity_pending(powers, (n - 1) as nat) + groups_pending(
            powers[n - 1].pp_effects@,
            powers[n - 1].pp_effects@.len(),
        )
    } else {
        entity_pending(powers, (n - 1) as nat)
    }
}

/// Whether the effect groups `after` are the groups `before` of a power
/// once its parameter blocks are resolved, where the power is included,
/// and the groups `before` themselves where it is not.
pub open spec fn effects_scanned(
    included: bool,
    before: Seq<EffectGroup>,
    after: Seq<EffectGroup>,
    names: Names,
) -> bool {
    if included {
        groups_resolved(before, after, names)
    } else {
        after == before
    }
}

/// Whether `after` is the power `before` once its parameter blocks are
/// resolved, where it is included.
pub open spec fn power_scanned(before: BasePower, after: BasePower, names: Names) -> bool {
    &&& effects_scanned(before.include_in_output, before.pp_effects@, after.pp_effects@, names)
    &&& after == (BasePower { pp_effects: after.pp_effects, ..before })
}

/// Whether `after` is the power `before`, under `key`, once its parameter
/// blocks are resolved, where it is included, and then the first `n` of
/// `marks` are applied.
pub open spec fn power_resolved(
    before: BasePower,
    after: BasePower,
    key: Seq<char>,
    marks: Seq<MarkView>,
    n: nat,
    names: Names,
) -> bool {
    &&& effects_scanned(before.include_in_output, before.pp_effects@, after.pp_effects@, names)
    &&& after.include_in_output == (before.include_in_output || power_hit(marks, key, n))
    &&& after.archetypes@ == archetypes_after(before.archetypes@, marks, key, n)
    &&& after == (BasePower {
        pp_effects: after.pp_effects,
        include_in_output: after.include_in_output,
        archetypes: after.archetypes,
        ..before
    })
}

/// A power that is scanned and then marked is resolved.
pub proof fn lemma_power_resolved(
    before: BasePower,
    middle: BasePower,
    after: BasePower,
    key: Seq<char>,
    marks: Seq<MarkView>,
    n: nat,
    names: Names,
)
    requires
        power_scanned(before, middle, names),
        power_marked(middle, after, key, marks, n),
    ensures
        power_resolved(before, after, key, marks, n, names),
{
    reveal(power_marked);
}

/// Takes the effect groups out of `power`, which is left with none.
fn take_effects(power: &mut BasePower) -> (effects: Vec<EffectGroup>)
    ensures
        effects == old(power).pp_effects,
        final(power).pp_effects@.len() == 0,
        *final(power) == (BasePower { pp_effects: final(power).pp_effects, ..*old(power) }),
{
    let mut effects: Vec<EffectGroup> = Vec::new();
    core::mem::swap(&mut power.pp_effects, &mut effects);
    effects
}

/// Gives `power` the effect groups `effects`.
fn put_effects(power: &mut BasePower, effects: Vec<EffectGroup>)
    ensures
        *final(power) == (BasePower { pp_effects: effects, ..*old(power) }),
{
    power.pp_effects = effects;
}

/// The full names of powers do not depend on their effect groups.
proof fn lemma_names_kept(
    villains: &Keyed<VillainDef>,
    villain_archetypes: &Keyed<Archetype>,
    power_sets: &Keyed<BasePowerSet>,
    before: &Keyed<BasePower>,
    after: &Keyed<BasePower>,
)
    requires
        after.keys() == before.keys(),
        after.values().len() == before.values().len(),
        forall|j: int|
            0 <= j < before.values().len() ==> (#[trigger] after.values()[j]).pch_full_name
                == before.values()[j].pch_full_name,
    ensures
        names_of(villains, villain_archetypes, power_sets, after) == names_of(
            villains,
            villain_archetypes,
            power_sets,
            before,
        ),
{
    assert(names_of(villains, villain_archetypes, power_sets, after).power_names =~= names_of(
        villains,
        villain_archetypes,
        power_sets,
        before,
    ).power_names);
}

/// Whether the second three collections are the first three once the
/// parameter blocks of the powers are resolved: see
/// `resolve_entity_defs_and_power_grants`.
pub open spec fn entities_resolved(
    villains: &Keyed<VillainDef>,
    villain_archetypes: &Keyed<Archetype>,
    cats_before: &Keyed<PowerCategory>,
    sets_before: &Keyed<BasePowerSet>,
    powers_before: &Keyed<BasePower>,
    cats_after: &Keyed<PowerCategory>,
    sets_after: &Keyed<BasePowerSet>,
    powers_after: &Keyed<BasePower>,
) -> bool {
    let names = names_of(villains, villain_archetypes, sets_before, powers_before);
    let marks = entity_marks(powers_before.values(), names, powers_before.values().len());
    &&& marks_well_named(marks)
    &&& categories_marked(cats_before, cats_after, marks, marks.len())
    &&& sets_marked(sets_before, sets_after, marks, marks.len())
    &&& powers_after.keys() == powers_before.keys()
    &&& powers_after.names() == powers_before.names()
    &&& powers_after.values().len() == powers_before.values().len()
    &&& forall|j: int|
        0 <= j < powers_before.values().len() ==> power_resolved(
            powers_before.values()[j],
            #[trigger] powers_after.values()[j],
            powers_before.keys()[j],
            marks,
            marks.len(),
            names,
        )
}

/// Resolves the parameter blocks of the powers that create entities or
/// grant powers, in two steps. First every such block of every power that
/// is included is resolved, the blocks of a power in the order of its
/// effect groups: a block that creates an entity learns the villain that
/// it creates and the names of the powers of that villain, and the powers
/// that the block leads to are listed: for a block with redirects the
/// powers that they name, with the archetypes of the power that holds the
/// block; for any other block that creates an entity the powers of its
/// villain, with the archetype of the villain; for a block that grants
/// powers the powers that it names, with the archetypes of the power that
/// holds the block. A name that is no full name of a power refers to
/// nothing. Then the listed powers are included, with their power sets
/// and categories: see `mark_power_for_inclusion`. Returns the number of
/// blocks that were resolved.
pub fn resolve_entity_defs_and_power_grants(
    villains: &Keyed<VillainDef>,
    villain_archetypes: &Keyed<Archetype>,
    power_cats: &mut Keyed<PowerCategory>,
    power_sets: &mut Keyed<BasePowerSet>,
    powers: &mut Keyed<BasePower>,
) -> (count_resolved: usize)
    requires
        villains.wf(),
        villain_archetypes.wf(),
        old(power_cats).wf(),
        old(power_sets).wf(),
        old(powers).wf(),
    ensures
        final(power_cats).wf(),
        final(power_sets).wf(),
        final(powers).wf(),
        count_resolved == clipped(
            entity_pending(old(powers).values(), old(powers).values().len()),
        ),
        entities_resolved(
            villains,
            villain_archetypes,
            old(power_cats),
            old(power_sets),
            old(powers),
            final(power_cats),
            final(power_sets),
            final(powers),
        ),
{
    let ghost start = old(powers).values();
    let ghost names = names_of(villains, villain_archetypes, power_sets, powers);
    let n = powers.len();
    let mut marks: Vec<Mark> = Vec::new();
    let mut count_resolved: usize = 0;
    let mut i: usize = 0;
    while i < n
        invariant
            i <= n,
            n == start.len(),
            start == old(powers).values(),
            villains.wf(),
            villain_archetypes.wf(),
            power_sets.wf(),
            powers.wf(),
            powers.keys() == old(powers).keys(),
            powers.names() == old(powers).names(),
            powers.values().len() == n,
            names == names_of(villains, villain_archetypes, power_sets, powers),
            forall|j: int| 0 <= j < i ==> power_scanned(start[j], #[trigger] powers.values()[j], names),
            forall|j: int| i <= j < n ==> #[trigger] powers.values()[j] == start[j],
            marks.deep_view() == entity_marks(start, names, i as nat),
            marks_well_named(marks.deep_view()),
            count_resolved == clipped(entity_pending(start, i as nat)),
        decreases n - i,
    {
        if powers.at(i).include_in_output {
            let ghost before = *powers;
            let archetypes = clone_refs(&powers.at(i).archetypes);
            // check effect groups for attrib mod params we're interested in
            let mut effects = take_effects(powers.at_mut(i));
            proof {
                lemma_names_kept(villains, villain_archetypes, power_sets, &before, powers);
            }
            let more = resolve_groups(
                &mut effects,
                &archetypes,
                villains,
                villain_archetypes,
                power_sets,
                powers,
                &mut marks,
            );
            let ghost taken = *powers;
            put_effects(powers.at_mut(i), effects);
            proof {
                lemma_names_kept(villains, villain_archetypes, power_sets, &taken, powers);
            }
            count_resolved = add_counts(count_resolved, more);
        }
        i = i + 1;
    }
    let ghost scanned = *powers;
    apply_marks(&marks, power_cats, power_sets, powers);
    proof {
        assert forall|j: int| 0 <= j < n implies power_resolved(
            start[j],
            #[trigger] powers.values()[j],
            old(powers).keys()[j],
            entity_marks(start, names, n as nat),
            entity_marks(start, names, n as nat).len(),
            names,
        ) by {
            lemma_power_resolved(
                start[j],
                scanned.values()[j],
                powers.values()[j],
                old(powers).keys()[j],
                marks.deep_view(),
                marks@.len() as nat,
                names,
            );
        }
    }
    count_resolved
}

} // verus!
