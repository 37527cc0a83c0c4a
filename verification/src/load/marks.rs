//! Marks: requests to include a power, with its power set and category.

use crate::structs::keyed::Keyed;
use crate::structs::namekey::{fold, lemma_segments_fold, segments, separator, NameKey};
use crate::structs::powers::{BasePower, BasePowerSet, PowerCategory};
use crate::structs::ArchetypeRef;
use vstd::prelude::*;
use vstd::string::StringExecFns;

verus! {

/// Whether `name` is the full name of a power: a category, a power set and
/// a power, with separators between them.
pub open spec fn well_named(name: Seq<char>) -> bool {
    segments(name).len() == 3
}

/// The key of the category that the power called `name` belongs to.
pub open spec fn category_key(name: Seq<char>) -> Seq<char> {
    fold(segments(name)[0])
}

/// The text of two segments with a separator between them.
pub open spec fn dotted(first: Seq<char>, second: Seq<char>) -> Seq<char> {
    first + seq![separator()] + second
}

/// The key of the power set that the power called `name` belongs to.
pub open spec fn set_key(name: Seq<char>) -> Seq<char> {
    fold(dotted(segments(name)[0], segments(name)[1]))
}

/// Two names that differ only in case belong to the same category and the
/// same power set.
pub proof fn lemma_owner_keys(a: Seq<char>, b: Seq<char>)
    requires
        fold(a) == fold(b),
        well_named(a),
    ensures
        well_named(b),
        category_key(a) == category_key(b),
        set_key(a) == set_key(b),
{
    lemma_segments_fold(a);
    lemma_segments_fold(b);
    assert(segments(fold(a))[0] == fold(segments(a)[0]));
    assert(segments(fold(a))[1] == fold(segments(a)[1]));
    assert(set_key(a) =~= dotted(fold(segments(a)[0]), fold(segments(a)[1])));
}

/// The list `base`, and after it those of the first `n` of `more` that it
/// does not hold yet, each once.
pub open spec fn merged(base: Seq<ArchetypeRef>, more: Seq<ArchetypeRef>, n: nat) -> Seq<
    ArchetypeRef,
>
    decreases n,
{
    if n == 0 || n > more.len() {
        base
    } else if merged(base, more, (n - 1) as nat).contains(more[n - 1]) {
        merged(base, more, (n - 1) as nat)
    } else {
        merged(base, more, (n - 1) as nat).push(more[n - 1])
    }
}

/// A copy of a list of references to archetypes.
pub fn clone_refs(list: &Vec<ArchetypeRef>) -> (copy: Vec<ArchetypeRef>)
    ensures
        copy@ == list@,
{
    let mut copy: Vec<ArchetypeRef> = Vec::new();
    let mut i: usize = 0;
    while i < list.len()
        invariant
            i <= list.len(),
            copy@ == list@.take(i as int),
        decreases list.len() - i,
    {
        copy.push(list[i]);
        i = i + 1;
    }
    copy
}

/// Whether `list` holds `item`.
pub fn holds_ref(list: &Vec<ArchetypeRef>, item: ArchetypeRef) -> (found: bool)
    ensures
        found == list@.contains(item),
{
    let mut i: usize = 0;
    while i < list.len()
        invariant
            i <= list.len(),
            forall|j: int| 0 <= j < i ==> list@[j] != item,
        decreases list.len() - i,
    {
        if list[i].villain == item.villain && list[i].index == item.index {
            return true;
        }
        i = i + 1;
    }
    false
}

/// Adds to `list` those of `more` that it does not hold yet, each once.
pub fn merge_refs(list: &mut Vec<ArchetypeRef>, more: &Vec<ArchetypeRef>)
    ensures
        final(list)@ == merged(old(list)@, more@, more@.len()),
{
    let mut i: usize = 0;
    while i < more.len()
        invariant
            i <= more.len(),
            list@ == merged(old(list)@, more@, i as nat),
        decreases more.len() - i,
    {
        if !holds_ref(list, more[i]) {
            list.push(more[i]);
        }
        i = i + 1;
    }
}

/// A request to include a power: its name, and the archetypes of the power
/// that refers to it.
pub struct Mark {
    /// The full name of the power to include.
    pub name: NameKey,
    /// The archetypes to add to those of the power.
    pub archetypes: Vec<ArchetypeRef>,
}

/// What a `Mark` holds.
pub struct MarkView {
    pub name: Seq<char>,
    pub archetypes: Seq<ArchetypeRef>,
}

impl View for Mark {
    type V = MarkView;

    open spec fn view(&self) -> MarkView {
        MarkView { name: self.name@, archetypes: self.archetypes@ }
    }
}

impl DeepView for Mark {
    type V = MarkView;

    open spec fn deep_view(&self) -> MarkView {
        self@
    }
}

impl Mark {
    /// A mark for the power called `name`, with a copy of `archetypes`;
    /// nothing where `name` is not the full name of a power.
    pub fn new(name: &NameKey, archetypes: &Vec<ArchetypeRef>) -> (mark: Option<Mark>)
        ensures
            match mark {
                Some(m) => well_named(name@) && m@ == (MarkView {
                    name: name@,
                    archetypes: archetypes@,
                }),
                None => !well_named(name@),
            },
    {
        let parts = name.split();
        if parts.len() == 3 {
            Some(Mark { name: name.clone(), archetypes: clone_refs(archetypes) })
        } else {
            None
        }
    }
}

/// The marks for those of the first `n` of `names` that are full names of
/// powers, each with the given archetypes. A name that is no full name of
/// a power refers to nothing.
pub open spec fn marks_for(names: Seq<Seq<char>>, archetypes: Seq<ArchetypeRef>, n: nat) -> Seq<
    MarkView,
>
    decreases n,
{
    if n == 0 || n > names.len() {
        Seq::empty()
    } else if well_named(names[n - 1]) {
        marks_for(names, archetypes, (n - 1) as nat).push(
            MarkView { name: names[n - 1], archetypes },
        )
    } else {
        marks_for(names, archetypes, (n - 1) as nat)
    }
}

/// The marks for a list of names are well named.
pub proof fn lemma_marks_for_named(names: Seq<Seq<char>>, archetypes: Seq<ArchetypeRef>, n: nat)
    ensures
        marks_well_named(marks_for(names, archetypes, n)),
    decreases n,
{
    if n > 0 && n <= names.len() {
        lemma_marks_for_named(names, archetypes, (n - 1) as nat);
    }
}

/// Well named marks after well named marks are well named marks.
pub proof fn lemma_marks_named_joined(first: Seq<MarkView>, second: Seq<MarkView>)
    requires
        marks_well_named(first),
        marks_well_named(second),
    ensures
        marks_well_named(first + second),
{
}

/// Adds to `marks` a mark for each of `names` that is the full name of a
/// power, with the given archetypes.
pub fn push_marks(names: &Vec<NameKey>, archetypes: &Vec<ArchetypeRef>, marks: &mut Vec<Mark>)
    ensures
        final(marks).deep_view() == old(marks).deep_view() + marks_for(
            names.deep_view(),
            archetypes@,
            names@.len(),
        ),
        marks_well_named(old(marks).deep_view()) ==> marks_well_named(final(marks).deep_view()),
{
    proof {
        lemma_marks_for_named(names.deep_view(), archetypes@, names@.len() as nat);
        if marks_well_named(old(marks).deep_view()) {
            lemma_marks_named_joined(
                old(marks).deep_view(),
                marks_for(names.deep_view(), archetypes@, names@.len() as nat),
            );
        }
    }
    let mut k: usize = 0;
    while k < names.len()
        invariant
            k <= names.len(),
            marks.deep_view() == old(marks).deep_view() + marks_for(
                names.deep_view(),
                archetypes@,
                k as nat,
            ),
        decreases names.len() - k,
    {
        let ghost before = marks.deep_view();
        match Mark::new(&names[k], archetypes) {
            Some(mark) => {
                marks.push(mark);
                assert(marks.deep_view() =~= before.push(mark@));
            },
            None => {},
        }
        k = k + 1;
    }
}

/// The sum of two counts, or the greatest number.
pub fn add_counts(a: usize, b: usize) -> (sum: usize)
    ensures
        sum == clipped((a + b) as nat),
{
    if a <= usize::MAX - b {
        a + b
    } else {
        usize::MAX
    }
}

/// Whether each of `marks` names a power by its full name.
pub open spec fn marks_well_named(marks: Seq<MarkView>) -> bool {
    forall|k: int| 0 <= k < marks.len() ==> well_named(#[trigger] marks[k].name)
}

/// Whether one of the first `n` of `marks` includes the category under
/// `key`.
pub open spec fn category_hit(marks: Seq<MarkView>, key: Seq<char>, n: nat) -> bool
    decreases n,
{
    if n == 0 || n > marks.len() {
        false
    } else {
        category_hit(marks, key, (n - 1) as nat) || category_key(marks[n - 1].name) == key
    }
}

/// Whether one of the first `n` of `marks` includes the power set under
/// `key`.
pub open spec fn set_hit(marks: Seq<MarkView>, key: Seq<char>, n: nat) -> bool
    decreases n,
{
    if n == 0 || n > marks.len() {
        false
    } else {
        set_hit(marks, key, (n - 1) as nat) || set_key(marks[n - 1].name) == key
    }
}

/// Whether one of the first `n` of `marks` includes the power under `key`.
pub open spec fn power_hit(marks: Seq<MarkView>, key: Seq<char>, n: nat) -> bool
    decreases n,
{
    if n == 0 || n > marks.len() {
        false
    } else {
        power_hit(marks, key, (n - 1) as nat) || fold(marks[n - 1].name) == key
    }
}

/// The archetypes of the power under `key` after the first `n` of `marks`:
/// each mark of the power adds its archetypes to `base`.
pub open spec fn archetypes_after(
    base: Seq<ArchetypeRef>,
    marks: Seq<MarkView>,
    key: Seq<char>,
    n: nat,
) -> Seq<ArchetypeRef>
    decreases n,
{
    if n == 0 || n > marks.len() {
        base
    } else if fold(marks[n - 1].name) == key {
        merged(
            archetypes_after(base, marks, key, (n - 1) as nat),
            marks[n - 1].archetypes,
            marks[n - 1].archetypes.len(),
        )
    } else {
        archetypes_after(base, marks, key, (n - 1) as nat)
    }
}

/// Whether `after` is the collection `before` of categories once the
/// first `n` of `marks` are applied: a category that a mark includes is
/// included, and nothing else changes.
pub open spec fn categories_marked(
    before: &Keyed<PowerCategory>,
    after: &Keyed<PowerCategory>,
    marks: Seq<MarkView>,
    n: nat,
) -> bool {
    &&& after.keys() == before.keys()
    &&& after.names() == before.names()
    &&& after.values().len() == before.values().len()
    &&& forall|j: int|
        0 <= j < before.values().len() ==> #[trigger] after.values()[j] == (PowerCategory {
            include_in_output: before.values()[j].include_in_output || category_hit(
                marks,
                before.keys()[j],
                n,
            ),
            ..before.values()[j]
        })
}

/// Whether `after` is the collection `before` of power sets once the
/// first `n` of `marks` are applied: a power set that a mark includes is
/// included, and nothing else changes.
pub open spec fn sets_marked(
    before: &Keyed<BasePowerSet>,
    after: &Keyed<BasePowerSet>,
    marks: Seq<MarkView>,
    n: nat,
) -> bool {
    &&& after.keys() == before.keys()
    &&& after.names() == before.names()
    &&& after.values().len() == before.values().len()
    &&& forall|j: int|
        0 <= j < before.values().len() ==> #[trigger] after.values()[j] == (BasePowerSet {
            include_in_output: before.values()[j].include_in_output || set_hit(
                marks,
                before.keys()[j],
                n,
            ),
            ..before.values()[j]
        })
}

/// Whether the power `after` is the power `before`, under `key`, once the
/// first `n` of `marks` are applied: a power that a mark includes is
/// included and has the archetypes of the mark added to its own, and
/// nothing else changes.
#[verifier::opaque]
pub open spec fn power_marked(
    before: BasePower,
    after: BasePower,
    key: Seq<char>,
    marks: Seq<MarkView>,
    n: nat,
) -> bool {
    &&& after.include_in_output == (before.include_in_output || power_hit(marks, key, n))
    &&& after.archetypes@ == archetypes_after(before.archetypes@, marks, key, n)
    &&& after == (BasePower {
        include_in_output: after.include_in_output,
        archetypes: after.archetypes,
        ..before
    })
}

/// Whether `after` is the collection `before` of powers once the first
/// `n` of `marks` are applied.
pub open spec fn powers_marked(
    before: &Keyed<BasePower>,
    after: &Keyed<BasePower>,
    marks: Seq<MarkView>,
    n: nat,
) -> bool {
    &&& after.keys() == before.keys()
    &&& after.names() == before.names()
    &&& after.values().len() == before.values().len()
    &&& forall|j: int|
        0 <= j < before.values().len() ==> power_marked(
            before.values()[j],
            #[trigger] after.values()[j],
            before.keys()[j],
            marks,
            n,
        )
}

/// Includes the category under the name `key`, if there is one.
pub fn include_category(power_cats: &mut Keyed<PowerCategory>, key: &NameKey)
    requires
        old(power_cats).wf(),
    ensures
        final(power_cats).wf(),
        final(power_cats).keys() == old(power_cats).keys(),
        final(power_cats).names() == old(power_cats).names(),
        final(power_cats).values().len() == old(power_cats).values().len(),
        forall|j: int|
            0 <= j < old(power_cats).values().len() ==> #[trigger] final(power_cats).values()[j]
                == (PowerCategory {
                include_in_output: old(power_cats).values()[j].include_in_output || old(
                    power_cats,
                ).keys()[j] == key.norm(),
                ..old(power_cats).values()[j]
            }),
{
    proof {
        old(power_cats).lemma_wf();
    }
    match power_cats.find(key) {
        Some(i) => {
            let pcat = power_cats.at_mut(i);
            pcat.include_in_output = true;
        },
        None => {},
    }
}

/// Includes the power set under the name `key`, if there is one.
pub fn include_set(power_sets: &mut Keyed<BasePowerSet>, key: &NameKey)
    requires
        old(power_sets).wf(),
    ensures
        final(power_sets).wf(),
        final(power_sets).keys() == old(power_sets).keys(),
        final(power_sets).names() == old(power_sets).names(),
        final(power_sets).values().len() == old(power_sets).values().len(),
        forall|j: int|
            0 <= j < old(power_sets).values().len() ==> #[trigger] final(power_sets).values()[j]
                == (BasePowerSet {
                include_in_output: old(power_sets).values()[j].include_in_output || old(
                    power_sets,
                ).keys()[j] == key.norm(),
                ..old(power_sets).values()[j]
            }),
{
    proof {
        old(power_sets).lemma_wf();
    }
    match power_sets.find(key) {
        Some(i) => {
            let pset = power_sets.at_mut(i);
            pset.include_in_output = true;
        },
        None => {},
    }
}

/// Whether the power `after` is the power `before` once it is included
/// with the given archetypes added to its own, where `hit` holds, and the
/// power `before` itself where it does not.
#[verifier::opaque]
pub open spec fn power_included(
    before: BasePower,
    after: BasePower,
    hit: bool,
    archetypes: Seq<ArchetypeRef>,
) -> bool {
    &&& after.include_in_output == (before.include_in_output || hit)
    &&& after.archetypes@ == (if hit {
        merged(before.archetypes@, archetypes, archetypes.len())
    } else {
        before.archetypes@
    })
    &&& after == (BasePower {
        include_in_output: after.include_in_output,
        archetypes: after.archetypes,
        ..before
    })
}

/// A power that is included by one mark is marked by the list of that
/// mark.
pub proof fn lemma_one_mark(
    before: BasePower,
    after: BasePower,
    key: Seq<char>,
    name: Seq<char>,
    archetypes: Seq<ArchetypeRef>,
)
    requires
        power_included(before, after, key == fold(name), archetypes),
    ensures
        power_marked(before, after, key, seq![MarkView { name, archetypes }], 1),
{
    reveal(power_included);
    reveal(power_marked);
    let marks = seq![MarkView { name, archetypes }];
    assert(power_hit(marks, key, 0) == false);
    assert(archetypes_after(before.archetypes@, marks, key, 0) == before.archetypes@);
}

/// Includes `power`, and adds to its archetypes those of `archetypes` that
/// it does not have yet.
pub fn set_included(power: &mut BasePower, archetypes: &Vec<ArchetypeRef>)
    ensures
        power_included(*old(power), *final(power), true, archetypes@),
{
    reveal(power_included);
    power.include_in_output = true;
    // copy archetypes from the power that referenced this one
    merge_refs(&mut power.archetypes, archetypes);
}

/// A power that is left as it is, is as if it were not hit.
pub proof fn lemma_power_not_hit(power: BasePower, archetypes: Seq<ArchetypeRef>)
    ensures
        power_included(power, power, false, archetypes),
{
    reveal(power_included);
}

/// Includes the power under the name `key`, if there is one, and adds to
/// its archetypes those of `archetypes` that it does not have yet.
pub fn include_power(powers: &mut Keyed<BasePower>, key: &NameKey, archetypes: &Vec<ArchetypeRef>)
    requires
        old(powers).wf(),
    ensures
        final(powers).wf(),
        final(powers).keys() == old(powers).keys(),
        final(powers).names() == old(powers).names(),
        final(powers).values().len() == old(powers).values().len(),
        forall|j: int|
            0 <= j < old(powers).values().len() ==> power_included(
                old(powers).values()[j],
                #[trigger] final(powers).values()[j],
                old(powers).keys()[j] == key.norm(),
                archetypes@,
            ),
{
    proof {
        old(powers).lemma_wf();
    }
    match powers.find(key) {
        Some(i) => {
            let power = powers.at_mut(i);
            set_included(power, archetypes);
        },
        None => {},
    }
    proof {
        assert forall|j: int| 0 <= j < old(powers).values().len() implies power_included(
            old(powers).values()[j],
            #[trigger] powers.values()[j],
            old(powers).keys()[j] == key.norm(),
            archetypes@,
        ) by {
            if old(powers).keys()[j] != key.norm() {
                lemma_power_not_hit(old(powers).values()[j], archetypes@);
            }
        }
    }
}

/// Mark the three parts that `power_ref` names, the category, the power
/// set and the power, to be included. A part that is not found is passed
/// over. The power gets the archetypes that it does not have yet.
pub fn mark_power_for_inclusion(
    power_ref: &NameKey,
    archetypes: &Vec<ArchetypeRef>,
    power_cats: &mut Keyed<PowerCategory>,
    power_sets: &mut Keyed<BasePowerSet>,
    powers: &mut Keyed<BasePower>,
)
    requires
        old(power_cats).wf(),
        old(power_sets).wf(),
        old(powers).wf(),
        well_named(power_ref@),
    ensures
        final(power_cats).wf(),
        final(power_sets).wf(),
        final(powers).wf(),
        categories_marked(
            old(power_cats),
            final(power_cats),
            seq![MarkView { name: power_ref@, archetypes: archetypes@ }],
            1,
        ),
        sets_marked(
            old(power_sets),
            final(power_sets),
            seq![MarkView { name: power_ref@, archetypes: archetypes@ }],
            1,
        ),
        powers_marked(
            old(powers),
            final(powers),
            seq![MarkView { name: power_ref@, archetypes: archetypes@ }],
            1,
        ),
{
    let ghost marks = seq![MarkView { name: power_ref@, archetypes: archetypes@ }];
    let name_parts = power_ref.split();
    // include power category
    let category = NameKey::new(name_parts[0].as_str());
    include_category(power_cats, &category);
    // include power set
    let mut first_two_parts = name_parts[0].clone();
    first_two_parts.append(".");
    first_two_parts.append(name_parts[1].as_str());
    proof {
        reveal_strlit(".");
        assert("."@ =~= seq![separator()]);
    }
    let set = NameKey::new(first_two_parts.as_str());
    include_set(power_sets, &set);
    // include power
    include_power(powers, power_ref, archetypes);
    proof {
        assert forall|j: int| 0 <= j < old(power_cats).values().len() implies category_hit(
            marks,
            #[trigger] old(power_cats).keys()[j],
            1,
        ) == (old(power_cats).keys()[j] == category.norm()) by {
            assert(category_hit(marks, old(power_cats).keys()[j], 0) == false);
        }
        assert forall|j: int| 0 <= j < old(power_sets).values().len() implies set_hit(
            marks,
            #[trigger] old(power_sets).keys()[j],
            1,
        ) == (old(power_sets).keys()[j] == set.norm()) by {
            assert(set_hit(marks, old(power_sets).keys()[j], 0) == false);
        }
        assert forall|j: int| 0 <= j < old(powers).values().len() implies power_marked(
            old(powers).values()[j],
            #[trigger] powers.values()[j],
            old(powers).keys()[j],
            marks,
            1,
        ) by {
            let key = old(powers).keys()[j];
            lemma_one_mark(
                old(powers).values()[j],
                powers.values()[j],
                key,
                power_ref@,
                archetypes@,
            );
        }
    }
}

/// Marks applied one after another are the marks of the list applied
/// together.
pub proof fn lemma_power_marked_step(
    before: BasePower,
    middle: BasePower,
    after: BasePower,
    key: Seq<char>,
    marks: Seq<MarkView>,
    n: nat,
)
    requires
        n < marks.len(),
        power_marked(before, middle, key, marks, n),
        power_marked(middle, after, key, seq![marks[n as int]], 1),
    ensures
        power_marked(before, after, key, marks, n + 1),
{
    reveal(power_marked);
    let one = seq![marks[n as int]];
    assert(power_hit(one, key, 0) == false);
    assert(archetypes_after(middle.archetypes@, one, key, 0) == middle.archetypes@);
}

/// No marks leave a power as it is.
pub proof fn lemma_power_marked_none(power: BasePower, key: Seq<char>, marks: Seq<MarkView>)
    ensures
        power_marked(power, power, key, marks, 0),
{
    reveal(power_marked);
}

/// Applies the marks in their order: see `mark_power_for_inclusion`.
pub fn apply_marks(
    marks: &Vec<Mark>,
    power_cats: &mut Keyed<PowerCategory>,
    power_sets: &mut Keyed<BasePowerSet>,
    powers: &mut Keyed<BasePower>,
)
    requires
        old(power_cats).wf(),
        old(power_sets).wf(),
        old(powers).wf(),
        marks_well_named(marks.deep_view()),
    ensures
        final(power_cats).wf(),
        final(power_sets).wf(),
        final(powers).wf(),
        categories_marked(old(power_cats), final(power_cats), marks.deep_view(), marks@.len()),
        sets_marked(old(power_sets), final(power_sets), marks.deep_view(), marks@.len()),
        powers_marked(old(powers), final(powers), marks.deep_view(), marks@.len()),
{
    let ghost all = marks.deep_view();
    let mut i: usize = 0;
    proof {
        assert forall|j: int| 0 <= j < old(powers).values().len() implies power_marked(
            old(powers).values()[j],
            #[trigger] powers.values()[j],
            old(powers).keys()[j],
            all,
            0,
        ) by {
            lemma_power_marked_none(old(powers).values()[j], old(powers).keys()[j], all);
        }
    }
    while i < marks.len()
        invariant
            i <= marks.len(),
            all == marks.deep_view(),
            marks_well_named(all),
            power_cats.wf(),
            power_sets.wf(),
            powers.wf(),
            categories_marked(old(power_cats), power_cats, all, i as nat),
            sets_marked(old(power_sets), power_sets, all, i as nat),
            powers_marked(old(powers), powers, all, i as nat),
        decreases marks.len() - i,
    {
        let ghost cats_before = *power_cats;
        let ghost powers_before = *powers;
        let ghost one = seq![MarkView { name: marks[i as int].name@, archetypes: marks[i as int].archetypes@ }];
        assert(all[i as int] == marks[i as int]@);
        mark_power_for_inclusion(
            &marks[i].name,
            &marks[i].archetypes,
            power_cats,
            power_sets,
            powers,
        );
        proof {
            assert forall|j: int| 0 <= j < old(power_cats).values().len() implies #[trigger] power_cats.values()[j]
                == (PowerCategory {
                include_in_output: old(power_cats).values()[j].include_in_output || category_hit(
                    all,
                    old(power_cats).keys()[j],
                    (i + 1) as nat,
                ),
                ..old(power_cats).values()[j]
            }) by {
                let key = old(power_cats).keys()[j];
                assert(category_hit(one, key, 0) == false);
                assert(power_cats.values()[j] == (PowerCategory {
                    include_in_output: cats_before.values()[j].include_in_output || category_hit(
                        one,
                        key,
                        1,
                    ),
                    ..cats_before.values()[j]
                }));
            }
            assert forall|j: int| 0 <= j < old(power_sets).values().len() implies #[trigger] power_sets.values()[j]
                == (BasePowerSet {
                include_in_output: old(power_sets).values()[j].include_in_output || set_hit(
                    all,
                    old(power_sets).keys()[j],
                    (i + 1) as nat,
                ),
                ..old(power_sets).values()[j]
            }) by {
                let key = old(power_sets).keys()[j];
                assert(set_hit(one, key, 0) == false);
            }
            assert forall|j: int| 0 <= j < old(powers).values().len() implies power_marked(
                old(powers).values()[j],
                #[trigger] powers.values()[j],
                old(powers).keys()[j],
                all,
                (i + 1) as nat,
            ) by {
                lemma_power_marked_step(
                    old(powers).values()[j],
                    powers_before.values()[j],
                    powers.values()[j],
                    old(powers).keys()[j],
                    all,
                    i as nat,
                );
            }
        }
        i = i + 1;
    }
}

/// A count that does not fit the machine's numbers counts as the greatest
/// of them.
pub open spec fn clipped(count: nat) -> usize {
    if count > usize::MAX {
        usize::MAX
    } else {
        count as usize
    }
}

/// One more than `count`, or the greatest number.
pub fn one_more(count: usize) -> (more: usize)
    ensures
        more == clipped((count + 1) as nat),
{
    if count < usize::MAX {
        count + 1
    } else {
        count
    }
}

} // verus!
