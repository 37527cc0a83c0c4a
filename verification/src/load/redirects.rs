//! The redirects of powers: a redirect names another power to use.

use super::marks::{
    apply_marks, categories_marked, clipped, lemma_marks_named_joined, marks_well_named,
    one_more, power_marked, sets_marked, well_named, Mark, MarkView,
};
use crate::structs::keyed::Keyed;
use crate::structs::powers::{BasePower, BasePowerSet, PowerCategory};
use vstd::prelude::*;

verus! {

/// Whether the power still has redirects to follow: it is included and
/// its redirects have not been followed.
pub open spec fn due(power: BasePower) -> bool {
    power.include_in_output && !power.redirects_resolved
}

/// The marks of the first `n` redirects of `power`: one for each redirect
/// that names a power by its full name, with the archetypes of `power`.
pub open spec fn redirect_marks_of(power: BasePower, n: nat) -> Seq<MarkView>
    decreases n,
{
    if n == 0 || n > power.pp_redirect@.len() {
        Seq::empty()
    } else {
        match power.pp_redirect@[n - 1].pch_name {
            Some(name) => if well_named(name@) {
                redirect_marks_of(power, (n - 1) as nat).push(
                    MarkView { name: name@, archetypes: power.archetypes@ },
                )
            } else {
                redirect_marks_of(power, (n - 1) as nat)
            },
            None => redirect_marks_of(power, (n - 1) as nat),
        }
    }
}

/// The marks of the redirects of the first `n` of `powers`: those of each
/// power that has redirects to follow.
pub open spec fn redirect_marks(powers: Seq<BasePower>, n: nat) -> Seq<MarkView>
    decreases n,
{
    if n == 0 || n > powers.len() {
        Seq::empty()
    } else if due(powers[n - 1]) {
        redirect_marks(powers, (n - 1) as nat) + redirect_marks_of(
            powers[n - 1],
            powers[n - 1].pp_redirect@.len(),
        )
    } else {
        redirect_marks(powers, (n - 1) as nat)
    }
}

/// How many of the first `n` of `powers` have redirects to follow.
pub open spec fn due_count(powers: Seq<BasePower>, n: nat) -> nat
    decreases n,
{
    if n == 0 || n > powers.len() {
        0
    } else if due(powers[n - 1]) {
        due_count(powers, (n - 1) as nat) + 1
    } else {
        due_count(powers, (n - 1) as nat)
    }
}

/// The power after its redirects were followed, where `followed` holds.
pub open spec fn with_redirects_resolved(power: BasePower, followed: bool) -> BasePower {
    BasePower { redirects_resolved: power.redirects_resolved || followed, ..power }
}

/// Notes that the redirects of `power` have been followed.
pub fn set_redirects_resolved(power: &mut BasePower)
    ensures
        *final(power) == with_redirects_resolved(*old(power), true),
{
    power.redirects_resolved = true;
}

/// The marks of the redirects of `power`.
pub fn collect_redirects(power: &BasePower, marks: &mut Vec<Mark>)
    ensures
        final(marks).deep_view() == old(marks).deep_view() + redirect_marks_of(
            *power,
            power.pp_redirect@.len(),
        ),
{
    let mut k: usize = 0;
    while k < power.pp_redirect.len()
        invariant
            k <= power.pp_redirect.len(),
            marks.deep_view() == old(marks).deep_view() + redirect_marks_of(*power, k as nat),
        decreases power.pp_redirect.len() - k,
    {
        let ghost before = marks.deep_view();
        match &power.pp_redirect[k].pch_name {
            Some(name) => {
                match Mark::new(name, &power.archetypes) {
                    Some(mark) => {
                        marks.push(mark);
                        assert(marks.deep_view() =~= before.push(mark@));
                    },
                    None => {},
                }
            },
            None => {},
        }
        k = k + 1;
    }
}

/// The marks of redirects are well named.
pub proof fn lemma_redirect_marks_named(powers: Seq<BasePower>, n: nat)
    ensures
        marks_well_named(redirect_marks(powers, n)),
    decreases n,
{
    if n > 0 && n <= powers.len() {
        lemma_redirect_marks_named(powers, (n - 1) as nat);
        lemma_redirect_marks_of_named(powers[n - 1], powers[n - 1].pp_redirect@.len());
        lemma_marks_named_joined(
            redirect_marks(powers, (n - 1) as nat),
            redirect_marks_of(powers[n - 1], powers[n - 1].pp_redirect@.len()),
        );
    }
}

/// The marks of the redirects of one power are well named.
pub proof fn lemma_redirect_marks_of_named(power: BasePower, n: nat)
    ensures
        marks_well_named(redirect_marks_of(power, n)),
    decreases n,
{
    if n > 0 && n <= power.pp_redirect@.len() {
        lemma_redirect_marks_of_named(power, (n - 1) as nat);
    }
}

/// Whether the second three collections are the first three once the
/// redirects of the powers are followed: see `resolve_power_redirects`.
pub open spec fn redirects_followed(
    cats_before: &Keyed<PowerCategory>,
    sets_before: &Keyed<BasePowerSet>,
    powers_before: &Keyed<BasePower>,
    cats_after: &Keyed<PowerCategory>,
    sets_after: &Keyed<BasePowerSet>,
    powers_after: &Keyed<BasePower>,
) -> bool {
    let marks = redirect_marks(powers_before.values(), powers_before.values().len());
    &&& categories_marked(cats_before, cats_after, marks, marks.len())
    &&& sets_marked(sets_before, sets_after, marks, marks.len())
    &&& powers_after.keys() == powers_before.keys()
    &&& powers_after.names() == powers_before.names()
    &&& powers_after.values().len() == powers_before.values().len()
    &&& forall|j: int|
        0 <= j < powers_before.values().len() ==> power_marked(
            with_redirects_resolved(powers_before.values()[j], due(powers_before.values()[j])),
            #[trigger] powers_after.values()[j],
            powers_before.keys()[j],
            marks,
            marks.len(),
        )
}

/// Follows the redirects of the powers, in two steps. First every power
/// that is included and whose redirects were not followed before is noted
/// as followed, and the powers that its redirects name are listed, each
/// with the archetypes that the redirecting power has at this time; a
/// redirect whose name is no full name of a power refers to nothing. Then
/// the listed powers are included, with their power sets and categories:
/// see `mark_power_for_inclusion`. So a power that is included here has
/// its own redirects followed by the next call. Returns the number of
/// powers whose redirects were followed.
pub fn resolve_power_redirects(
    powers: &mut Keyed<BasePower>,
    power_cats: &mut Keyed<PowerCategory>,
    power_sets: &mut Keyed<BasePowerSet>,
) -> (count_resolved: usize)
    requires
        old(power_cats).wf(),
        old(power_sets).wf(),
        old(powers).wf(),
    ensures
        final(power_cats).wf(),
        final(power_sets).wf(),
        final(powers).wf(),
        count_resolved == clipped(due_count(old(powers).values(), old(powers).values().len())),
        redirects_followed(
            old(power_cats),
            old(power_sets),
            old(powers),
            final(power_cats),
            final(power_sets),
            final(powers),
        ),
{
    let ghost start = old(powers).values();
    let n = powers.len();
    let mut marks: Vec<Mark> = Vec::new();
    let mut count_resolved: usize = 0;
    let mut i: usize = 0;
    while i < n
        invariant
            i <= n,
            n == start.len(),
            powers.wf(),
            powers.keys() == old(powers).keys(),
            powers.names() == old(powers).names(),
            powers.values().len() == n,
            forall|j: int|
                0 <= j < i ==> #[trigger] powers.values()[j] == with_redirects_resolved(
                    start[j],
                    due(start[j]),
                ),
            forall|j: int| i <= j < n ==> #[trigger] powers.values()[j] == start[j],
            marks.deep_view() == redirect_marks(start, i as nat),
            count_resolved == clipped(due_count(start, i as nat)),
        decreases n - i,
    {
        let power = powers.at(i);
        if power.include_in_output && !power.redirects_resolved {
            // inspect redirects and look at what we need to keep
            collect_redirects(power, &mut marks);
            let power = powers.at_mut(i);
            set_redirects_resolved(power);
            count_resolved = one_more(count_resolved);
        }
        i = i + 1;
    }
    proof {
        lemma_redirect_marks_named(start, n as nat);
    }
    apply_marks(&marks, power_cats, power_sets, powers);
    count_resolved
}

} // verus!
