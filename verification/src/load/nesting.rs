//! Names that agree with the hierarchy: what the files must hold so that
//! every included power has its power set and its category included.

use super::cascade::{nominal, nothing_included};
use super::hierarchy::{
    archetypes_matched, enh_categories_matched, excluded, positions_of, power_sets_linked,
    powers_linked,
};
use super::marks::{category_key, dotted, lemma_owner_keys, set_key, well_named};
use super::seeding::among;
use crate::structs::archetype::Archetype;
use crate::structs::boosts::BoostSet;
use crate::structs::config::PowersConfig;
use crate::structs::keyed::{position_in, Keyed, Listing};
use crate::structs::namekey::{
    first_segment, fold, lemma_first_segment, lemma_segments_fold, segments, separator,
};
use crate::structs::powers::{BasePower, BasePowerSet, PowerCategory};
use vstd::prelude::*;

verus! {

/// Whether the names in the collections agree with the hierarchy: each
/// power set calls its powers by full names that begin with its own name,
/// and each category lists power sets whose names begin with its own.
pub open spec fn named_after_owners(
    power_cats: &Keyed<PowerCategory>,
    power_sets: &Keyed<BasePowerSet>,
) -> bool {
    &&& forall|s: int, k: int|
        0 <= s < power_sets.values().len() && 0 <= k
            < power_sets.values()[s].pp_power_names.deep_view().len() ==> well_named(
            #[trigger] power_sets.values()[s].pp_power_names.deep_view()[k],
        ) && set_key(power_sets.values()[s].pp_power_names.deep_view()[k])
            == power_sets.keys()[s]
    &&& forall|c: int, k: int|
        0 <= c < power_cats.values().len() && 0 <= k
            < power_cats.values()[c].ppch_power_set_names.deep_view().len() ==> category_key(
            #[trigger] power_cats.values()[c].ppch_power_set_names.deep_view()[k],
        ) == power_cats.keys()[c]
}

/// No separator stands in the first segment of a text.
pub proof fn lemma_first_segment_plain(text: Seq<char>)
    ensures
        forall|j: int|
            0 <= j < first_segment(text).len() ==> #[trigger] first_segment(text)[j]
                != separator(),
    decreases text.len(),
{
    if text.len() > 0 && text[0] != separator() {
        let rest = first_segment(text.drop_first());
        lemma_first_segment_plain(text.drop_first());
        assert forall|j: int| 0 <= j < first_segment(text).len() implies #[trigger] first_segment(
            text,
        )[j] != separator() by {
            if j > 0 {
                assert(first_segment(text)[j] == rest[j - 1]);
            }
        }
    }
}

/// A name that, but for its case, is the name of the power set of a
/// power begins with the name of the category of that power.
pub proof fn lemma_set_category(set_name: Seq<char>, power_name: Seq<char>)
    requires
        well_named(power_name),
        fold(set_name) == set_key(power_name),
    ensures
        category_key(set_name) == category_key(power_name),
{
    let head = segments(power_name)[0];
    let joined = dotted(head, segments(power_name)[1]);
    lemma_first_segment_plain(power_name);
    assert(head == first_segment(power_name));
    assert(joined[head.len() as int] == separator());
    assert forall|j: int| 0 <= j < head.len() implies joined[j] != separator() by {
        assert(joined[j] == head[j]);
    }
    lemma_first_segment(joined, head.len() as int);
    assert(joined.subrange(0, head.len() as int) =~= head);
    assert(segments(joined)[0] == first_segment(joined));
    assert(segments(set_name)[0] == first_segment(set_name));
    lemma_segments_fold(joined);
    lemma_segments_fold(set_name);
    assert(segments(fold(joined))[0] == fold(segments(joined)[0]));
    assert(segments(fold(set_name))[0] == fold(segments(set_name)[0]));
}

/// Each of the positions of the names that are found is the position of
/// one of the names.
pub proof fn lemma_position_source(keys: Seq<Seq<char>>, names: Seq<Seq<char>>, n: nat, m: int)
    requires
        keys.len() <= usize::MAX,
        0 <= m < positions_of(keys, names, n).len(),
    ensures
        exists|k: int|
            0 <= k < n && k < names.len() && position_in(keys, fold(#[trigger] names[k])) == Some(
                positions_of(keys, names, n)[m] as int,
            ),
    decreases n,
{
    let before = positions_of(keys, names, (n - 1) as nat);
    let found = position_in(keys, fold(names[n - 1]));
    if found is Some && m == before.len() {
        assert(positions_of(keys, names, n) == before.push(found->0 as usize));
        assert(position_in(keys, fold(names[n - 1])) == Some(
            positions_of(keys, names, n)[m] as int,
        ));
    } else {
        lemma_position_source(keys, names, (n - 1) as nat, m);
        let k = choose|k: int|
            0 <= k < n - 1 && k < names.len() && position_in(keys, fold(#[trigger] names[k]))
                == Some(before[m] as int);
        assert(position_in(keys, fold(names[k])) == Some(positions_of(keys, names, n)[m] as int));
    }
}

/// What is among the first `n` of a list stands at one of its first `n`
/// places.
pub proof fn lemma_among_place(list: Seq<usize>, x: int, n: nat)
    requires
        among(list, x, n),
    ensures
        exists|m: int| 0 <= m < n && m < list.len() && #[trigger] list[m] == x,
    decreases n,
{
    if n > 0 && n <= list.len() && list[n - 1] != x {
        lemma_among_place(list, x, (n - 1) as nat);
    }
}

/// Each entry of a listing of kept entries is an entry of the listing
/// that they were kept from.
pub proof fn lemma_kept_source<T>(all: Listing<T>, keep: Seq<bool>, n: nat, j: int)
    requires
        0 <= j < all.kept(keep, n).values.len(),
    ensures
        all.kept(keep, n).keys.len() == all.kept(keep, n).values.len(),
        exists|i: int|
            0 <= i < n && i < all.values.len() && i < all.keys.len() && #[trigger] all.values[i]
                == all.kept(keep, n).values[j] && all.keys[i] == all.kept(keep, n).keys[j],
    decreases n,
{
    lemma_kept_lengths(all, keep, n);
    let before = all.kept(keep, (n - 1) as nat);
    lemma_kept_lengths(all, keep, (n - 1) as nat);
    if keep[n - 1] && j == before.values.len() {
        assert(all.values[n - 1] == all.kept(keep, n).values[j]);
    } else {
        lemma_kept_source(all, keep, (n - 1) as nat, j);
        let i = choose|i: int|
            0 <= i < n - 1 && i < all.values.len() && i < all.keys.len() && #[trigger] all.values[i]
                == before.values[j] && all.keys[i] == before.keys[j];
        assert(all.values[i] == all.kept(keep, n).values[j]);
    }
}

/// A listing of kept entries has as many names as entities.
pub proof fn lemma_kept_lengths<T>(all: Listing<T>, keep: Seq<bool>, n: nat)
    ensures
        all.kept(keep, n).keys.len() == all.kept(keep, n).values.len(),
    decreases n,
{
    if n > 0 {
        lemma_kept_lengths(all, keep, (n - 1) as nat);
    }
}

/// Where each power set calls its powers by names that begin with its own
/// and each category lists power sets whose names begin with its own, the
/// names agree with the hierarchy once the power sets have the positions
/// of their powers and the categories those of their power sets.
pub proof fn lemma_linked_nominal(
    powers: &Keyed<BasePower>,
    filtered: &Keyed<BasePowerSet>,
    sets: &Keyed<BasePowerSet>,
    matched: &Keyed<PowerCategory>,
    categories: &Keyed<PowerCategory>,
)
    requires
        powers.wf(),
        powers.keys().len() <= usize::MAX,
        sets.keys().len() <= usize::MAX,
        powers_linked(powers, filtered, sets),
        power_sets_linked(sets, matched, categories),
        named_after_owners(matched, filtered),
    ensures
        nominal(categories, sets, powers),
{
    powers.lemma_wf();
    assert forall|c: int, s: int, p: int|
        #![trigger among(categories.values()[c].pp_power_sets@, s, categories.values()[c].pp_power_sets@.len()), among(sets.values()[s].pp_powers@, p, sets.values()[s].pp_powers@.len())]
        0 <= c < categories.values().len() && 0 <= s < sets.values().len() && 0 <= p
            < powers.values().len() && among(
            categories.values()[c].pp_power_sets@,
            s,
            categories.values()[c].pp_power_sets@.len(),
        ) && among(
            sets.values()[s].pp_powers@,
            p,
            sets.values()[s].pp_powers@.len(),
        ) implies well_named(powers.names()[p]) && sets.keys()[s] == set_key(powers.names()[p])
        && categories.keys()[c] == category_key(powers.names()[p]) by {
        // the power set lists a name that leads to the power
        let listed = filtered.values()[s].pp_power_names.deep_view();
        let places = sets.values()[s].pp_powers@;
        assert(places == positions_of(powers.keys(), listed, listed.len()));
        lemma_among_place(places, p, places.len());
        let m = choose|m: int| 0 <= m < places.len() && #[trigger] places[m] == p;
        lemma_position_source(powers.keys(), listed, listed.len(), m);
        let k = choose|k: int|
            0 <= k < listed.len() && position_in(powers.keys(), fold(#[trigger] listed[k]))
                == Some(places[m] as int);
        assert(powers.keys()[p] == fold(listed[k]));
        lemma_owner_keys(listed[k], powers.names()[p]);
        // the category lists a name that leads to the power set
        let set_names = matched.values()[c].ppch_power_set_names.deep_view();
        let set_places = categories.values()[c].pp_power_sets@;
        assert(set_places == positions_of(sets.keys(), set_names, set_names.len()));
        lemma_among_place(set_places, s, set_places.len());
        let m2 = choose|m: int| 0 <= m < set_places.len() && #[trigger] set_places[m] == s;
        lemma_position_source(sets.keys(), set_names, set_names.len(), m2);
        let k2 = choose|k: int|
            0 <= k < set_names.len() && position_in(sets.keys(), fold(#[trigger] set_names[k]))
                == Some(set_places[m2] as int);
        assert(sets.keys()[s] == fold(set_names[k2]));
        lemma_set_category(set_names[k2], powers.names()[p]);
    }
}

/// The steps before the powers of the top level are included include
/// nothing, and keep the names of the power sets and of what they and the
/// categories list.
pub proof fn lemma_linked_fresh(
    archetypes: &Keyed<Archetype>,
    boost_sets: &Keyed<BoostSet>,
    config: &PowersConfig,
    power_cats: &Keyed<PowerCategory>,
    power_sets: &Keyed<BasePowerSet>,
    powers: &Keyed<BasePower>,
    keep: Seq<bool>,
    matched: &Keyed<PowerCategory>,
    allowed: &Keyed<BasePower>,
    filtered: &Keyed<BasePowerSet>,
    sets: &Keyed<BasePowerSet>,
    categories: &Keyed<PowerCategory>,
)
    requires
        archetypes_matched(archetypes, config, power_cats, matched),
        enh_categories_matched(boost_sets, powers, allowed),
        filtered@ == power_sets@.kept(keep, power_sets.keys().len()),
        powers_linked(allowed, filtered, sets),
        power_sets_linked(sets, matched, categories),
        nothing_included(power_cats, power_sets, powers),
        named_after_owners(power_cats, power_sets),
    ensures
        nothing_included(categories, sets, allowed),
        named_after_owners(matched, filtered),
{
    assert forall|s: int| 0 <= s < filtered.values().len() implies !(
    #[trigger] filtered.values()[s]).include_in_output && (forall|k: int|
        0 <= k < filtered.values()[s].pp_power_names.deep_view().len() ==> well_named(
            #[trigger] filtered.values()[s].pp_power_names.deep_view()[k],
        ) && set_key(filtered.values()[s].pp_power_names.deep_view()[k])
            == filtered.keys()[s]) by {
        lemma_kept_source(power_sets@, keep, power_sets.keys().len(), s);
    }
    assert forall|s: int| 0 <= s < sets.values().len() implies !(
    #[trigger] sets.values()[s]).include_in_output by {
        assert(!filtered.values()[s].include_in_output);
    }
    assert forall|c: int| 0 <= c < categories.values().len() implies !(
    #[trigger] categories.values()[c]).include_in_output by {
        assert(matched.values()[c].include_in_output == power_cats.values()[c].include_in_output);
    }
    assert forall|p: int| 0 <= p < allowed.values().len() implies !(
    #[trigger] allowed.values()[p]).include_in_output by {
        assert(allowed.values()[p].include_in_output == powers.values()[p].include_in_output);
    }
    assert forall|c: int, k: int|
        0 <= c < matched.values().len() && 0 <= k
            < matched.values()[c].ppch_power_set_names.deep_view().len() implies category_key(
        #[trigger] matched.values()[c].ppch_power_set_names.deep_view()[k],
    ) == matched.keys()[c] by {
        assert(matched.values()[c].ppch_power_set_names
            == power_cats.values()[c].ppch_power_set_names);
    }
}

/// What stands at one of the first `n` places of a list is among its
/// first `n`.
pub proof fn lemma_among_at(list: Seq<usize>, m: int, n: nat)
    requires
        0 <= m < n <= list.len(),
    ensures
        among(list, list[m] as int, n),
    decreases n,
{
    if m < n - 1 {
        lemma_among_at(list, m, (n - 1) as nat);
    }
}

/// The position of a name that is found is among the positions of the
/// names that are found.
pub proof fn lemma_position_listed(keys: Seq<Seq<char>>, names: Seq<Seq<char>>, n: nat, k: int)
    requires
        keys.len() <= usize::MAX,
        0 <= k < n <= names.len(),
        position_in(keys, fold(names[k])) is Some,
    ensures
        exists|m: int|
            0 <= m < positions_of(keys, names, n).len() && #[trigger] positions_of(
                keys,
                names,
                n,
            )[m] == position_in(keys, fold(names[k]))->0,
    decreases n,
{
    let before = positions_of(keys, names, (n - 1) as nat);
    let found = position_in(keys, fold(names[n - 1]));
    if k == n - 1 {
        assert(positions_of(keys, names, n) == before.push(found->0 as usize));
        assert(positions_of(keys, names, n)[before.len() as int] == found->0);
    } else {
        lemma_position_listed(keys, names, (n - 1) as nat, k);
        let m = choose|m: int|
            0 <= m < before.len() && #[trigger] before[m] == position_in(keys, fold(names[k]))->0;
        assert(positions_of(keys, names, n)[m] == before[m]);
    }
}

/// An entry that is kept is an entry of the listing of kept entries.
pub proof fn lemma_kept_has<T>(all: Listing<T>, keep: Seq<bool>, n: nat, i: int)
    requires
        0 <= i < n,
        n <= all.values.len(),
        n <= all.keys.len(),
        n <= all.names.len(),
        n <= keep.len(),
        keep[i],
    ensures
        exists|j: int|
            0 <= j < all.kept(keep, n).values.len() && j < all.kept(keep, n).keys.len()
                && #[trigger] all.kept(keep, n).values[j] == all.values[i] && all.kept(
                keep,
                n,
            ).keys[j] == all.keys[i],
    decreases n,
{
    let before = all.kept(keep, (n - 1) as nat);
    lemma_kept_lengths(all, keep, (n - 1) as nat);
    if i == n - 1 {
        assert(all.kept(keep, n).values[before.values.len() as int] == all.values[i]);
    } else {
        lemma_kept_has(all, keep, (n - 1) as nat, i);
        let j = choose|j: int|
            0 <= j < before.values.len() && j < before.keys.len() && #[trigger] before.values[j]
                == all.values[i] && before.keys[j] == all.keys[i];
        assert(all.kept(keep, n).values[j] == all.values[i]);
    }
}

/// Whether the category at position `c` lists the power set at position
/// `s`, which the filters leave in, and that power set lists the power at
/// position `p`: each is listed by its name, whatever its case.
pub open spec fn lists_power(
    filters: Seq<Seq<char>>,
    power_cats: &Keyed<PowerCategory>,
    power_sets: &Keyed<BasePowerSet>,
    powers: &Keyed<BasePower>,
    c: int,
    s: int,
    p: int,
) -> bool {
    &&& 0 <= c < power_cats.values().len()
    &&& 0 <= s < power_sets.values().len()
    &&& 0 <= p < powers.values().len()
    &&& !excluded(power_sets.keys()[s], filters, filters.len())
    &&& exists|k: int|
        0 <= k < power_cats.values()[c].ppch_power_set_names.deep_view().len() && fold(
            #[trigger] power_cats.values()[c].ppch_power_set_names.deep_view()[k],
        ) == power_sets.keys()[s]
    &&& exists|k: int|
        0 <= k < power_sets.values()[s].pp_power_names.deep_view().len() && fold(
            #[trigger] power_sets.values()[s].pp_power_names.deep_view()[k],
        ) == powers.keys()[p]
}

} // verus!
