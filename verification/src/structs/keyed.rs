//! Collections of entities found by name.

use super::namekey::{fold, NameKey};
use vstd::hash_map::StringHashMap;
use vstd::prelude::*;

verus! {

/// The position of `key` in `keys`, if it occurs there.
pub open spec fn position_in(keys: Seq<Seq<char>>, key: Seq<char>) -> Option<int> {
    if exists|i: int| 0 <= i < keys.len() && keys[i] == key {
        Some(choose|i: int| 0 <= i < keys.len() && keys[i] == key)
    } else {
        None
    }
}

/// What a collection holds: the folded names, the names as written, and
/// the entities, all in the order in which the names first came.
pub struct Listing<T> {
    pub keys: Seq<Seq<char>>,
    pub names: Seq<Seq<char>>,
    pub values: Seq<T>,
}

impl<T> Listing<T> {
    /// The listing of nothing.
    pub open spec fn empty() -> Listing<T> {
        Listing { keys: Seq::empty(), names: Seq::empty(), values: Seq::empty() }
    }

    /// The listing of those among the first `n` entries for which `keep`
    /// holds, in their order.
    pub open spec fn kept(self, keep: Seq<bool>, n: nat) -> Listing<T>
        decreases n,
    {
        if n == 0 || n > self.values.len() || n > keep.len() || n > self.keys.len() || n
            > self.names.len() {
            Listing::empty()
        } else if keep[n - 1] {
            Listing {
                keys: self.kept(keep, (n - 1) as nat).keys.push(self.keys[n - 1]),
                names: self.kept(keep, (n - 1) as nat).names.push(self.names[n - 1]),
                values: self.kept(keep, (n - 1) as nat).values.push(self.values[n - 1]),
            }
        } else {
            self.kept(keep, (n - 1) as nat)
        }
    }

    /// The listing after `entity` is put under `name`: it replaces the
    /// entity that was under the name, or else comes last.
    pub open spec fn put(self, name: Seq<char>, entity: T) -> Listing<T> {
        match position_in(self.keys, fold(name)) {
            Some(i) => Listing { values: self.values.update(i, entity), ..self },
            None => Listing {
                keys: self.keys.push(fold(name)),
                names: self.names.push(name),
                values: self.values.push(entity),
            },
        }
    }
}

/// A collection of entities, each under a name. Names that differ only in
/// case are one name, and a name holds one entity: the one put under it
/// last. The entities stand in the order in which their names first came,
/// and each is also reached by its position, which never changes.
pub struct Keyed<T> {
    index: StringHashMap<usize>,
    names: Vec<NameKey>,
    values: Vec<T>,
}

impl<T> View for Keyed<T> {
    type V = Listing<T>;

    open spec fn view(&self) -> Listing<T> {
        Listing { keys: self.keys(), names: self.names(), values: self.values() }
    }
}

impl<T> Keyed<T> {
    /// The folded names, in the order in which they first came.
    pub closed spec fn keys(&self) -> Seq<Seq<char>> {
        Seq::new(self.names@.len(), |i: int| self.names@[i].norm())
    }

    /// The names as they were written, in the same order.
    pub closed spec fn names(&self) -> Seq<Seq<char>> {
        Seq::new(self.names@.len(), |i: int| self.names@[i]@)
    }

    /// The entities, in the order of their names.
    pub closed spec fn values(&self) -> Seq<T> {
        self.values@
    }

    /// The collection is sound: each name has one entity, no folded name
    /// occurs twice, and the index leads from each folded name to its
    /// position.
    pub closed spec fn wf(&self) -> bool {
        &&& self.names@.len() == self.values@.len()
        &&& forall|i: int|
            0 <= i < self.names@.len() ==> self.index@.contains_key(
                #[trigger] self.names@[i].norm(),
            ) && self.index@[self.names@[i].norm()] == i
        &&& forall|k: Seq<char>| #[trigger]
            self.index@.contains_key(k) ==> self.index@[k] < self.names@.len()
                && self.names@[self.index@[k] as int].norm() == k
    }

    /// The position of the entity under the folded name `key`, if there is
    /// one.
    pub open spec fn position(&self, key: Seq<char>) -> Option<int> {
        position_in(self.keys(), key)
    }

    /// The entity under `name`, if there is one.
    pub open spec fn lookup(&self, name: Seq<char>) -> Option<T> {
        match self.position(fold(name)) {
            Some(i) => Some(self.values()[i]),
            None => None,
        }
    }

    /// In a sound collection there are as many names as entities, no more
    /// than can be counted, each folded name is the folded form of the
    /// name as written, and no folded name occurs twice.
    pub proof fn lemma_wf(&self)
        requires
            self.wf(),
        ensures
            self.keys().len() == self.values().len(),
            self.names().len() == self.values().len(),
            self.values().len() <= usize::MAX,
            forall|i: int| 0 <= i < self.keys().len() ==> self.keys()[i] == fold(self.names()[i]),
            forall|i: int, j: int|
                0 <= i < self.keys().len() && 0 <= j < self.keys().len() && self.keys()[i]
                    == self.keys()[j] ==> i == j,
            forall|i: int|
                0 <= i < self.keys().len() ==> self.position(#[trigger] self.keys()[i]) == Some(i),
    {
        assert(self.values@.len() == self.values.len());
    }

    /// An entity that is put under a name is found under every name that
    /// differs from it only in case.
    pub proof fn lemma_found_whatever_the_case(
        before: &Keyed<T>,
        after: &Keyed<T>,
        name: Seq<char>,
        other: Seq<char>,
        entity: T,
    )
        requires
            before.wf(),
            after@ == before@.put(name, entity),
            fold(name) == fold(other),
        ensures
            after.lookup(other) == Some(entity),
            after.lookup(name) == Some(entity),
    {
        before.lemma_wf();
        let key = fold(name);
        match position_in(before.keys(), key) {
            Some(i) => {
                let j = position_in(after.keys(), key)->0;
            },
            None => {
                let n = before.keys().len() as int;
                assert(after.keys()[n] == key);
                let j = position_in(after.keys(), key)->0;
            },
        }
    }

    /// Creates an empty collection.
    pub fn new() -> (table: Self)
        ensures
            table.wf(),
            table@ == Listing::<T>::empty(),
    {
        let table = Keyed { index: StringHashMap::new(), names: Vec::new(), values: Vec::new() };
        proof {
            assert(table.keys() =~= Seq::<Seq<char>>::empty());
            assert(table.names() =~= Seq::<Seq<char>>::empty());
        }
        table
    }

    /// The number of entities.
    pub fn len(&self) -> (count: usize)
        requires
            self.wf(),
        ensures
            count == self.values().len(),
            count == self.keys().len(),
    {
        self.values.len()
    }

    /// The position of the entity under `name`, if there is one.
    pub fn find(&self, name: &NameKey) -> (place: Option<usize>)
        requires
            self.wf(),
        ensures
            match place {
                Some(i) => self.position(name.norm()) == Some(i as int) && i < self.values().len()
                    && self.keys()[i as int] == name.norm(),
                None => self.position(name.norm()) is None,
            },
    {
        match self.index.get(name.folded()) {
            Some(i) => {
                proof {
                    self.lemma_wf();
                    assert(self.keys()[*i as int] == name.norm());
                }
                Some(*i)
            },
            None => {
                None
            },
        }
    }

    /// Whether there is an entity under `name`.
    pub fn contains_key(&self, name: &NameKey) -> (found: bool)
        requires
            self.wf(),
        ensures
            found == (self.position(name.norm()) is Some),
    {
        self.find(name).is_some()
    }

    /// The entity under `name`, if there is one.
    pub fn get(&self, name: &NameKey) -> (entity: Option<&T>)
        requires
            self.wf(),
        ensures
            match entity {
                Some(e) => self.lookup(name@) == Some(*e),
                None => self.lookup(name@) is None,
            },
    {
        match self.find(name) {
            Some(i) => Some(&self.values[i]),
            None => None,
        }
    }

    /// The entity at position `i`.
    pub fn at(&self, i: usize) -> (entity: &T)
        requires
            self.wf(),
            i < self.values().len(),
        ensures
            *entity == self.values()[i as int],
    {
        &self.values[i]
    }

    /// The entity at position `i`, to change it. Its name and its position
    /// stay as they are.
    pub fn at_mut(&mut self, i: usize) -> (entity: &mut T)
        requires
            old(self).wf(),
            i < old(self).values().len(),
        ensures
            *entity == old(self).values()[i as int],
            final(self).wf(),
            final(self).keys() == old(self).keys(),
            final(self).names() == old(self).names(),
            final(self).values() == old(self).values().update(i as int, *final(entity)),
    {
        &mut self.values[i]
    }

    /// The name, as written, of the entity at position `i`.
    pub fn name_at(&self, i: usize) -> (name: &NameKey)
        requires
            self.wf(),
            i < self.values().len(),
        ensures
            name@ == self.names()[i as int],
            name.norm() == self.keys()[i as int],
    {
        &self.names[i]
    }

    /// The collection of the entities for which `keep` holds, in their
    /// order. The positions of the entities change.
    pub fn retain(self, keep: &Vec<bool>) -> (kept: Keyed<T>)
        requires
            self.wf(),
            keep@.len() == self.values().len(),
        ensures
            kept.wf(),
            kept@ == self@.kept(keep@, keep@.len() as nat),
    {
        let ghost whole = self@;
        proof {
            self.lemma_wf();
        }
        let Keyed { index: _, names: mut names, values: mut values } = self;
        let ghost all_names = names@;
        let ghost all_values = values@;
        let n = values.len();
        let mut names_back: Vec<NameKey> = Vec::new();
        let mut values_back: Vec<T> = Vec::new();
        let mut i: usize = n;
        while i > 0
            invariant
                i <= n,
                n == all_names.len(),
                n == all_values.len(),
                names@ == all_names.take(i as int),
                values@ == all_values.take(i as int),
                names_back@.len() == n - i,
                values_back@.len() == n - i,
                forall|k: int| 0 <= k < n - i ==> names_back@[k] == all_names[n - 1 - k],
                forall|k: int| 0 <= k < n - i ==> values_back@[k] == all_values[n - 1 - k],
            decreases i,
        {
            let name = names.pop().unwrap();
            let value = values.pop().unwrap();
            names_back.push(name);
            values_back.push(value);
            i = i - 1;
        }
        let mut kept: Keyed<T> = Keyed::new();
        let mut j: usize = 0;
        while j < n
            invariant
                j <= n,
                n == all_names.len(),
                n == all_values.len(),
                n == keep@.len(),
                whole.values == all_values,
                whole.keys.len() == n,
                whole.names.len() == n,
                forall|k: int| 0 <= k < n ==> whole.names[k] == all_names[k]@,
                forall|k: int| 0 <= k < n ==> whole.keys[k] == all_names[k].norm(),
                forall|a: int, b: int| 0 <= a < n && 0 <= b < n && whole.keys[a] == whole.keys[b] ==> a == b,
                names_back@.len() == n - j,
                values_back@.len() == n - j,
                forall|k: int| 0 <= k < n - j ==> names_back@[k] == all_names[n - 1 - k],
                forall|k: int| 0 <= k < n - j ==> values_back@[k] == all_values[n - 1 - k],
                kept.wf(),
                kept@ == whole.kept(keep@, j as nat),
                forall|k: int|
                    0 <= k < kept@.keys.len() ==> (#[trigger] position_in(
                        whole.keys,
                        kept@.keys[k],
                    )) is Some && position_in(whole.keys, kept@.keys[k])->0 < j,
            decreases n - j,
        {
            let name = names_back.pop().unwrap();
            let value = values_back.pop().unwrap();
            if keep[j] {
                proof {
                    assert(whole.keys[j as int] == name.norm());
                    assert(position_in(whole.keys, name.norm()) == Some(j as int));
                    if position_in(kept@.keys, name.norm()) is Some {
                        let k = position_in(kept@.keys, name.norm())->0;
                    }
                }
                kept.insert(name, value);
            }
            j = j + 1;
        }
        kept
    }

    /// Puts `entity` under `name`. An entity that was under the name is
    /// replaced and the name keeps its position; a new name comes last.
    pub fn insert(&mut self, name: NameKey, entity: T)
        requires
            old(self).wf(),
        ensures
            final(self).wf(),
            final(self)@ == old(self)@.put(name@, entity),
    {
        match self.find(&name) {
            Some(i) => {
                self.values[i] = entity;
            },
            None => {
                let ghost before = *self;
                let place = self.values.len();
                self.index.insert(name.folded().to_owned(), place);
                self.names.push(name);
                self.values.push(entity);
                proof {
                    assert(self.keys() =~= before.keys().push(name.norm()));
                    assert(self.names() =~= before.names().push(name@));
                    assert forall|i: int| 0 <= i < self.names@.len() implies self.index@.contains_key(
                        #[trigger] self.names@[i].norm(),
                    ) && self.index@[self.names@[i].norm()] == i by {
                        if i < place {
                            assert(before.keys()[i] == before.names@[i].norm());
                        }
                    }
                }
            },
        }
    }
}

} // verus!
