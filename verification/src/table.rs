//! Records kept by key.

use crate::address::Address;
use vstd::prelude::*;

verus! {

/// A key under which records are kept: two keys with the same identity
/// address the same record.
pub trait TableKey: Sized {
    /// What identifies the key.
    type Id;

    /// The identity of the key.
    spec fn id(&self) -> Self::Id;

    /// Whether two keys have the same identity.
    fn same(&self, other: &Self) -> (equal: bool)
        ensures
            equal == (self.id() == other.id()),
    ;
}

impl TableKey for Address {
    type Id = Address;

    open spec fn id(&self) -> Address {
        *self
    }

    fn same(&self, other: &Address) -> (equal: bool) {
        self.same_as(other)
    }
}

/// A finite map from keys to records, held as a list of entries in which no
/// key occurs twice.
pub struct Table<K: TableKey, V> {
    entries: Vec<(K, V)>,
}

/// Entry `i` of `entries` is the one kept for the key identified by `id`.
pub open spec fn entry_for<K: TableKey, V>(entries: Seq<(K, V)>, i: int, id: K::Id) -> bool {
    0 <= i < entries.len() && entries[i].0.id() == id
}

impl<K: TableKey, V> View for Table<K, V> {
    type V = Map<K::Id, V>;

    closed spec fn view(&self) -> Map<K::Id, V> {
        Map::new(
            |id: K::Id| exists|i: int| entry_for(self.entries@, i, id),
            |id: K::Id| self.entries@[choose|i: int| entry_for(self.entries@, i, id)].1,
        )
    }
}

impl<K: TableKey, V> Table<K, V> {
    /// No key has two entries.
    pub closed spec fn wf(&self) -> bool {
        forall|i: int, j: int|
            0 <= i < j < self.entries.len() ==> self.entries[i].0.id() != self.entries[j].0.id()
    }

    /// The entries in the order in which their keys were first inserted.
    pub closed spec fn listing(&self) -> Seq<(K, V)> {
        self.entries@
    }

    /// Under `wf`, the listing and the view show the same records: each
    /// entry of the listing is the record that the view keeps for its key,
    /// and no key is listed twice.
    pub proof fn lemma_listing(&self, i: int)
        requires
            self.wf(),
            0 <= i < self.listing().len(),
        ensures
            self@.contains_key(self.listing()[i].0.id()),
            self@[self.listing()[i].0.id()] == self.listing()[i].1,
            forall|j: int|
                0 <= j < self.listing().len() && j != i ==> self.listing()[j].0.id()
                    != self.listing()[i].0.id(),
    {
        let id = self.entries[i].0.id();
        assert(entry_for(self.entries@, i, id));
        let chosen = choose|c: int| entry_for(self.entries@, c, id);
        assert(chosen == i);
    }

    /// Every record of the view is listed.
    pub proof fn lemma_listed(&self, id: K::Id) -> (i: int)
        requires
            self@.contains_key(id),
        ensures
            0 <= i < self.listing().len(),
            self.listing()[i].0.id() == id,
    {
        choose|i: int| entry_for(self.entries@, i, id)
    }

    /// The empty table.
    pub fn new() -> (table: Table<K, V>)
        ensures
            table.wf(),
            table@ == Map::<K::Id, V>::empty(),
            table.listing() == Seq::<(K, V)>::empty(),
    {
        let table = Table { entries: Vec::new() };
        assert(table@ =~= Map::<K::Id, V>::empty());
        table
    }

    /// The number of records.
    pub fn len(&self) -> (len: usize)
        ensures
            len == self.listing().len(),
    {
        self.entries.len()
    }

    /// Entry `i` of the listing.
    pub fn entry(&self, i: usize) -> (entry: (&K, &V))
        requires
            i < self.listing().len(),
        ensures
            *entry.0 == self.listing()[i as int].0,
            *entry.1 == self.listing()[i as int].1,
    {
        (&self.entries[i].0, &self.entries[i].1)
    }

    fn position(&self, key: &K) -> (found: Option<usize>)
        ensures
            match found {
                Some(i) => entry_for(self.entries@, i as int, key.id()),
                None => forall|i: int| !entry_for(self.entries@, i, key.id()),
            },
    {
        let mut i: usize = 0;
        while i < self.entries.len()
            invariant
                0 <= i <= self.entries.len(),
                forall|j: int| 0 <= j < i ==> self.entries[j].0.id() != key.id(),
            decreases self.entries.len() - i,
        {
            if self.entries[i].0.same(key) {
                return Some(i);
            }
            i += 1;
        }
        None
    }

    /// The record kept for `key`, if there is one.
    pub fn get(&self, key: &K) -> (record: Option<&V>)
        requires
            self.wf(),
        ensures
            match record {
                Some(value) => self@.contains_key(key.id()) && self@[key.id()] == *value,
                None => !self@.contains_key(key.id()),
            },
    {
        match self.position(key) {
            Some(i) => {
                proof {
                    self.lemma_listing(i as int);
                }
                Some(&self.entries[i].1)
            },
            None => None,
        }
    }

    /// Keeps `value` for `key`, in place of what was kept for it before.
    pub fn insert(&mut self, key: K, value: V)
        requires
            old(self).wf(),
        ensures
            final(self).wf(),
            final(self)@ == old(self)@.insert(key.id(), value),
    {
        let found = self.position(&key);
        match found {
            Some(i) => {
                self.entries.set(i, (key, value));
            },
            None => {
                self.entries.push((key, value));
            },
        }
        proof {
            let before = old(self).entries@;
            let after = self.entries@;
            let id = key.id();
            let at: int = match found {
                Some(i) => i as int,
                None => before.len() as int,
            };
            assert(after[at] == (key, value));
            assert(forall|i: int| 0 <= i < before.len() && i != at ==> after[i] == before[i]);
            assert forall|i: int| 0 <= i < after.len() && i != at implies #[trigger] after[i].0.id()
                != id by {
                if found is None {
                    assert(!entry_for(before, i, id));
                }
            }
            assert forall|i: int, j: int| 0 <= i < j < after.len() implies #[trigger] after[i].0.id()
                != #[trigger] after[j].0.id() by {
                if i != at && j != at {
                    assert(before[i].0.id() != before[j].0.id());
                }
            }
            self.lemma_listing(at);
            assert forall|k: K::Id| #[trigger]
                self@.contains_key(k) == old(self)@.insert(id, value).contains_key(k) by {
                if k != id {
                    if old(self)@.contains_key(k) {
                        let i = choose|i: int| entry_for(before, i, k);
                        assert(entry_for(after, i, k));
                    }
                    if self@.contains_key(k) {
                        let i = choose|i: int| entry_for(after, i, k);
                        assert(entry_for(before, i, k));
                    }
                }
            }
            assert forall|k: K::Id| #[trigger] self@.contains_key(k) implies self@[k] == old(
                self,
            )@.insert(id, value)[k] by {
                if k != id {
                    let i = choose|i: int| entry_for(after, i, k);
                    assert(entry_for(before, i, k));
                    old(self).lemma_listing(i);
                    self.lemma_listing(i);
                }
            }
            assert(self@ =~= old(self)@.insert(id, value));
        }
    }
}

} // verus!
