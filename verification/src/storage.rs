//! Contract storage and its revert journal: a 256-bit key to 256-bit
//! value store, and the ordered log of prior values that rolls it back.
use vstd::prelude::*;
use crate::kvmap::{
    entries_map, keys_unique, lemma_entries_map_contains, lemma_entries_map_index,
    lemma_entries_map_update, lemma_entries_map_push, lemma_entries_map_remove,
};
use crate::u256::U256;

verus! {

/// How a storage slot was changed, as the journal records it: `Overwrite`
/// for a slot that held a prior value, `Delete` for a slot the write
/// created.
#[derive(Clone, Copy, Debug, PartialEq, Eq, Structural)]
pub enum StorageChangeType {
    Overwrite,
    Delete,
}

impl View for StorageChangeType {
    type V = StorageChangeType;

    open spec fn view(&self) -> StorageChangeType {
        *self
    }
}

/// A 256-bit key to 256-bit value store with distinct keys, viewed as a
/// map from key values to stored values.
#[derive(Debug)]
pub struct StorageMap {
    pub entries: Vec<(U256, U256)>,
}

impl View for StorageMap {
    type V = Map<nat, nat>;

    open spec fn view(&self) -> Map<nat, nat> {
        entries_map(self.entries@)
    }
}

impl StorageMap {
    /// No two entries share a key.
    pub open spec fn well_formed(&self) -> bool {
        keys_unique(self.entries@)
    }

    /// An empty store.
    pub fn new() -> (r: StorageMap)
        ensures
            r@ == Map::<nat, nat>::empty(),
            r.well_formed(),
    {
        let r = StorageMap { entries: Vec::new() };
        proof {
            assert(r.entries@.len() == 0);
        }
        r
    }

    /// The index holding the key, if any.
    fn find(&self, key: &U256) -> (r: Option<usize>)
        ensures
            match r {
                Some(i) => i < self.entries@.len() && self.entries@[i as int].0@ == key@,
                None => forall|j: int| 0 <= j < self.entries@.len() ==> self.entries@[j].0@ != key@,
            },
    {
        let mut i: usize = 0;
        while i < self.entries.len()
            invariant
                i <= self.entries@.len(),
                forall|j: int| 0 <= j < i ==> self.entries@[j].0@ != key@,
            decreases self.entries@.len() - i,
        {
            if self.entries[i].0.eq_val(key) {
                return Some(i);
            }
            i = i + 1;
        }
        None
    }

    /// The value stored under a key.
    pub fn get(&self, key: &U256) -> (r: Option<U256>)
        requires
            self.well_formed(),
        ensures
            match r {
                Some(v) => self@.contains_key(key@) && self@[key@] == v@,
                None => !self@.contains_key(key@),
            },
    {
        let found = self.find(key);
        proof {
            lemma_entries_map_contains(self.entries@, key@);
        }
        match found {
            Some(i) => {
                proof {
                    lemma_entries_map_index(self.entries@, i as int);
                }
                Some(self.entries[i].1)
            },
            None => None,
        }
    }

    /// Store a value under a key; the prior value, if one was there.
    pub fn insert(&mut self, key: U256, value: U256) -> (r: Option<U256>)
        requires
            old(self).well_formed(),
        ensures
            final(self).well_formed(),
            final(self)@ == old(self)@.insert(key@, value@),
            match r {
                Some(prev) => old(self)@.contains_key(key@) && old(self)@[key@] == prev@,
                None => !old(self)@.contains_key(key@),
            },
    {
        let found = self.find(&key);
        proof {
            lemma_entries_map_contains(self.entries@, key@);
        }
        match found {
            Some(i) => {
                let prev = self.entries[i].1;
                proof {
                    lemma_entries_map_index(self.entries@, i as int);
                    lemma_entries_map_update(self.entries@, i as int, (key, value));
                }
                self.entries[i] = (key, value);
                Some(prev)
            },
            None => {
                proof {
                    lemma_entries_map_push(self.entries@, (key, value));
                }
                self.entries.push((key, value));
                None
            },
        }
    }

    /// Drop a key from the store.
    pub fn remove(&mut self, key: &U256)
        requires
            old(self).well_formed(),
        ensures
            final(self).well_formed(),
            final(self)@ == old(self)@.remove(key@),
    {
        let found = self.find(key);
        proof {
            lemma_entries_map_contains(self.entries@, key@);
        }
        match found {
            Some(i) => {
                proof {
                    lemma_entries_map_remove(self.entries@, i as int);
                }
                self.entries.remove(i);
            },
            None => {
                proof {
                    assert(old(self)@.remove(key@) =~= old(self)@);
                }
            },
        }
    }

    /// A fresh store with the same contents.
    pub fn duplicate(&self) -> (r: StorageMap)
        ensures
            r.entries@ == self.entries@,
            r@ == self@,
            self.well_formed() ==> r.well_formed(),
    {
        let mut entries: Vec<(U256, U256)> = Vec::new();
        let mut i: usize = 0;
        while i < self.entries.len()
            invariant
                i <= self.entries@.len(),
                entries@ =~= self.entries@.subrange(0, i as int),
            decreases self.entries@.len() - i,
        {
            entries.push(self.entries[i]);
            i = i + 1;
        }
        proof {
            assert(entries@ =~= self.entries@);
        }
        StorageMap { entries }
    }
}

/// The revert journal: for each touched slot, how its first write changed
/// it and what stood there before.
#[derive(Debug)]
pub struct Journal {
    pub entries: Vec<(U256, (StorageChangeType, U256))>,
}

impl View for Journal {
    type V = Map<nat, (StorageChangeType, nat)>;

    open spec fn view(&self) -> Map<nat, (StorageChangeType, nat)> {
        entries_map(self.entries@)
    }
}

/// What a journal promises about the store it guards: every journaled
/// slot is live in the current store; a `Delete` entry marks a slot the
/// original store lacked, an `Overwrite` entry carries the original value;
/// and slots never journaled still hold their original state.
pub open spec fn journal_ok(
    j: Map<nat, (StorageChangeType, nat)>,
    cur: Map<nat, nat>,
    orig: Map<nat, nat>,
) -> bool {
    &&& forall|k: nat|
        j.contains_key(k) ==> #[trigger] cur.contains_key(k)
    &&& forall|k: nat|
        #[trigger] j.contains_key(k) ==> match j[k] {
            (StorageChangeType::Delete, _) => !orig.contains_key(k),
            (StorageChangeType::Overwrite, p) => orig.contains_key(k) && orig[k] == p,
        }
    &&& forall|k: nat|
        !j.contains_key(k) ==> ((#[trigger] cur.contains_key(k) <==> orig.contains_key(k))
            && (cur.contains_key(k) ==> cur[k] == orig[k]))
}

/// The store after replaying a journal: `Delete` entries drop their slot,
/// `Overwrite` entries reinstate the prior value of a live slot,
/// everything else stays.
pub open spec fn spec_rollback(
    j: Map<nat, (StorageChangeType, nat)>,
    cur: Map<nat, nat>,
) -> Map<nat, nat> {
    Map::new(
        |k: nat|
            cur.contains_key(k) && (j.contains_key(k) ==> !(j[k].0 is Delete)),
        |k: nat|
            if j.contains_key(k) && j[k].0 is Overwrite {
                j[k].1
            } else {
                cur[k]
            },
    )
}

/// Replaying a journal that correctly guards a store restores exactly the
/// original store: every slot holds the value it had before the first
/// write, and slots absent before are absent after.
pub proof fn lemma_rollback_restores(
    j: Map<nat, (StorageChangeType, nat)>,
    cur: Map<nat, nat>,
    orig: Map<nat, nat>,
)
    requires
        journal_ok(j, cur, orig),
    ensures
        spec_rollback(j, cur) =~= orig,
{
    let r = spec_rollback(j, cur);
    assert forall|k: nat| r.contains_key(k) implies orig.contains_key(k) && r[k] == orig[k] by {
        if j.contains_key(k) {
            assert(cur.contains_key(k));
        }
    }
    assert forall|k: nat| orig.contains_key(k) implies r.contains_key(k) by {
        if j.contains_key(k) {
            assert(cur.contains_key(k));
        }
    }
}

impl Journal {
    /// No two entries share a key.
    pub open spec fn well_formed(&self) -> bool {
        keys_unique(self.entries@)
    }

    /// An empty journal.
    pub fn new() -> (r: Journal)
        ensures
            r@ == Map::<nat, (StorageChangeType, nat)>::empty(),
            r.well_formed(),
    {
        let r = Journal { entries: Vec::new() };
        proof {
            assert(r.entries@.len() == 0);
        }
        r
    }

    /// Whether a slot is already journaled.
    pub fn contains(&self, key: &U256) -> (r: bool)
        requires
            self.well_formed(),
        ensures
            r == self@.contains_key(key@),
    {
        let mut i: usize = 0;
        proof {
            lemma_entries_map_contains(self.entries@, key@);
        }
        while i < self.entries.len()
            invariant
                i <= self.entries@.len(),
                forall|j: int| 0 <= j < i ==> self.entries@[j].0@ != key@,
                self@.contains_key(key@) <==> exists|j: int|
                    0 <= j < self.entries@.len() && self.entries@[j].0@ == key@,
            decreases self.entries@.len() - i,
        {
            if self.entries[i].0.eq_val(key) {
                return true;
            }
            i = i + 1;
        }
        false
    }

    /// Record the first write to a slot; a later write to the same slot
    /// must not be recorded again.
    pub fn record(&mut self, key: U256, change: StorageChangeType, prior: U256)
        requires
            old(self).well_formed(),
            !old(self)@.contains_key(key@),
        ensures
            final(self).well_formed(),
            final(self)@ == old(self)@.insert(key@, (change, prior@)),
    {
        proof {
            lemma_entries_map_contains(self.entries@, key@);
            assert(forall|i: int|
                0 <= i < self.entries@.len() ==> self.entries@[i].0@ != key@);
            lemma_entries_map_push(self.entries@, (key, (change, prior)));
        }
        self.entries.push((key, (change, prior)));
    }

    /// Forget everything.
    pub fn clear(&mut self)
        ensures
            final(self)@ == Map::<nat, (StorageChangeType, nat)>::empty(),
            final(self).well_formed(),
    {
        self.entries.clear();
        proof {
            assert(self.entries@.len() == 0);
        }
    }
}

} // verus!
