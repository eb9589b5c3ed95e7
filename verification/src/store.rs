//! The records that validation can reach.
//!
//! Validation is a function of the operation and of the records that its
//! hashes resolve to, and of nothing else. A `RecordStore` holds those
//! records: whoever runs validation resolves the hashes that the operation
//! depends on and puts what was found here. A hash that is not in the store
//! does not resolve.

use vstd::prelude::*;
use crate::hash::ActionHash;
use crate::record::Record;

verus! {

/// What a hash resolves to in a map of records: a record, or nothing.
pub open spec fn resolve_in(records: Map<ActionHash, Record>, hash: ActionHash) -> Option<Record> {
    if records.contains_key(hash) {
        Some(records[hash])
    } else {
        None
    }
}

/// A finite map from action hash to record.
pub struct RecordStore {
    records: Vec<Record>,
}

impl RecordStore {
    spec fn is_first(self, hash: ActionHash, i: int) -> bool {
        &&& 0 <= i < self.records@.len()
        &&& self.records@[i].action_hash == hash
        &&& forall|j: int| 0 <= j < i ==> (#[trigger] self.records@[j]).action_hash != hash
    }

    spec fn known(self, hash: ActionHash) -> bool {
        exists|i: int| self.is_first(hash, i)
    }

    spec fn position(self, hash: ActionHash) -> int {
        choose|i: int| self.is_first(hash, i)
    }

    /// The store as a map: which hashes resolve, and to what.
    pub closed spec fn view(&self) -> Map<ActionHash, Record> {
        Map::new(
            |hash: ActionHash| self.known(hash),
            |hash: ActionHash| self.records@[self.position(hash)],
        )
    }

    proof fn first_is_unique(self, hash: ActionHash, i: int, j: int)
        requires
            self.is_first(hash, i),
            self.is_first(hash, j),
        ensures
            i == j,
    {
        if i < j {
            assert(self.records@[i].action_hash != hash);
        } else if j < i {
            assert(self.records@[j].action_hash != hash);
        }
    }

    /// The store in which no hash resolves.
    pub fn new() -> (r: RecordStore)
        ensures
            r@ == Map::<ActionHash, Record>::empty(),
    {
        let r = RecordStore { records: Vec::new() };
        assert(r@ =~= Map::<ActionHash, Record>::empty());
        r
    }

    /// Looks a hash up. Returns the record it resolves to, or `None` where it
    /// does not resolve.
    pub fn resolve(&self, hash: &ActionHash) -> (r: Option<&Record>)
        ensures
            match r {
                Some(record) => resolve_in(self@, *hash) == Some(*record),
                None => resolve_in(self@, *hash).is_none(),
            },
    {
        let mut i: usize = 0;
        while i < self.records.len()
            invariant
                i <= self.records@.len(),
                forall|j: int| 0 <= j < i ==> (#[trigger] self.records@[j]).action_hash != *hash,
            decreases self.records@.len() - i,
        {
            if self.records[i].action_hash == *hash {
                proof {
                    assert(self.is_first(*hash, i as int));
                    self.first_is_unique(*hash, i as int, self.position(*hash));
                }
                return Some(&self.records[i]);
            }
            i = i + 1;
        }
        assert(!self.known(*hash)) by {
            if self.known(*hash) {
                let p = self.position(*hash);
                assert(self.records@[p].action_hash != *hash);
            }
        }
        None
    }

    /// Whether a hash resolves.
    pub fn contains(&self, hash: &ActionHash) -> (r: bool)
        ensures
            r == self@.contains_key(*hash),
    {
        self.resolve(hash).is_some()
    }

    /// Adds a record under its hash. Where the hash already resolves, the
    /// store keeps what it has and returns `false`: one hash stands for one
    /// content.
    pub fn insert(&mut self, record: Record) -> (inserted: bool)
        ensures
            inserted == !old(self)@.contains_key(record.action_hash),
            inserted ==> final(self)@ == old(self)@.insert(record.action_hash, record),
            !inserted ==> final(self)@ == old(self)@,
    {
        if self.contains(&record.action_hash) {
            return false;
        }
        let ghost before = *self;
        let ghost hash = record.action_hash;
        self.records.push(record);
        proof {
            let after = *self;
            let last = before.records@.len() as int;
            assert(forall|i: int| 0 <= i < last ==> after.records@[i] == before.records@[i]);
            assert(after.records@[last] == record);
            assert forall|h: ActionHash, i: int| before.is_first(h, i) implies after.is_first(h, i) by {
                assert(forall|j: int| 0 <= j < i ==> after.records@[j] == before.records@[j]);
            }
            assert forall|h: ActionHash, i: int| after.is_first(h, i) && i < last implies before.is_first(
                h,
                i,
            ) by {
                assert(forall|j: int| 0 <= j < i ==> after.records@[j] == before.records@[j]);
            }
            assert(after.is_first(hash, last)) by {
                assert forall|j: int| 0 <= j < last implies (#[trigger] after.records@[j]).action_hash
                    != hash by {
                    if after.records@[j].action_hash == hash {
                        before.first_exists(hash, j);
                    }
                }
            }
            assert forall|h: ActionHash| after.known(h) <==> (before.known(h) || h == hash) by {
                if before.known(h) {
                    assert(after.is_first(h, before.position(h)));
                }
                if after.known(h) && h != hash {
                    let p = after.position(h);
                    assert(p != last);
                    assert(before.is_first(h, p));
                }
            }
            assert forall|h: ActionHash| after.known(h) implies after.records@[after.position(h)]
                == before@.insert(hash, record)[h] by {
                let p = after.position(h);
                if h == hash {
                    after.first_is_unique(h, p, last);
                } else {
                    assert(before.is_first(h, p));
                    before.first_is_unique(h, p, before.position(h));
                }
            }
            assert(after@ =~= before@.insert(hash, record));
        }
        true
    }

    proof fn first_exists(self, hash: ActionHash, j: int)
        requires
            0 <= j < self.records@.len(),
            self.records@[j].action_hash == hash,
        ensures
            self.known(hash),
        decreases j,
    {
        if forall|k: int| 0 <= k < j ==> (#[trigger] self.records@[k]).action_hash != hash {
            assert(self.is_first(hash, j));
        } else {
            let k = choose|k: int| 0 <= k < j && (#[trigger] self.records@[k]).action_hash == hash;
            self.first_exists(hash, k);
        }
    }
}

} // verus!
