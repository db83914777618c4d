use vstd::prelude::*;
use crate::types::{RecordKey, StakeRecord};

verus! {

/// Storage of stake records at their deterministic addresses.
///
/// Creating a record at an occupied address fails, so at most one record
/// exists for each (config, token) pair.
pub struct StakeRegistry {
    entries: Vec<(RecordKey, StakeRecord)>,
}

impl View for StakeRegistry {
    type V = Map<RecordKey, StakeRecord>;

    closed spec fn view(&self) -> Map<RecordKey, StakeRecord> {
        Map::new(
            |k: RecordKey| exists|i: int| 0 <= i < self.entries@.len() && self.entries@[i].0 == k,
            |k: RecordKey| self.entries@[choose|i: int| 0 <= i < self.entries@.len() && self.entries@[i].0 == k].1,
        )
    }
}

impl StakeRegistry {
    /// No address holds two entries.
    pub closed spec fn wf(&self) -> bool {
        forall|i: int, j: int|
            0 <= i < self.entries@.len() && 0 <= j < self.entries@.len() && i != j
                ==> self.entries@[i].0 != self.entries@[j].0
    }

    pub fn new() -> (r: StakeRegistry)
        ensures
            r.wf(),
            r@ == Map::<RecordKey, StakeRecord>::empty(),
    {
        let r = StakeRegistry { entries: Vec::new() };
        assert(r@ =~= Map::<RecordKey, StakeRecord>::empty());
        r
    }

    fn find(&self, key: RecordKey) -> (r: Option<usize>)
        requires
            self.wf(),
        ensures
            r is None <==> !self@.contains_key(key),
            r matches Some(i) ==> i < self.entries@.len() && self.entries@[i as int].0 == key
                && self@[key] == self.entries@[i as int].1,
    {
        let mut i: usize = 0;
        while i < self.entries.len()
            invariant
                self.wf(),
                i <= self.entries@.len(),
                forall|j: int| 0 <= j < i ==> self.entries@[j].0 != key,
            decreases self.entries@.len() - i,
        {
            if self.entries[i].0 == key {
                proof {
                    let c = choose|j: int| 0 <= j < self.entries@.len() && self.entries@[j].0 == key;
                    assert(0 <= c < self.entries@.len() && self.entries@[c].0 == key);
                    assert(c == i as int);
                }
                return Some(i);
            }
            i = i + 1;
        }
        None
    }

    /// Whether the address `key` is occupied.
    pub fn contains(&self, key: RecordKey) -> (r: bool)
        requires
            self.wf(),
        ensures
            r == self@.contains_key(key),
    {
        self.find(key).is_some()
    }

    /// The record at `key`, if any.
    pub fn get(&self, key: RecordKey) -> (r: Option<StakeRecord>)
        requires
            self.wf(),
        ensures
            r is None <==> !self@.contains_key(key),
            r matches Some(rec) ==> self@.contains_key(key) && rec == self@[key],
    {
        match self.find(key) {
            Some(i) => Some(self.entries[i].1),
            None => None,
        }
    }

    /// Creates `record` at the free address `key`.
    pub fn create(&mut self, key: RecordKey, record: StakeRecord)
        requires
            old(self).wf(),
            !old(self)@.contains_key(key),
        ensures
            final(self).wf(),
            final(self)@ == old(self)@.insert(key, record),
    {
        let ghost pre = self.entries@;
        self.entries.push((key, record));
        proof {
            let post = self.entries@;
            assert(post.len() == pre.len() + 1);
            assert forall|k: RecordKey| #[trigger] old(self)@.insert(key, record).contains_key(k)
                == self@.contains_key(k) by {
                if k == key {
                    assert(post[pre.len() as int].0 == key);
                } else if old(self)@.contains_key(k) {
                    let i = choose|i: int| 0 <= i < pre.len() && pre[i].0 == k;
                    assert(post[i] == pre[i]);
                } else if self@.contains_key(k) {
                    let i = choose|i: int| 0 <= i < post.len() && post[i].0 == k;
                    if i < pre.len() {
                        assert(pre[i] == post[i]);
                    }
                }
            }
            assert forall|k: RecordKey| self@.contains_key(k) implies
                #[trigger] self@[k] == old(self)@.insert(key, record)[k] by {
                let i = choose|i: int| 0 <= i < post.len() && post[i].0 == k;
                if k == key {
                    if i < pre.len() {
                        assert(pre[i].0 == key);
                        assert(old(self)@.contains_key(key));
                    }
                    assert(i == pre.len());
                } else {
                    assert(i < pre.len());
                    assert(post[i] == pre[i]);
                    let j = choose|j: int| 0 <= j < pre.len() && pre[j].0 == k;
                    assert(j == i);
                }
            }
            assert(self@ =~= old(self)@.insert(key, record));
        }
    }
}

} // verus!
