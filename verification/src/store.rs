//! The latest sentiment of every tracked instrument.

use std::collections::HashMap;
use vstd::prelude::*;

verus! {

broadcast use vstd::std_specs::hash::group_hash_axioms;

/// The latest sentiment of each instrument, by id. The ids are fixed when
/// the store is built: entries are replaced in place, never added or
/// removed.
#[derive(Debug)]
pub struct SentimentStore {
    values: HashMap<u64, i64>,
}

impl View for SentimentStore {
    type V = Map<u64, i64>;

    closed spec fn view(&self) -> Map<u64, i64> {
        self.values@
    }
}

impl SentimentStore {
    /// What a lookup of `id` yields: the stored value, or the neutral 0.0
    /// for an id that the store does not hold.
    pub open spec fn value_of(&self, id: u64) -> int {
        if self@.contains_key(id) {
            self@[id] as int
        } else {
            0
        }
    }

    /// A store that holds the neutral value 0.0 for each of `ids`, and
    /// nothing else.
    pub fn new(ids: &Vec<u64>) -> (r: SentimentStore)
        ensures
            r@ == Map::new(|id: u64| ids@.contains(id), |id: u64| 0i64),
    {
        let mut values: HashMap<u64, i64> = HashMap::new();
        let n: usize = ids.len();
        let mut i: usize = 0;
        while i < n
            invariant
                i <= n,
                n == ids.len(),
                forall|id: u64|
                    values@.contains_key(id) <==> exists|k: int| 0 <= k < i && ids@[k] == id,
                forall|id: u64| values@.contains_key(id) ==> values@[id] == 0,
            decreases n - i,
        {
            let ghost before = values@;
            values.insert(ids[i], 0);
            assert forall|id: u64| values@.contains_key(id) implies exists|k: int|
                0 <= k < i + 1 && ids@[k] == id by {
                if id == ids@[i as int] {
                    assert(ids@[i as int] == id);
                } else {
                    assert(before.contains_key(id));
                    let k = choose|k: int| 0 <= k < i && ids@[k] == id;
                    assert(0 <= k < i + 1 && ids@[k] == id);
                }
            }
            i += 1;
        }
        let r = SentimentStore { values };
        assert(r@ =~= Map::new(|id: u64| ids@.contains(id), |id: u64| 0i64));
        r
    }

    /// Tells whether the store holds `id`.
    pub fn contains(&self, id: u64) -> (r: bool)
        ensures
            r == self@.contains_key(id),
    {
        self.values.contains_key(&id)
    }

    /// The latest value of `id`; 0.0 for an id that the store does not hold.
    pub fn get(&self, id: u64) -> (r: i64)
        ensures
            r == self.value_of(id),
    {
        match self.values.get(&id) {
            Some(v) => *v,
            None => 0,
        }
    }

    /// Replaces the value of `id` and tells whether it did: an id that the
    /// store does not hold is left out, and the store stays as it was.
    pub fn set(&mut self, id: u64, value: i64) -> (written: bool)
        ensures
            written == old(self)@.contains_key(id),
            written ==> final(self)@ == old(self)@.insert(id, value),
            !written ==> final(self)@ == old(self)@,
    {
        if self.values.contains_key(&id) {
            self.values.insert(id, value);
            true
        } else {
            false
        }
    }
}

} // verus!
