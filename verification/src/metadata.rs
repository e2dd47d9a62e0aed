//! Named numeric annotations attached to signals, features and risk
//! assessments: a map from names to doubles held as bit patterns.

use vstd::prelude::*;
use crate::assoc::{assoc_insert, assoc_map, assoc_position, keys_distinct, lemma_key_index_unique};

verus! {

/// A map from names to values (doubles held as bit patterns).
#[derive(Debug)]
pub struct Metadata {
    entries: Vec<(String, u64)>,
}

impl View for Metadata {
    type V = Map<Seq<char>, u64>;

    closed spec fn view(&self) -> Map<Seq<char>, u64> {
        assoc_map(self.entries@)
    }
}

impl Metadata {
    #[verifier::type_invariant]
    closed spec fn names_unique(&self) -> bool {
        keys_distinct(self.entries@)
    }

    /// An empty map.
    pub fn new() -> (r: Self)
        ensures
            r@ == Map::<Seq<char>, u64>::empty(),
    {
        let r = Metadata { entries: Vec::new() };
        assert(assoc_map(r.entries@) =~= Map::<Seq<char>, u64>::empty());
        r
    }

    /// Sets the value of `key`, replacing any earlier value.
    pub fn insert(&mut self, key: String, value: u64)
        ensures
            final(self)@ == old(self)@.insert(key@, value),
    {
        proof {
            use_type_invariant(&*self);
        }
        let mut entries = Vec::new();
        std::mem::swap(&mut entries, &mut self.entries);
        assoc_insert(&mut entries, key, value);
        self.entries = entries;
    }

    /// The value of `key`, if it has one.
    pub fn get(&self, key: &str) -> (r: Option<u64>)
        ensures
            r == (if self@.contains_key(key@) { Some(self@[key@]) } else { None::<u64> }),
    {
        proof {
            use_type_invariant(self);
        }
        let k = key.to_owned();
        match assoc_position(&self.entries, &k) {
            None => None,
            Some(i) => {
                proof {
                    lemma_key_index_unique(self.entries@, i as int);
                }
                Some(self.entries[i].1)
            },
        }
    }
}

impl Clone for Metadata {
    fn clone(&self) -> (r: Self)
        ensures
            r@ == self@,
    {
        proof {
            use_type_invariant(self);
        }
        let n = self.entries.len();
        let mut entries: Vec<(String, u64)> = Vec::new();
        let mut i: usize = 0;
        while i < n
            invariant
                n == self.entries@.len(),
                i <= n,
                entries@ == self.entries@.subrange(0, i as int),
            decreases n - i,
        {
            let k = self.entries[i].0.clone();
            entries.push((k, self.entries[i].1));
            assert(entries@ =~= self.entries@.subrange(0, i + 1));
            i = i + 1;
        }
        assert(entries@ =~= self.entries@);
        Metadata { entries }
    }
}

} // verus!
