//! String-keyed mappings, held as association lists with unique keys.
//!
//! The evaluator's snapshot carries three such mappings (event fields,
//! notification power levels, related events). Lookup is by character-wise
//! key equality; `assoc_get` is the specification of what a lookup returns.

use vstd::prelude::*;

use crate::strutil::str_eq;

verus! {

/// What looking up `key` in `entries` returns: the value of the first entry
/// whose key equals `key`, if any. With unique keys this is the mapping's
/// value at `key`.
pub open spec fn assoc_get<V>(entries: Seq<(String, V)>, key: Seq<char>) -> Option<V>
    decreases entries.len(),
{
    if entries.len() == 0 {
        None
    } else if entries[0].0@ == key {
        Some(entries[0].1)
    } else {
        assoc_get(entries.drop_first(), key)
    }
}

/// A mapping from strings to values of type `V`, with unique keys.
pub struct Assoc<V> {
    pub entries: Vec<(String, V)>,
}

impl<V> Assoc<V> {
    /// The keys are pairwise distinct.
    pub open spec fn wf(self) -> bool {
        forall|i: int, j: int|
            0 <= i < j < self.entries@.len() ==> self.entries@[i].0@ != self.entries@[j].0@
    }

    /// The value at `key`, if the mapping has that key.
    pub open spec fn spec_get(self, key: Seq<char>) -> Option<V> {
        assoc_get(self.entries@, key)
    }

    /// Whether the mapping has the key.
    pub open spec fn spec_contains(self, key: Seq<char>) -> bool {
        assoc_get(self.entries@, key) is Some
    }

    /// An empty mapping.
    pub fn new() -> (r: Self)
        ensures
            r.entries@.len() == 0,
            r.wf(),
    {
        Assoc { entries: Vec::new() }
    }

    /// Look the key up.
    pub fn get(&self, key: &str) -> (r: Option<&V>)
        ensures
            match r {
                Some(v) => self.spec_get(key@) == Some(*v),
                None => self.spec_get(key@) is None,
            },
    {
        let n = self.entries.len();
        let mut i: usize = 0;
        proof {
            assert(self.entries@.skip(0) =~= self.entries@);
        }
        while i < n
            invariant
                n == self.entries@.len(),
                0 <= i <= n,
                assoc_get(self.entries@, key@) == assoc_get(self.entries@.skip(i as int), key@),
            decreases n - i,
        {
            proof {
                assert(self.entries@.skip(i as int)[0] == self.entries@[i as int]);
                assert(self.entries@.skip(i as int).drop_first() =~= self.entries@.skip(
                    i + 1 as int,
                ));
            }
            if str_eq(self.entries[i].0.as_str(), key) {
                return Some(&self.entries[i].1);
            }
            i += 1;
        }
        proof {
            assert(self.entries@.skip(n as int) =~= Seq::<(String, V)>::empty());
        }
        None
    }

    /// Whether the mapping has the key.
    pub fn contains_key(&self, key: &str) -> (r: bool)
        ensures
            r == self.spec_contains(key@),
    {
        match self.get(key) {
            Some(_) => true,
            None => false,
        }
    }
}

} // verus!
