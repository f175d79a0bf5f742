//! Counting how often each value has been seen.

use vstd::prelude::*;
use vstd::std_specs::hash::obeys_key_model;
use std::collections::HashMap;
use std::hash::Hash;

verus! {

/// Counter counts the number of times each value of type T has been seen.
pub struct Counter<T: Hash + Eq> {
    values: HashMap<T, u64>,
}

impl<T: Hash + Eq> Counter<T> {
    /// The counts that are held, by value. A value that was never counted has
    /// no entry.
    pub closed spec fn counts(&self) -> Map<T, u64> {
        self.values@
    }

    /// The number of times that `value` has been counted.
    pub open spec fn seen(&self, value: T) -> nat {
        if self.counts().contains_key(value) {
            self.counts()[value] as nat
        } else {
            0
        }
    }

    /// Create a new Counter, which has seen nothing.
    pub fn new() -> (counter: Self)
        ensures
            counter.counts() == Map::<T, u64>::empty(),
            forall|value: T| counter.seen(value) == 0,
    {
        Counter { values: HashMap::new() }
    }

    /// Count an occurrence of the given value.
    pub fn count(&mut self, value: T)
        requires
            obeys_key_model::<T>(),
            old(self).seen(value) < u64::MAX,
        ensures
            final(self).seen(value) == old(self).seen(value) + 1,
            forall|other: T| other != value ==> final(self).seen(other) == old(self).seen(other),
    {
        let entry = self.values.entry(value).or_insert(0);
        *entry += 1;
    }

    /// Return the number of times the given value has been seen.
    pub fn times_seen(&self, value: T) -> (times: u64)
        requires
            obeys_key_model::<T>(),
        ensures
            times == self.seen(value),
    {
        match self.values.get(&value) {
            Some(times) => *times,
            None => 0,
        }
    }
}

} // verus!
