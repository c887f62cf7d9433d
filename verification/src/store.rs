//! The backing key-value store of the registries.
//!
//! The registries only need four operations on a `u32 -> u64` map:
//! `contains`, `get`, `insert` and `take`. This module provides them on a
//! thin wrapper over `std::collections::HashMap`, whose behaviour vstd
//! specifies, so the wrapper's contracts are verified rather than assumed.

use std::collections::HashMap;
use vstd::prelude::*;

verus! {

/// A `u32 -> u64` key-value store, viewed in specifications as a
/// mathematical `Map<u32, u64>`.
pub struct KvStore {
    map: HashMap<u32, u64>,
}

impl View for KvStore {
    type V = Map<u32, u64>;

    closed spec fn view(&self) -> Map<u32, u64> {
        self.map@
    }
}

impl KvStore {
    /// An empty store.
    pub fn new() -> (s: Self)
        ensures
            s@ == Map::<u32, u64>::empty(),
    {
        KvStore { map: HashMap::new() }
    }

    /// Whether a record is stored under `key`.
    pub fn contains(&self, key: u32) -> (r: bool)
        ensures
            r == self@.contains_key(key),
    {
        self.map.contains_key(&key)
    }

    /// The record stored under `key`.
    pub fn get(&self, key: u32) -> (r: u64)
        requires
            self@.contains_key(key),
        ensures
            r == self@[key],
    {
        *self.map.get(&key).unwrap()
    }

    /// Stores `value` under `key`, replacing any record already there.
    pub fn insert(&mut self, key: u32, value: u64)
        ensures
            final(self)@ == old(self)@.insert(key, value),
    {
        self.map.insert(key, value);
    }

    /// Removes and returns the record stored under `key`.
    pub fn take(&mut self, key: u32) -> (r: u64)
        requires
            old(self)@.contains_key(key),
        ensures
            r == old(self)@[key],
            final(self)@ == old(self)@.remove(key),
    {
        self.map.remove(&key).unwrap()
    }
}

} // verus!
