//! The registry container: a map from an integer identity (a socket or a
//! waitable handle, both carried as plain machine words) to that
//! registration's attributes.

use core::hash::{BuildHasher, Hash};
use std::collections::HashMap as StdHashMap;
use vstd::prelude::*;

use crate::io::Error;

verus! {

broadcast use vstd::std_specs::hash::group_hash_axioms;

/// A map keyed by an integer identity.  Its view is the mathematical map of
/// its contents; no two entries share a key.
#[derive(Debug)]
pub struct HashMap<V> {
    inner: StdHashMap<usize, V>,
}

impl<V> View for HashMap<V> {
    type V = Map<usize, V>;

    closed spec fn view(&self) -> Map<usize, V> {
        self.inner@
    }
}

impl<V> HashMap<V> {
    /// The empty map.
    pub fn new() -> (r: Self)
        ensures
            r@ == Map::<usize, V>::empty(),
    {
        HashMap { inner: StdHashMap::new() }
    }

    /// How many entries the map holds.
    pub fn len(&self) -> (r: usize)
        ensures
            r == self@.len(),
    {
        self.inner.len()
    }

    /// Whether the map holds no entry.
    pub fn is_empty(&self) -> (r: bool)
        ensures
            r == self@.is_empty(),
    {
        self.inner.is_empty()
    }

    /// The value stored under `k`, if any.
    pub fn get(&self, k: usize) -> (r: Option<&V>)
        ensures
            match r {
                Some(v) => self@.contains_key(k) && *v == self@[k],
                None => !self@.contains_key(k),
            },
    {
        self.inner.get(&k)
    }

    /// Whether an entry is stored under `k`.
    pub fn contains_key(&self, k: usize) -> (r: bool)
        ensures
            r == self@.contains_key(k),
    {
        self.inner.contains_key(&k)
    }

    /// Store `v` under `k`, replacing any previous entry.
    ///
    /// The underlying table aborts rather than reports when memory runs out,
    /// so the reservation failure of the fallible interface cannot be
    /// observed here and the result is always `Ok`.
    pub fn try_insert(&mut self, k: usize, v: V) -> (r: Result<(), Error>)
        ensures
            r is Ok,
            final(self)@ == old(self)@.insert(k, v),
    {
        self.inner.insert(k, v);
        Ok(())
    }

    /// Remove and return the entry stored under `k`, if any.
    pub fn remove(&mut self, k: usize) -> (r: Option<V>)
        ensures
            final(self)@ == old(self)@.remove(k),
            match r {
                Some(v) => old(self)@.contains_key(k) && v == old(self)@[k],
                None => !old(self)@.contains_key(k),
            },
    {
        self.inner.remove(&k)
    }

    /// Remove the entry stored under `k`, returning the key and the value.
    pub fn remove_entry(&mut self, k: usize) -> (r: Option<(usize, V)>)
        ensures
            final(self)@ == old(self)@.remove(k),
            match r {
                Some(kv) => kv.0 == k && old(self)@.contains_key(k) && kv.1 == old(self)@[k],
                None => !old(self)@.contains_key(k),
            },
    {
        match self.inner.remove(&k) {
            Some(v) => Some((k, v)),
            None => None,
        }
    }
}

/// Hash one value with the given builder.
///
/// Relies on `core::hash::BuildHasher::hash_one`; nothing is assumed about
/// the digest it returns.
#[verifier::external_body]
pub fn make_hash<Q: Hash, S: BuildHasher>(hash_builder: &S, val: &Q) -> u64 {
    hash_builder.hash_one(val)
}

/// Hash the key of a key-value entry, as a keyed table hashes its entries.
pub fn make_hasher<Q: Hash, V, S: BuildHasher>(hash_builder: &S, entry: &(Q, V)) -> u64 {
    make_hash(hash_builder, &entry.0)
}

} // verus!
