//! A key-value cache, and a variant that counts its own traffic.
//!
//! Both structs are plain sequential data over a hash map; thread safety
//! comes from wrapping a value in `Arc<RwLock<..>>` at the call site. The
//! contracts speak about the map of entries, and hold whenever the key type
//! obeys the standard hash-table key model (as every primitive integer key
//! does); for other keys the operations still run, they just promise less.

use vstd::prelude::*;
use vstd::pervasive::cloned;
use vstd::std_specs::hash::obeys_key_model;
use std::collections::HashMap;

verus! {

/// A simple key-value store with cloning reads.
pub struct Cache<K, V> {
    data: HashMap<K, V>,
}

impl<K, V> View for Cache<K, V> {
    type V = Map<K, V>;

    closed spec fn view(&self) -> Map<K, V> {
        self.data@
    }
}

impl<K, V> Cache<K, V> where K: core::cmp::Eq + core::hash::Hash {
    /// An empty cache.
    pub fn new() -> (r: Self)
        ensures
            r@ == Map::<K, V>::empty(),
    {
        Cache { data: HashMap::new() }
    }

    /// Looks a key up and hands back a clone of the stored value, `None`
    /// exactly when the key is absent.
    pub fn get(&self, key: &K) -> (r: Option<V>) where V: Clone
        ensures
            obeys_key_model::<K>() ==> match r {
                Some(v) => self@.contains_key(*key) && cloned(self@[*key], v),
                None => !self@.contains_key(*key),
            },
    {
        match self.data.get(key) {
            Some(v) => Some(v.clone()),
            None => None,
        }
    }

    /// Stores a value under a key, replacing whatever the key held before.
    pub fn insert(&mut self, key: K, value: V)
        ensures
            obeys_key_model::<K>() ==> final(self)@ == old(self)@.insert(key, value),
    {
        self.data.insert(key, value);
    }

    /// How many keys the cache holds.
    pub fn len(&self) -> (r: usize)
        ensures
            obeys_key_model::<K>() ==> r == self@.len(),
    {
        self.data.len()
    }

    /// Whether the cache holds no key at all.
    pub fn is_empty(&self) -> (r: bool)
        ensures
            obeys_key_model::<K>() ==> r == (self@.len() == 0),
    {
        self.data.is_empty()
    }
}

impl<K, V> Default for Cache<K, V> where K: core::cmp::Eq + core::hash::Hash {
    /// An empty cache.
    fn default() -> (r: Self)
        ensures
            r@ == Map::<K, V>::empty(),
    {
        Cache::new()
    }
}

/// A cache that also counts how often it was read and written.
///
/// The counters wrap around at the integer's limit, as a shared atomic
/// counter would.
pub struct TrackedCache<K, V> {
    inner: Cache<K, V>,
    read_count: usize,
    write_count: usize,
}

impl<K, V> TrackedCache<K, V> where K: core::cmp::Eq + core::hash::Hash {
    /// The map of entries.
    pub closed spec fn entries(&self) -> Map<K, V> {
        self.inner@
    }

    /// How many reads have been counted.
    pub closed spec fn reads(&self) -> usize {
        self.read_count
    }

    /// How many writes have been counted.
    pub closed spec fn writes(&self) -> usize {
        self.write_count
    }

    /// An empty cache with both counters at zero.
    pub fn new() -> (r: Self)
        ensures
            r.entries() == Map::<K, V>::empty(),
            r.reads() == 0,
            r.writes() == 0,
    {
        TrackedCache { inner: Cache::new(), read_count: 0, write_count: 0 }
    }

    /// A counted lookup: behaves as [`Cache::get`] and bumps the read
    /// counter by one.
    pub fn get(&mut self, key: &K) -> (r: Option<V>) where V: Clone
        ensures
            final(self).entries() == old(self).entries(),
            final(self).reads() == old(self).reads().wrapping_add(1),
            final(self).writes() == old(self).writes(),
            obeys_key_model::<K>() ==> match r {
                Some(v) => old(self).entries().contains_key(*key) && cloned(
                    old(self).entries()[*key],
                    v,
                ),
                None => !old(self).entries().contains_key(*key),
            },
    {
        self.read_count = self.read_count.wrapping_add(1);
        self.inner.get(key)
    }

    /// A counted store: behaves as [`Cache::insert`] and bumps the write
    /// counter by one.
    pub fn insert(&mut self, key: K, value: V)
        ensures
            obeys_key_model::<K>() ==> final(self).entries() == old(self).entries().insert(
                key,
                value,
            ),
            final(self).reads() == old(self).reads(),
            final(self).writes() == old(self).writes().wrapping_add(1),
    {
        self.write_count = self.write_count.wrapping_add(1);
        self.inner.insert(key, value);
    }

    /// The traffic so far, as (reads, writes).
    pub fn stats(&self) -> (r: (usize, usize))
        ensures
            r.0 == self.reads(),
            r.1 == self.writes(),
    {
        (self.read_count, self.write_count)
    }
}

impl<K, V> Default for TrackedCache<K, V> where K: core::cmp::Eq + core::hash::Hash {
    /// An empty cache with both counters at zero.
    fn default() -> (r: Self)
        ensures
            r.entries() == Map::<K, V>::empty(),
            r.reads() == 0,
            r.writes() == 0,
    {
        TrackedCache::new()
    }
}

} // verus!
