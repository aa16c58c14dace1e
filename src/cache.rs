//! The fallback mapping: one value per thread identity, for every thread
//! that does not own the pool.

use std::collections::HashMap;
use std::sync::Arc;
use vstd::prelude::*;

verus! {

broadcast use vstd::std_specs::hash::group_hash_axioms;

/// Values built for threads other than a pool's owner, keyed by thread
/// identity. Entries are created lazily and never removed.
pub struct Cache<T> {
    map: HashMap<usize, Arc<T>>,
}

impl<T> View for Cache<T> {
    type V = Map<usize, Arc<T>>;

    closed spec fn view(&self) -> Map<usize, Arc<T>> {
        self.map@
    }
}

impl<T> Cache<T> {
    /// An empty mapping.
    pub fn new() -> (c: Self)
        ensures
            c@ == Map::<usize, Arc<T>>::empty(),
    {
        Cache { map: HashMap::new() }
    }

    /// The value cached for `id`, if any.
    pub fn lookup(&self, id: usize) -> (r: Option<Arc<T>>)
        ensures
            r == (if self@.contains_key(id) { Some(self@[id]) } else { None::<Arc<T>> }),
    {
        match self.map.get(&id) {
            Some(v) => Some(v.clone()),
            None => None,
        }
    }

    /// Stores `v` as the value of `id` unless `id` already has one, and
    /// returns the value that `id` has afterwards.
    pub fn publish(&mut self, id: usize, v: Arc<T>) -> (r: Arc<T>)
        ensures
            old(self)@.contains_key(id) ==> r == old(self)@[id] && final(self)@ == old(self)@,
            !old(self)@.contains_key(id) ==> r == v && final(self)@ == old(self)@.insert(id, v),
    {
        match self.map.get(&id) {
            Some(e) => e.clone(),
            None => {
                let r = v.clone();
                self.map.insert(id, v);
                r
            },
        }
    }
}

} // verus!
