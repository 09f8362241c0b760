use vstd::prelude::*;

use std::collections::HashMap;

use crate::backend::{found, lookup, store_result, stored, CacheBackend};
use crate::{Cache, CacheError, CacheKey, CacheResult};

verus! {

broadcast use vstd::std_specs::hash::group_hash_axioms;

/// The simplest in-memory cache, with neither multithreading nor capacity control.
pub type SimpleMemoryCache<T> = HashMap<CacheKey, T>;

impl<T: Cache> CacheBackend<T> for SimpleMemoryCache<T> {
    open spec fn entries(&self) -> Map<CacheKey, T> {
        self@
    }

    fn retrieve(&self, key: &CacheKey) -> (r: CacheResult<Option<&T>>)
        ensures
            r matches Ok(o) && found(o) == lookup(self@, *key),
    {
        Ok(self.get(key))
    }

    fn store(&mut self, key: &CacheKey, entity: T) -> (r: CacheResult<()>)
        ensures
            r == store_result(old(self)@, *key),
            final(self)@ == stored(old(self)@, *key, entity),
    {
        if self.contains_key(key) {
            Err(CacheError::KeyAlreadyPresent(*key))
        } else {
            self.insert(*key, entity);
            Ok(())
        }
    }

    fn update(&mut self, key: &CacheKey, entity: T) -> (r: CacheResult<()>)
        ensures
            r is Ok,
            final(self)@ == old(self)@.insert(*key, entity),
    {
        self.insert(*key, entity);
        Ok(())
    }

    fn expire(&mut self, key: &CacheKey) -> (r: CacheResult<()>)
        ensures
            r is Ok,
            final(self)@ == old(self)@.remove(*key),
    {
        self.remove(key);
        Ok(())
    }
}

} // verus!
