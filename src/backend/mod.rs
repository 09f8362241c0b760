use vstd::prelude::*;

use crate::{Cache, CacheError, CacheKey, CacheResult};

mod standalone;

pub use standalone::SimpleMemoryCache;

verus! {

/// What a lookup of `key` in the mapping `m` finds.
pub open spec fn lookup<T>(m: Map<CacheKey, T>, key: CacheKey) -> Option<T> {
    if m.contains_key(key) {
        Some(m[key])
    } else {
        None
    }
}

/// The value behind a borrowed lookup result.
pub open spec fn found<T>(r: Option<&T>) -> Option<T> {
    match r {
        Some(v) => Some(*v),
        None => None,
    }
}

/// The mapping after `store(key, entity)`: unchanged when the key is taken.
pub open spec fn stored<T>(m: Map<CacheKey, T>, key: CacheKey, entity: T) -> Map<CacheKey, T> {
    if m.contains_key(key) {
        m
    } else {
        m.insert(key, entity)
    }
}

/// What `store(key, entity)` returns on the mapping `m`.
pub open spec fn store_result<T>(m: Map<CacheKey, T>, key: CacheKey) -> CacheResult<()> {
    if m.contains_key(key) {
        Err(CacheError::KeyAlreadyPresent(key))
    } else {
        Ok(())
    }
}

/// Storing `entity` under `key` on an empty backend succeeds, and a lookup of
/// `key` afterwards finds `entity`.
pub proof fn store_on_empty_then_retrieve<T>(key: CacheKey, entity: T)
    ensures
        store_result(Map::<CacheKey, T>::empty(), key) is Ok,
        lookup(stored(Map::<CacheKey, T>::empty(), key, entity), key) == Some(entity),
{
}

/// Storing under a key that is already present fails with `KeyAlreadyPresent`
/// for that key, and the value stored before stays.
pub proof fn store_on_present_key_fails<T>(m: Map<CacheKey, T>, key: CacheKey, entity: T)
    requires
        m.contains_key(key),
    ensures
        store_result(m, key) == Err::<(), CacheError>(CacheError::KeyAlreadyPresent(key)),
        stored(m, key, entity) == m,
        lookup(stored(m, key, entity), key) == lookup(m, key),
{
}

/// After an update of `key` with `entity`, a lookup of `key` finds `entity`,
/// whether or not `key` was present before.
pub proof fn update_then_retrieve<T>(m: Map<CacheKey, T>, key: CacheKey, entity: T)
    ensures
        lookup(m.insert(key, entity), key) == Some(entity),
{
}

/// After expiring `key`, a lookup of `key` finds nothing.
pub proof fn expire_then_retrieve<T>(m: Map<CacheKey, T>, key: CacheKey)
    ensures
        lookup(m.remove(key), key) is None,
{
}

/// Expiring a key that is absent leaves the mapping as it was.
pub proof fn expire_absent_is_no_op<T>(m: Map<CacheKey, T>, key: CacheKey)
    requires
        !m.contains_key(key),
    ensures
        m.remove(key) == m,
{
    assert(m.remove(key) =~= m);
}

/// The operations that every cache storage strategy offers, over the mapping
/// from keys to values that it holds.
pub trait CacheBackend<T: Cache>: Sized {
    /// The mapping from keys to values that the backend holds.
    spec fn entries(&self) -> Map<CacheKey, T>;

    /// Obtains the entity stored under `key`, if any. Never changes the backend.
    fn retrieve(&self, key: &CacheKey) -> (r: CacheResult<Option<&T>>)
        ensures
            r matches Ok(o) && found(o) == lookup(self.entries(), *key),
    ;

    /// Stores `entity` under `key`; fails when `key` is already present, and
    /// then leaves the backend unchanged.
    fn store(&mut self, key: &CacheKey, entity: T) -> (r: CacheResult<()>)
        ensures
            r == store_result(old(self).entries(), *key),
            final(self).entries() == stored(old(self).entries(), *key, entity),
    ;

    /// Associates `entity` with `key`, whether or not `key` was present.
    fn update(&mut self, key: &CacheKey, entity: T) -> (r: CacheResult<()>)
        ensures
            r is Ok,
            final(self).entries() == old(self).entries().insert(*key, entity),
    ;

    /// Removes the entry for `key`, if there is one.
    fn expire(&mut self, key: &CacheKey) -> (r: CacheResult<()>)
        ensures
            r is Ok,
            final(self).entries() == old(self).entries().remove(*key),
    ;
}

} // verus!
