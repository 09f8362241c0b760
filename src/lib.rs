use vstd::prelude::*;

pub mod backend;

pub use backend::{CacheBackend, SimpleMemoryCache};

verus! {

/// Identifier under which a value is kept in a cache.
pub type CacheKey = usize;

/// The ways in which a cache operation can fail.
#[non_exhaustive]
#[derive(Debug, Copy, Clone, PartialEq, Eq, Structural)]
pub enum CacheError {
    /// A `store` found the key already taken.
    KeyAlreadyPresent(CacheKey),
}

pub type CacheResult<T> = Result<T, CacheError>;

/// Marker for the types that can be kept in a cache: every type that can be cloned.
pub trait Cache {}

impl<T: Clone> Cache for T {}

} // verus!
