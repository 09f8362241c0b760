//! Cache implementations meant to be used on a single machine.
mod memory;

pub use memory::SimpleMemoryCache;
