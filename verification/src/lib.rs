//! An in-memory, byte-addressable store: named buffers of bytes that callers
//! initialise, read and write by address, with typed failures for unknown
//! identifiers and out-of-range addresses.

use vstd::prelude::*;

pub mod decimal;
pub mod encoding;
pub mod laws;
pub mod shared;
pub mod store;

pub use shared::InMemoryState;
pub use store::MemoryStore;
pub use store::StoreError;

verus! {

/// Health probe: the store is always ready to answer.
pub fn status() -> (r: &'static str)
    ensures
        r@ == "Healthy"@,
{
    "Healthy"
}

} // verus!
