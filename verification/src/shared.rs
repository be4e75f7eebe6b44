//! The store as shared by concurrent request handlers: one reader/writer
//! lock guards the whole identifier-to-buffer mapping. Readers acquire
//! shared access and may run in any number at once; `initialise` and
//! `write_byte` acquire exclusive access, so no reader ever observes a
//! half-applied write.
//!
//! A concurrent caller cannot know which state the lock will serve its call,
//! so each reading operation returns, besides its answer, a ghost witness:
//! the snapshot of the mapping that the call was answered against. The
//! contract then states the answer exactly, as a function of that snapshot —
//! every call's outcome agrees with the store's sequential semantics at its
//! linearisation point.

use vstd::prelude::*;
use vstd::rwlock::RwLock;
use crate::decimal::decimal_of;
use crate::encoding::base64_decoding;
use crate::encoding::base64_encoding;
use crate::store::MemoryStore;
use crate::store::StoreError;
use crate::store::byte_result;
use crate::store::range_result;
use crate::store::write_result;

verus! {

/// The identifier-to-buffer mapping behind one coarse reader/writer lock,
/// shared by reference across all concurrent handlers.
pub struct InMemoryState {
    state: RwLock<MemoryStore, spec_fn(MemoryStore) -> bool>,
}

impl InMemoryState {
    /// Every `MemoryStore` value is a valid content of the lock: the lock
    /// serialises access but restricts the mapping in no way.
    #[verifier::type_invariant]
    spec fn wf(self) -> bool {
        forall|store: MemoryStore| self.state.inv(store)
    }

    /// A shared store that starts empty.
    pub fn new() -> (s: Self) {
        let state = RwLock::<MemoryStore, spec_fn(MemoryStore) -> bool>::new(
            MemoryStore::new(),
            Ghost(|store: MemoryStore| true),
        );
        InMemoryState { state }
    }

    /// Decodes a base64-encoded payload and installs the decoded bytes as
    /// the buffer for `id`, replacing the whole buffer at once under the
    /// exclusive lock. Succeeds exactly when the payload decodes; a payload
    /// that does not decode is rejected and the mapping is untouched.
    pub fn initialise_encoded(&self, id: String, program_state: &str) -> (r: Result<
        (),
        StoreError,
    >)
        ensures
            r matches Ok(u) <==> base64_decoding(program_state@) is Some,
            r matches Err(e) ==> e == StoreError::DecodingFailure,
    {
        proof {
            use_type_invariant(self);
        }
        let (mut store, handle) = self.state.acquire_write();
        let result = store.initialise_encoded(id, program_state);
        handle.release_write(store);
        result
    }

    /// Writes one byte under the exclusive lock. The snapshot `r.1` is the
    /// mapping the lock handed this call; the answer is exactly what
    /// `write_result` gives for it, and the new mapping is the updated one.
    pub fn write_byte(&self, id: &str, address: u16, value: u8) -> (r: (
        Result<(), StoreError>,
        Ghost<Map<Seq<char>, Seq<u8>>>,
    ))
        ensures
            (match write_result(r.1@, id@, address as int, value) {
                Ok(updated) => r.0 matches Ok(u),
                Err(e) => r.0 matches Err(actual) && actual == e,
            }),
    {
        proof {
            use_type_invariant(self);
        }
        let (mut store, handle) = self.state.acquire_write();
        let ghost snapshot = store@;
        let result = store.write_byte(id, address, value);
        handle.release_write(store);
        (result, Ghost(snapshot))
    }

    /// Reads one byte under a shared lock. The snapshot `r.1` is the mapping
    /// this call was answered against; the answer is exactly what
    /// `byte_result` gives for it.
    pub fn read_byte(&self, id: &str, address: u16) -> (r: (
        Result<u8, StoreError>,
        Ghost<Map<Seq<char>, Seq<u8>>>,
    ))
        ensures
            r.0 == byte_result(r.1@, id@, address as int),
    {
        let handle = self.state.acquire_read();
        let store = handle.borrow();
        let result = store.read_byte(id, address);
        let ghost snapshot = store@;
        handle.release_read();
        (result, Ghost(snapshot))
    }

    /// Reads one byte under a shared lock and renders it as its decimal
    /// digits, the form in which the answer travels back to the caller.
    pub fn read_byte_decimal(&self, id: &str, address: u16) -> (r: (
        Result<String, StoreError>,
        Ghost<Map<Seq<char>, Seq<u8>>>,
    ))
        ensures
            (match byte_result(r.1@, id@, address as int) {
                Ok(value) => r.0 matches Ok(s) && s@ == decimal_of(value as int),
                Err(e) => r.0 matches Err(actual) && actual == e,
            }),
    {
        let handle = self.state.acquire_read();
        let store = handle.borrow();
        let result = store.read_byte_decimal(id, address);
        let ghost snapshot = store@;
        handle.release_read();
        (result, Ghost(snapshot))
    }

    /// Reads the range `[address, address + length)` under a shared lock and
    /// answers it base64-encoded.
    pub fn read_range_encoded(&self, id: &str, address: u16, length: u16) -> (r: (
        Result<String, StoreError>,
        Ghost<Map<Seq<char>, Seq<u8>>>,
    ))
        ensures
            (match range_result(r.1@, id@, address as int, length as int) {
                Ok(bytes) => r.0 matches Ok(s) && s@ == base64_encoding(bytes),
                Err(e) => r.0 matches Err(actual) && actual == e,
            }),
    {
        let handle = self.state.acquire_read();
        let store = handle.borrow();
        let result = store.read_range_encoded(id, address, length);
        let ghost snapshot = store@;
        handle.release_read();
        (result, Ghost(snapshot))
    }
}

} // verus!
