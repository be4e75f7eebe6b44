//! The store itself: a mapping from string identifiers to independently owned
//! byte buffers, with address-checked reads and writes.
//!
//! The mathematical model of a store is a `Map<Seq<char>, Seq<u8>>`. Each
//! operation's outcome is defined by a spec function over that model
//! (`byte_result`, `range_result`, `write_result`), and the executable
//! operations are proved to return exactly that outcome.

use vstd::prelude::*;
use vstd::hash_map::StringHashMap;

verus! {

/// The failures an operation can surface. The store never recovers from one
/// internally: each is returned to the caller at once, and no operation has
/// a partial effect.
#[derive(Clone, Copy, Debug, PartialEq, Eq, Structural)]
pub enum StoreError {
    /// The operation named an identifier with no buffer installed.
    UnknownIdentifier,
    /// A single address, or a range endpoint, exceeds the buffer's bounds.
    AddressOutOfRange,
    /// A transport payload could not be decoded into bytes, so there was
    /// nothing to install.
    DecodingFailure,
}

/// What reading one byte returns: the identifier must name a buffer, and the
/// address must lie strictly below the buffer's length.
pub open spec fn byte_result(m: Map<Seq<char>, Seq<u8>>, id: Seq<char>, address: int) -> Result<
    u8,
    StoreError,
> {
    if !m.contains_key(id) {
        Err(StoreError::UnknownIdentifier)
    } else if address < m[id].len() {
        Ok(m[id][address])
    } else {
        Err(StoreError::AddressOutOfRange)
    }
}

/// What reading a range returns: the half-open interval
/// `[address, address + length)` must lie inside the buffer. An empty range
/// is always valid once the identifier exists, whatever the address.
///
/// The bound is checked in unbounded arithmetic: `address + length` is a
/// mathematical sum, so an interval that overruns the buffer can never wrap
/// around and appear to be in bounds.
pub open spec fn range_result(
    m: Map<Seq<char>, Seq<u8>>,
    id: Seq<char>,
    address: int,
    length: int,
) -> Result<Seq<u8>, StoreError> {
    if !m.contains_key(id) {
        Err(StoreError::UnknownIdentifier)
    } else if length == 0 {
        Ok(Seq::empty())
    } else if address + length <= m[id].len() {
        Ok(m[id].subrange(address, address + length))
    } else {
        Err(StoreError::AddressOutOfRange)
    }
}

/// What writing one byte does to the store: under the same conditions as
/// `byte_result`, the buffer is replaced by a single-element update; on
/// failure the store is untouched.
pub open spec fn write_result(
    m: Map<Seq<char>, Seq<u8>>,
    id: Seq<char>,
    address: int,
    value: u8,
) -> Result<Map<Seq<char>, Seq<u8>>, StoreError> {
    if !m.contains_key(id) {
        Err(StoreError::UnknownIdentifier)
    } else if address < m[id].len() {
        Ok(m.insert(id, m[id].update(address, value)))
    } else {
        Err(StoreError::AddressOutOfRange)
    }
}

/// A mapping from identifiers to buffers: at most one buffer per identifier,
/// and the store owns every buffer it holds.
pub struct MemoryStore {
    buffers: StringHashMap<Vec<u8>>,
}

impl View for MemoryStore {
    type V = Map<Seq<char>, Seq<u8>>;

    closed spec fn view(&self) -> Map<Seq<char>, Seq<u8>> {
        Map::new(
            |id: Seq<char>| self.buffers@.contains_key(id),
            |id: Seq<char>| self.buffers@[id]@,
        )
    }
}

impl MemoryStore {
    /// An empty store: no identifier has a buffer yet.
    pub fn new() -> (s: Self)
        ensures
            s@ == Map::<Seq<char>, Seq<u8>>::empty(),
    {
        let s = MemoryStore { buffers: StringHashMap::new() };
        proof {
            assert(s@ =~= Map::<Seq<char>, Seq<u8>>::empty());
        }
        s
    }

    /// Installs `data` as the buffer for `id`, discarding any buffer the
    /// identifier held before. Any byte sequence, including the empty one,
    /// is accepted.
    pub fn initialise(&mut self, id: String, data: Vec<u8>)
        ensures
            final(self)@ == old(self)@.insert(id@, data@),
    {
        let ghost data_view = data@;
        self.buffers.insert(id, data);
        proof {
            assert(self@ =~= old(self)@.insert(id@, data_view));
        }
    }

    /// Returns the byte the buffer for `id` holds at `address`.
    pub fn read_byte(&self, id: &str, address: u16) -> (r: Result<u8, StoreError>)
        ensures
            r == byte_result(self@, id@, address as int),
    {
        match self.buffers.get(id) {
            None => Err(StoreError::UnknownIdentifier),
            Some(buf) => {
                if (address as usize) < buf.len() {
                    Ok(buf[address as usize])
                } else {
                    Err(StoreError::AddressOutOfRange)
                }
            },
        }
    }

    /// Returns the contiguous slice `[address, address + length)` of the
    /// buffer for `id`, as an owned byte sequence.
    pub fn read_range(&self, id: &str, address: u16, length: u16) -> (r: Result<
        Vec<u8>,
        StoreError,
    >)
        ensures
            (match range_result(self@, id@, address as int, length as int) {
                Ok(bytes) => r matches Ok(v) && v@ == bytes,
                Err(e) => r matches Err(actual) && actual == e,
            }),
    {
        match self.buffers.get(id) {
            None => Err(StoreError::UnknownIdentifier),
            Some(buf) => {
                if length == 0 {
                    Ok(Vec::new())
                } else if (address as usize) + (length as usize) <= buf.len() {
                    let mut out: Vec<u8> = Vec::new();
                    let mut i: usize = 0;
                    while i < length as usize
                        invariant
                            i <= length as usize,
                            address as usize + length as usize <= buf@.len(),
                            out@ == buf@.subrange(address as int, address as int + i as int),
                        decreases length as usize - i,
                    {
                        out.push(buf[(address as usize) + i]);
                        proof {
                            assert(out@ =~= buf@.subrange(
                                address as int,
                                address as int + (i + 1) as int,
                            ));
                        }
                        i += 1;
                    }
                    Ok(out)
                } else {
                    Err(StoreError::AddressOutOfRange)
                }
            },
        }
    }

    /// Sets the byte at `address` of the buffer for `id` to `value`. The
    /// update is a single-element replace: every other byte of every buffer
    /// is untouched, and on failure the store is untouched.
    pub fn write_byte(&mut self, id: &str, address: u16, value: u8) -> (r: Result<
        (),
        StoreError,
    >)
        ensures
            (match write_result(old(self)@, id@, address as int, value) {
                Ok(updated) => r matches Ok(u) && final(self)@ == updated,
                Err(e) => r matches Err(actual) && actual == e && final(self)@ == old(self)@,
            }),
    {
        match self.buffers.get(id) {
            None => Err(StoreError::UnknownIdentifier),
            Some(buf) => {
                if (address as usize) < buf.len() {
                    let mut updated = buf.clone();
                    proof {
                        assert(updated@ =~= buf@);
                    }
                    updated[address as usize] = value;
                    self.buffers.insert(id.to_owned(), updated);
                    proof {
                        assert(self@ =~= old(self)@.insert(
                            id@,
                            old(self)@[id@].update(address as int, value),
                        ));
                    }
                    Ok(())
                } else {
                    Err(StoreError::AddressOutOfRange)
                }
            },
        }
    }
}

} // verus!

