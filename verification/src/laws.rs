//! The store's laws, stated over its mathematical model and proved from the
//! same spec functions that the operations' contracts use. A store value `m`
//! stands for the contents of a `MemoryStore` (its view), `m.insert(id, b)`
//! for the effect of `initialise`, and `byte_result` / `range_result` /
//! `write_result` for what `read_byte` / `read_range` / `write_byte` return.

use vstd::prelude::*;
use crate::store::StoreError;
use crate::store::byte_result;
use crate::store::range_result;
use crate::store::write_result;

verus! {

/// Round trip: installing a buffer and reading its whole range returns
/// exactly that buffer, whatever the store held before.
pub proof fn lemma_round_trip(m: Map<Seq<char>, Seq<u8>>, id: Seq<char>, data: Seq<u8>)
    ensures
        range_result(m.insert(id, data), id, 0, data.len() as int) == Ok::<Seq<u8>, StoreError>(
            data,
        ),
{
    let installed = m.insert(id, data);
    if data.len() == 0 {
        assert(Seq::<u8>::empty() =~= data);
    } else {
        assert(installed[id].subrange(0, data.len() as int) =~= data);
    }
}

/// Write visibility: after a successful write of `value` at `address`,
/// reading `address` returns `value`, and reading any other address returns
/// what it returned before the write.
pub proof fn lemma_write_visibility(
    m: Map<Seq<char>, Seq<u8>>,
    id: Seq<char>,
    address: int,
    value: u8,
)
    requires
        m.contains_key(id),
        0 <= address < m[id].len(),
    ensures
        write_result(m, id, address, value) matches Ok(updated) && byte_result(
            updated,
            id,
            address,
        ) == Ok::<u8, StoreError>(value) && (forall|other: int|
            0 <= other && other != address ==> #[trigger] byte_result(updated, id, other)
                == byte_result(m, id, other)),
{
    let updated = m.insert(id, m[id].update(address, value));
    assert forall|other: int| 0 <= other && other != address implies byte_result(
        updated,
        id,
        other,
    ) == byte_result(m, id, other) by {
        assert(updated[id].len() == m[id].len());
        if other < m[id].len() {
            assert(updated[id][other] == m[id][other]);
        }
    }
}

/// Idempotent re-initialise: installing `data1` and then `data2` under one
/// identifier leaves exactly the store that installing `data2` alone leaves,
/// and reading the whole range returns `data2`, independent of `data1`.
pub proof fn lemma_reinitialise(
    m: Map<Seq<char>, Seq<u8>>,
    id: Seq<char>,
    data1: Seq<u8>,
    data2: Seq<u8>,
)
    ensures
        m.insert(id, data1).insert(id, data2) == m.insert(id, data2),
        range_result(m.insert(id, data1).insert(id, data2), id, 0, data2.len() as int) == Ok::<
            Seq<u8>,
            StoreError,
        >(data2),
{
    assert(m.insert(id, data1).insert(id, data2) =~= m.insert(id, data2));
    lemma_round_trip(m.insert(id, data1), id, data2);
}

/// Boundary rejection: for a buffer of length `L`, the address `L` is the
/// first invalid one — reading or writing it fails with `AddressOutOfRange`.
pub proof fn lemma_boundary_rejection(m: Map<Seq<char>, Seq<u8>>, id: Seq<char>, value: u8)
    requires
        m.contains_key(id),
    ensures
        byte_result(m, id, m[id].len() as int) == Err::<u8, StoreError>(
            StoreError::AddressOutOfRange,
        ),
        write_result(m, id, m[id].len() as int, value) == Err::<
            Map<Seq<char>, Seq<u8>>,
            StoreError,
        >(StoreError::AddressOutOfRange),
{
}

/// Unknown identifier: reading or writing under an identifier that holds no
/// buffer fails with `UnknownIdentifier`, whatever the arguments.
pub proof fn lemma_unknown_identifier(
    m: Map<Seq<char>, Seq<u8>>,
    id: Seq<char>,
    address: int,
    length: int,
    value: u8,
)
    requires
        !m.contains_key(id),
    ensures
        byte_result(m, id, address) == Err::<u8, StoreError>(StoreError::UnknownIdentifier),
        range_result(m, id, address, length) == Err::<Seq<u8>, StoreError>(
            StoreError::UnknownIdentifier,
        ),
        write_result(m, id, address, value) == Err::<Map<Seq<char>, Seq<u8>>, StoreError>(
            StoreError::UnknownIdentifier,
        ),
{
}

} // verus!
