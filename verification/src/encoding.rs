//! The store's wire encoding: buffers arrive base64-encoded and range reads
//! are answered base64-encoded. The codec itself is the `base64` crate's;
//! its results are named by uninterpreted spec functions, and everything
//! around the two calls is verified against those names.

use vstd::prelude::*;
use crate::store::MemoryStore;
use crate::store::StoreError;
use crate::store::range_result;

verus! {

/// The base64 text (standard alphabet, padded) that encodes a byte sequence.
pub uninterp spec fn base64_encoding(bytes: Seq<u8>) -> Seq<char>;

/// The byte sequence a base64 text decodes to, or `None` where the text is
/// not valid base64 (standard alphabet, padded).
pub uninterp spec fn base64_decoding(text: Seq<char>) -> Option<Seq<u8>>;

/// Relies on `base64::encode`: it encodes with the standard alphabet and
/// padding, and its result depends on the input bytes alone.
#[verifier::external_body]
fn b64_encode(bytes: &Vec<u8>) -> (r: String)
    ensures
        r@ == base64_encoding(bytes@),
{
    base64::encode(bytes)
}

/// Relies on `base64::decode`: it decodes the standard alphabet with padding,
/// its result depends on the input text alone, and it returns an error
/// exactly on text that is not valid base64.
#[verifier::external_body]
fn b64_decode(text: &str) -> (r: Option<Vec<u8>>)
    ensures
        (match r {
            Some(data) => base64_decoding(text@) == Some(data@),
            None => base64_decoding(text@) is None,
        }),
{
    match base64::decode(text) {
        Ok(data) => Some(data),
        Err(_) => None,
    }
}

impl MemoryStore {
    /// Decodes a base64-encoded payload and installs the decoded bytes as
    /// the buffer for `id`. A payload that does not decode is rejected, and
    /// the store is then untouched.
    pub fn initialise_encoded(&mut self, id: String, program_state: &str) -> (r: Result<
        (),
        StoreError,
    >)
        ensures
            (match base64_decoding(program_state@) {
                Some(data) => r matches Ok(u) && final(self)@ == old(self)@.insert(id@, data),
                None => r matches Err(e) && e == StoreError::DecodingFailure && final(self)@
                    == old(self)@,
            }),
    {
        match b64_decode(program_state) {
            Some(data) => {
                self.initialise(id, data);
                Ok(())
            },
            None => Err(StoreError::DecodingFailure),
        }
    }

    /// Reads the range `[address, address + length)` of the buffer for `id`
    /// and answers it base64-encoded.
    pub fn read_range_encoded(&self, id: &str, address: u16, length: u16) -> (r: Result<
        String,
        StoreError,
    >)
        ensures
            (match range_result(self@, id@, address as int, length as int) {
                Ok(bytes) => r matches Ok(s) && s@ == base64_encoding(bytes),
                Err(e) => r matches Err(actual) && actual == e,
            }),
    {
        match self.read_range(id, address, length) {
            Ok(bytes) => Ok(b64_encode(&bytes)),
            Err(e) => Err(e),
        }
    }
}

} // verus!
