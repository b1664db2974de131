//! Decoding the raw return bytes of a read-only call into a typed value.

use vstd::prelude::*;

use crate::error::DecodeError;

verus! {

/// The decoding capability that accompanies an encoded call payload: it turns
/// the raw return bytes of a read-only call into a typed value, or rejects
/// them. A decoder is a pure function of the bytes, which
/// [`OutputDecoder::decode_spec`] states and `decode` is proved against.
pub trait OutputDecoder: Sized {
    /// The typed value the decoder produces.
    type Output;

    /// What this decoder makes of the given return bytes.
    spec fn decode_spec(&self, bytes: Seq<u8>) -> Result<Self::Output, DecodeError>;

    /// Decodes the raw return bytes.
    fn decode(&self, bytes: &[u8]) -> (r: Result<Self::Output, DecodeError>)
        ensures
            r == self.decode_spec(bytes@),
    ;
}

/// What a boolean decoder makes of return bytes: the bytes must be a
/// non-empty big-endian word whose leading bytes are all zero and whose last
/// byte is zero or one, and the value is whether that byte is one.
pub open spec fn spec_decode_bool(bytes: Seq<u8>) -> Result<bool, DecodeError> {
    if bytes.len() >= 1 && (forall|i: int| 0 <= i < bytes.len() - 1 ==> bytes[i] == 0) && (
    bytes[bytes.len() - 1] == 0 || bytes[bytes.len() - 1] == 1) {
        Ok(bytes[bytes.len() - 1] == 1)
    } else {
        Err(DecodeError::InvalidData)
    }
}

/// The encoding of a boolean as a 32-byte big-endian word, as a read-only
/// call returns it.
pub open spec fn spec_encode_bool(value: bool) -> Seq<u8> {
    Seq::new(32, |i: int| if i == 31 && value { 1u8 } else { 0u8 })
}

/// A decoder for a boolean return value: a big-endian word of any width whose
/// last byte holds zero or one.
pub struct BoolDecoder;

impl OutputDecoder for BoolDecoder {
    type Output = bool;

    open spec fn decode_spec(&self, bytes: Seq<u8>) -> Result<bool, DecodeError> {
        spec_decode_bool(bytes)
    }

    fn decode(&self, bytes: &[u8]) -> (r: Result<bool, DecodeError>) {
        let n = bytes.len();
        if n == 0 {
            return Err(DecodeError::InvalidData);
        }
        let mut i: usize = 0;
        while i < n - 1
            invariant
                n == bytes@.len(),
                1 <= n,
                0 <= i <= n - 1,
                forall|j: int| 0 <= j < i ==> bytes@[j] == 0,
            decreases n - 1 - i,
        {
            if bytes[i] != 0 {
                return Err(DecodeError::InvalidData);
            }
            i = i + 1;
        }
        let last = bytes[n - 1];
        if last == 0 {
            Ok(false)
        } else if last == 1 {
            Ok(true)
        } else {
            Err(DecodeError::InvalidData)
        }
    }
}

/// Encodes a boolean as the 32-byte word a compatible read-only call would
/// return.
pub fn encode_bool(value: bool) -> (r: Vec<u8>)
    ensures
        r@ == spec_encode_bool(value),
{
    let mut out: Vec<u8> = Vec::new();
    let mut i: usize = 0;
    while i < 31
        invariant
            i <= 31,
            out@.len() == i,
            forall|j: int| 0 <= j < i ==> out@[j] == 0,
        decreases 31 - i,
    {
        out.push(0u8);
        i = i + 1;
    }
    if value {
        out.push(1u8);
    } else {
        out.push(0u8);
    }
    proof {
        assert(out@ =~= spec_encode_bool(value));
    }
    out
}

/// Decoding the encoding of a boolean yields that boolean back: the encode
/// and decode sides of the word format agree on every value.
pub proof fn lemma_bool_round_trip(value: bool)
    ensures
        spec_decode_bool(spec_encode_bool(value)) == Ok::<bool, DecodeError>(value),
{
    let bytes = spec_encode_bool(value);
    assert(bytes.len() == 32);
    assert(forall|i: int| 0 <= i < 31 ==> bytes[i] == 0);
    assert(bytes[31] == (if value { 1u8 } else { 0u8 }));
}

} // verus!
