//! The pluggable serializer, instantiated for text values.
//!
//! A text value serializes to its UTF-8 byte length as a 4-byte
//! little-endian integer followed by its UTF-8 bytes; deserialization
//! accepts exactly those payloads and nothing else. The scheme is
//! deterministic and symmetric, as the framing layer asks of any serializer.

use vstd::prelude::*;
use vstd::bytes::{
    lemma_auto_spec_u32_to_from_le_bytes, spec_u32_from_le_bytes, spec_u32_to_le_bytes,
    u32_from_le_bytes, u32_to_le_bytes,
};
use vstd::utf8::{
    decode_utf8, decode_utf8_encode_utf8, encode_utf8, encode_utf8_decode_utf8,
    encode_utf8_valid_utf8, valid_utf8,
};
use vstd::string::{StrSliceExecFns, StringSliceAdditionalSpecFns};
use vstd::slice::{slice_subrange, slice_to_vec};
use crate::MAX_FRAME_SIZE;
use crate::codec::FrameError;

verus! {

/// The serialized form of the text value `s`.
pub open spec fn text_bytes(s: Seq<char>) -> Seq<u8> {
    spec_u32_to_le_bytes(encode_utf8(s).len() as u32) + encode_utf8(s)
}

/// Whether `b` is the serialized form of some text value: a length prefix
/// that accounts for exactly the remaining bytes, which are valid UTF-8.
pub open spec fn text_wf(b: Seq<u8>) -> bool {
    &&& b.len() >= 4
    &&& spec_u32_from_le_bytes(b.subrange(0, 4)) == b.len() - 4
    &&& valid_utf8(b.subrange(4, b.len() as int))
}

/// The text value a well-formed payload stands for.
pub open spec fn text_of(b: Seq<u8>) -> Seq<char> {
    decode_utf8(b.subrange(4, b.len() as int))
}

/// Relies on `String::from_utf8`: it succeeds exactly on valid UTF-8 input,
/// and the returned string's UTF-8 encoding is that input.
#[verifier::external_body]
fn vec_to_string(v: Vec<u8>) -> (r: Option<String>)
    ensures
        r is Some <==> valid_utf8(v@),
        r matches Some(s) ==> encode_utf8(s@) == v@,
{
    match String::from_utf8(v) {
        Ok(s) => Some(s),
        Err(_) => None,
    }
}

/// Serializes a text value. A value whose serialized form would exceed
/// `MAX_FRAME_SIZE` is rejected whole, so what is handed to the framing
/// layer below never trips its own length check.
pub fn serialize_text(s: &str) -> (r: Result<Vec<u8>, FrameError>)
    ensures
        s.spec_bytes().len() + 4 <= MAX_FRAME_SIZE ==> {
            &&& r matches Ok(v)
            &&& v@ == text_bytes(s@)
        },
        s.spec_bytes().len() + 4 > MAX_FRAME_SIZE ==> r == Result::<Vec<u8>, FrameError>::Err(
            FrameError::Oversize,
        ),
{
    let mut tail = s.as_bytes_vec();
    let nbytes = tail.len();
    if nbytes > MAX_FRAME_SIZE - 4 {
        return Err(FrameError::Oversize);
    }
    proof {
        lemma_auto_spec_u32_to_from_le_bytes();
    }
    let mut v = u32_to_le_bytes(nbytes as u32);
    v.append(&mut tail);
    proof {
        assert(v@ =~= text_bytes(s@));
    }
    Ok(v)
}

/// Deserializes a payload back into the text value it stands for. Every
/// payload that is not the serialized form of some text value is reported
/// malformed, never guessed at.
pub fn deserialize_text(b: &Vec<u8>) -> (r: Result<String, FrameError>)
    ensures
        text_wf(b@) ==> {
            &&& r matches Ok(s)
            &&& s@ == text_of(b@)
        },
        !text_wf(b@) ==> r == Result::<String, FrameError>::Err(FrameError::Malformed),
{
    let n = b.len();
    if n < 4 {
        return Err(FrameError::Malformed);
    }
    let declared = u32_from_le_bytes(slice_subrange(b.as_slice(), 0, 4));
    if declared as usize != n - 4 {
        return Err(FrameError::Malformed);
    }
    let tail = slice_to_vec(slice_subrange(b.as_slice(), 4, n));
    match vec_to_string(tail) {
        Some(s) => {
            proof {
                encode_utf8_decode_utf8(s@);
            }
            Ok(s)
        },
        None => Err(FrameError::Malformed),
    }
}

/// Serializing any text value yields a well-formed payload that stands for
/// that very value: the serializer half of the round trip.
pub proof fn lemma_text_round_trip(s: Seq<char>)
    requires
        encode_utf8(s).len() + 4 <= MAX_FRAME_SIZE,
    ensures
        text_bytes(s).len() == 4 + encode_utf8(s).len(),
        text_wf(text_bytes(s)),
        text_of(text_bytes(s)) == s,
{
    lemma_auto_spec_u32_to_from_le_bytes();
    encode_utf8_valid_utf8(s);
    encode_utf8_decode_utf8(s);
    assert(text_bytes(s).subrange(0, 4) =~= spec_u32_to_le_bytes(encode_utf8(s).len() as u32));
    assert(text_bytes(s).subrange(4, text_bytes(s).len() as int) =~= encode_utf8(s));
}

/// A well-formed payload is exactly the serialization of the value it
/// stands for: the encoding admits no second reading of the same bytes.
pub proof fn lemma_text_exact(b: Seq<u8>)
    requires
        text_wf(b),
    ensures
        text_bytes(text_of(b)) == b,
{
    lemma_auto_spec_u32_to_from_le_bytes();
    let tail = b.subrange(4, b.len() as int);
    decode_utf8_encode_utf8(tail);
    assert(b.subrange(0, 4) =~= spec_u32_to_le_bytes(spec_u32_from_le_bytes(b.subrange(0, 4))));
    assert(text_bytes(text_of(b)) =~= b);
}

} // verus!
