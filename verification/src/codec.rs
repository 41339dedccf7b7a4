//! The frame codec: length-prefixed framing of payload bytes.
//!
//! A framed payload is its length as a 4-byte little-endian prefix followed
//! by the payload itself. `encode_frame` appends a frame to an outgoing
//! buffer; `decode_frame` incrementally parses the next frame off the front
//! of a receive buffer, leaving the buffer untouched until a whole frame is
//! present.

use vstd::prelude::*;
use vstd::bytes::{
    lemma_auto_spec_u32_to_from_le_bytes, spec_u32_from_le_bytes, spec_u32_to_le_bytes,
    u32_from_le_bytes, u32_to_le_bytes,
};
use crate::MAX_FRAME_SIZE;
use crate::bytebuf::{
    buf_advance, buf_bytes, buf_extend, buf_len, buf_reserve, buf_slice_to_vec,
};

verus! {

/// Why a frame could not be produced or parsed.
#[derive(Debug, Clone, Copy, PartialEq, Eq, Structural)]
pub enum FrameError {
    /// A declared or actual payload length exceeds `MAX_FRAME_SIZE`.
    /// Fatal to the connection: reading more bytes can never mend it.
    Oversize,
    /// A complete payload was present but did not deserialize into a value.
    /// Fatal: the buffer is not resynchronized.
    Malformed,
}

/// The wire encoding of a payload: 4-byte little-endian length, then the
/// payload bytes.
pub open spec fn frame_bytes(payload: Seq<u8>) -> Seq<u8> {
    spec_u32_to_le_bytes(payload.len() as u32) + payload
}

/// Whether a receive buffer holding `b` is still short of a whole frame:
/// either the prefix itself is incomplete, or the declared length is within
/// bounds but the payload has not fully arrived.
pub open spec fn frame_incomplete(b: Seq<u8>) -> bool {
    ||| b.len() < 4
    ||| {
        &&& spec_u32_from_le_bytes(b.subrange(0, 4)) <= MAX_FRAME_SIZE
        &&& b.len() < 4 + spec_u32_from_le_bytes(b.subrange(0, 4))
    }
}

/// Whether the first 4 bytes of `b` declare a length above `MAX_FRAME_SIZE`.
pub open spec fn frame_oversize(b: Seq<u8>) -> bool {
    &&& b.len() >= 4
    &&& spec_u32_from_le_bytes(b.subrange(0, 4)) > MAX_FRAME_SIZE
}

/// Whether `b` starts with a whole frame of an admissible length.
pub open spec fn frame_complete(b: Seq<u8>) -> bool {
    &&& b.len() >= 4
    &&& spec_u32_from_le_bytes(b.subrange(0, 4)) <= MAX_FRAME_SIZE
    &&& b.len() >= 4 + spec_u32_from_le_bytes(b.subrange(0, 4))
}

/// The payload of the first frame of `b`.
pub open spec fn first_payload(b: Seq<u8>) -> Seq<u8> {
    b.subrange(4, 4 + spec_u32_from_le_bytes(b.subrange(0, 4)))
}

/// What remains of `b` after the first frame.
pub open spec fn after_first_frame(b: Seq<u8>) -> Seq<u8> {
    b.subrange(4 + spec_u32_from_le_bytes(b.subrange(0, 4)), b.len() as int)
}

/// Appends the frame for `payload` to `dst`: the 4-byte little-endian length
/// prefix immediately followed by the payload. A payload longer than
/// `MAX_FRAME_SIZE` is rejected whole: nothing is appended.
pub fn encode_frame(payload: &Vec<u8>, dst: &mut bytes::BytesMut) -> (r: Result<(), FrameError>)
    requires
        buf_bytes(*old(dst)).len() + 4 + MAX_FRAME_SIZE <= usize::MAX,
    ensures
        payload@.len() <= MAX_FRAME_SIZE ==> {
            &&& r is Ok
            &&& buf_bytes(*final(dst)) == buf_bytes(*old(dst)) + frame_bytes(payload@)
        },
        payload@.len() > MAX_FRAME_SIZE ==> {
            &&& r == Result::<(), FrameError>::Err(FrameError::Oversize)
            &&& buf_bytes(*final(dst)) == buf_bytes(*old(dst))
        },
{
    let n = payload.len();
    if n > MAX_FRAME_SIZE {
        return Err(FrameError::Oversize);
    }
    proof {
        lemma_auto_spec_u32_to_from_le_bytes();
    }
    let prefix = u32_to_le_bytes(n as u32);
    buf_extend(dst, prefix.as_slice());
    buf_extend(dst, payload.as_slice());
    proof {
        assert(buf_bytes(*dst) =~= buf_bytes(*old(dst)) + frame_bytes(payload@));
    }
    Ok(())
}

/// A frame followed by any further bytes is complete: the first frame's
/// payload comes back exactly, and exactly the further bytes are left over.
/// In particular a second frame appended after the first is untouched by
/// the decode of the first and can be decoded next.
pub proof fn lemma_two_frames(payload: Seq<u8>, rest: Seq<u8>)
    requires
        payload.len() <= MAX_FRAME_SIZE,
    ensures
        frame_complete(frame_bytes(payload) + rest),
        first_payload(frame_bytes(payload) + rest) == payload,
        after_first_frame(frame_bytes(payload) + rest) == rest,
{
    lemma_auto_spec_u32_to_from_le_bytes();
    let b = frame_bytes(payload) + rest;
    assert(b.subrange(0, 4) =~= spec_u32_to_le_bytes(payload.len() as u32));
    assert(first_payload(b) =~= payload);
    assert(after_first_frame(b) =~= rest);
}

/// Round-trip at the framing level: the encoding of an admissible payload
/// is one complete frame that decodes back to that payload, leaving
/// nothing over.
pub proof fn lemma_frame_round_trip(payload: Seq<u8>)
    requires
        payload.len() <= MAX_FRAME_SIZE,
    ensures
        frame_bytes(payload).len() == 4 + payload.len(),
        frame_complete(frame_bytes(payload)),
        first_payload(frame_bytes(payload)) == payload,
        after_first_frame(frame_bytes(payload)) == Seq::<u8>::empty(),
{
    lemma_auto_spec_u32_to_from_le_bytes();
    lemma_two_frames(payload, Seq::<u8>::empty());
    assert(frame_bytes(payload) + Seq::<u8>::empty() =~= frame_bytes(payload));
}

/// Chunked delivery: every strict prefix of a framed payload is an
/// incomplete frame, so a decode attempt on it reports that no frame is
/// ready yet and consumes nothing; only once the last byte has arrived
/// does decoding yield the payload, the same as if all bytes had arrived
/// at once.
pub proof fn lemma_chunked_delivery(payload: Seq<u8>, k: int)
    requires
        payload.len() <= MAX_FRAME_SIZE,
        0 <= k < frame_bytes(payload).len(),
    ensures
        frame_incomplete(frame_bytes(payload).subrange(0, k)),
{
    lemma_auto_spec_u32_to_from_le_bytes();
    let f = frame_bytes(payload);
    let p = f.subrange(0, k);
    if k >= 4 {
        assert(p.subrange(0, 4) =~= spec_u32_to_le_bytes(payload.len() as u32));
    }
}

/// Oversize rejection: a 4-byte prefix declaring a length above
/// `MAX_FRAME_SIZE` condemns the buffer whatever bytes follow it; nothing
/// past the prefix matters.
pub proof fn lemma_oversize_rejection(prefix: Seq<u8>, rest: Seq<u8>)
    requires
        prefix.len() == 4,
        spec_u32_from_le_bytes(prefix) > MAX_FRAME_SIZE,
    ensures
        frame_oversize(prefix + rest),
{
    assert((prefix + rest).subrange(0, 4) =~= prefix);
}

/// Exact consumption: decoding one complete frame takes exactly the prefix
/// and the declared payload off the front and no more.
pub proof fn lemma_exact_consumption(b: Seq<u8>)
    requires
        frame_complete(b),
    ensures
        first_payload(b).len() == spec_u32_from_le_bytes(b.subrange(0, 4)),
        after_first_frame(b).len() == b.len() - 4 - spec_u32_from_le_bytes(b.subrange(0, 4)),
{
}

/// Parses the next frame off the front of `src`.
///
/// Returns `Ok(None)` while fewer than a whole frame's bytes have arrived,
/// leaving the buffer untouched (capacity may be reserved ahead as a hint).
/// Returns `Err(Oversize)` when the declared length exceeds
/// `MAX_FRAME_SIZE`, again leaving the buffer untouched. Only when the whole
/// frame is present are its `4 + L` bytes consumed, and the payload
/// returned.
pub fn decode_frame(src: &mut bytes::BytesMut) -> (r: Result<Option<Vec<u8>>, FrameError>)
    ensures
        frame_incomplete(buf_bytes(*old(src))) ==> {
            &&& r == Result::<Option<Vec<u8>>, FrameError>::Ok(None)
            &&& buf_bytes(*final(src)) == buf_bytes(*old(src))
        },
        frame_oversize(buf_bytes(*old(src))) ==> {
            &&& r == Result::<Option<Vec<u8>>, FrameError>::Err(FrameError::Oversize)
            &&& buf_bytes(*final(src)) == buf_bytes(*old(src))
        },
        frame_complete(buf_bytes(*old(src))) ==> {
            &&& r matches Ok(Some(payload))
            &&& payload@ == first_payload(buf_bytes(*old(src)))
            &&& buf_bytes(*final(src)) == after_first_frame(buf_bytes(*old(src)))
        },
{
    let n = buf_len(src);
    if n < 4 {
        return Ok(None);
    }
    let prefix = buf_slice_to_vec(src, 0, 4);
    let length = u32_from_le_bytes(prefix.as_slice()) as usize;
    if length > MAX_FRAME_SIZE {
        return Err(FrameError::Oversize);
    }
    if n < 4 + length {
        buf_reserve(src, 4 + length - n);
        return Ok(None);
    }
    let payload = buf_slice_to_vec(src, 4, 4 + length);
    buf_advance(src, 4 + length);
    Ok(Some(payload))
}

} // verus!
