//! The full codec for text frames: the pluggable serializer composed with
//! the length-prefixed framing.
//!
//! `Payload` holds no state between calls; every decision a decode makes is
//! recoverable from the buffer's own bytes, which is what lets the same
//! routine be called again and again as bytes trickle in.

use vstd::prelude::*;
use vstd::string::StringSliceAdditionalSpecFns;
use vstd::utf8::encode_utf8;
use crate::MAX_FRAME_SIZE;
use crate::bytebuf::buf_bytes;
use crate::codec::{
    after_first_frame, decode_frame, encode_frame, first_payload, frame_bytes, frame_complete,
    frame_incomplete, frame_oversize, lemma_chunked_delivery, lemma_frame_round_trip, FrameError,
};
use crate::text::{
    deserialize_text, lemma_text_round_trip, serialize_text, text_bytes, text_of, text_wf,
};

verus! {

/// The stateless text-frame codec.
pub struct Payload;

impl Payload {
    /// A fresh codec. There is no state to set up: the codec is a pure
    /// transformation on buffers.
    pub fn new() -> Payload {
        Payload
    }

    /// Encodes `item` and appends its frame to `dst`: the 4-byte
    /// little-endian length of the serialized value, then the serialized
    /// value itself. When the serialized form would exceed
    /// `MAX_FRAME_SIZE`, nothing at all is appended and the frame is
    /// rejected as oversize, so no partial encoding can ever be
    /// transmitted.
    pub fn encode(&self, item: &str, dst: &mut bytes::BytesMut) -> (r: Result<(), FrameError>)
        requires
            buf_bytes(*old(dst)).len() + 4 + MAX_FRAME_SIZE <= usize::MAX,
        ensures
            item.spec_bytes().len() + 4 <= MAX_FRAME_SIZE ==> {
                &&& r is Ok
                &&& buf_bytes(*final(dst)) == buf_bytes(*old(dst)) + frame_bytes(
                    text_bytes(item@),
                )
            },
            item.spec_bytes().len() + 4 > MAX_FRAME_SIZE ==> {
                &&& r == Result::<(), FrameError>::Err(FrameError::Oversize)
                &&& buf_bytes(*final(dst)) == buf_bytes(*old(dst))
            },
    {
        match serialize_text(item) {
            Err(e) => Err(e),
            Ok(payload) => {
                proof {
                    vstd::bytes::lemma_auto_spec_u32_to_from_le_bytes();
                }
                encode_frame(&payload, dst)
            },
        }
    }

    /// Attempts to parse the next frame off the front of `src`.
    ///
    /// While fewer than a whole frame's bytes are buffered, reports that no
    /// frame is ready and leaves the buffer untouched. A declared length
    /// above `MAX_FRAME_SIZE` is rejected as oversize with the buffer
    /// untouched. Only a whole frame is consumed, exactly its `4 + L`
    /// bytes, and its payload either deserializes into the returned value
    /// or is rejected as malformed.
    pub fn decode(&self, src: &mut bytes::BytesMut) -> (r: Result<Option<String>, FrameError>)
        ensures
            frame_incomplete(buf_bytes(*old(src))) ==> {
                &&& r == Result::<Option<String>, FrameError>::Ok(None)
                &&& buf_bytes(*final(src)) == buf_bytes(*old(src))
            },
            frame_oversize(buf_bytes(*old(src))) ==> {
                &&& r == Result::<Option<String>, FrameError>::Err(FrameError::Oversize)
                &&& buf_bytes(*final(src)) == buf_bytes(*old(src))
            },
            frame_complete(buf_bytes(*old(src))) ==> {
                &&& buf_bytes(*final(src)) == after_first_frame(buf_bytes(*old(src)))
                &&& text_wf(first_payload(buf_bytes(*old(src)))) ==> {
                    &&& r matches Ok(Some(s))
                    &&& s@ == text_of(first_payload(buf_bytes(*old(src))))
                }
                &&& !text_wf(first_payload(buf_bytes(*old(src)))) ==> r == Result::<
                    Option<String>,
                    FrameError,
                >::Err(FrameError::Malformed)
            },
    {
        match decode_frame(src) {
            Err(e) => Err(e),
            Ok(None) => Ok(None),
            Ok(Some(payload)) => match deserialize_text(&payload) {
                Ok(s) => Ok(Some(s)),
                Err(e) => Err(e),
            },
        }
    }
}

/// Round-trip: for any text value whose serialized form fits in a frame,
/// the bytes `encode` appends are one complete frame whose payload stands
/// for exactly that value, with nothing left over; a decode of those bytes
/// therefore returns the value and empties the buffer.
pub proof fn lemma_round_trip(s: Seq<char>)
    requires
        encode_utf8(s).len() + 4 <= MAX_FRAME_SIZE,
    ensures
        frame_complete(frame_bytes(text_bytes(s))),
        first_payload(frame_bytes(text_bytes(s))) == text_bytes(s),
        after_first_frame(frame_bytes(text_bytes(s))) == Seq::<u8>::empty(),
        text_wf(text_bytes(s)),
        text_of(text_bytes(s)) == s,
{
    lemma_text_round_trip(s);
    lemma_frame_round_trip(text_bytes(s));
}

/// Chunked delivery for text values: every strict prefix of an encoded
/// value is an incomplete frame, on which a decode reports that no frame is
/// ready yet and consumes nothing. Retrying as bytes arrive therefore ends,
/// on the last byte, with the same value as if all bytes had arrived at
/// once.
pub proof fn lemma_chunked_round_trip(s: Seq<char>, k: int)
    requires
        encode_utf8(s).len() + 4 <= MAX_FRAME_SIZE,
        0 <= k < frame_bytes(text_bytes(s)).len(),
    ensures
        frame_incomplete(frame_bytes(text_bytes(s)).subrange(0, k)),
{
    lemma_text_round_trip(s);
    lemma_chunked_delivery(text_bytes(s), k);
}

} // verus!
