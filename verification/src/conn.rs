//! The connection: one receive buffer and one write staging area, driven
//! against a byte-stream transport the caller owns.
//!
//! The transport itself stays outside: the caller reads from it and hands
//! each delivered chunk to `on_read`, and writes `staged_bytes` to it,
//! reporting back how much was accepted. Every decision in between — when a
//! frame is ready, when more bytes are needed, when the peer has cleanly
//! closed, and when the connection is beyond saving — is made here.

use vstd::prelude::*;
use vstd::string::StringSliceAdditionalSpecFns;
use crate::MAX_FRAME_SIZE;
use crate::bytebuf::{buf_advance, buf_bytes, buf_extend, buf_len, buf_new, buf_slice_to_vec};
use crate::codec::{
    after_first_frame, first_payload, frame_bytes, frame_complete, frame_incomplete,
    frame_oversize, FrameError,
};
use crate::payload::Payload;
use crate::text::{text_bytes, text_of, text_wf};

verus! {

/// What one step of the receive loop decided.
pub enum RecvStep {
    /// A whole frame arrived and parsed: here is its value.
    Received(String),
    /// No whole frame is buffered yet; read more and call again. A stalled
    /// peer leaves the loop here indefinitely: any timeout policy is the
    /// caller's to choose.
    NeedMore,
    /// The peer closed cleanly with nothing buffered: the graceful end of
    /// the connection.
    EndOfStream,
    /// The connection is beyond saving: an oversize or malformed frame.
    Failed(FrameError),
}

/// One endpoint's framing state: the receive buffer for bytes not yet
/// parsed into frames, and the staging area for encoded bytes not yet
/// accepted by the transport.
pub struct Conn {
    payload: Payload,
    recv: bytes::BytesMut,
    out: bytes::BytesMut,
}

impl Conn {
    /// The bytes received from the transport and not yet consumed as
    /// frames.
    pub closed spec fn recv_bytes(&self) -> Seq<u8> {
        buf_bytes(self.recv)
    }

    /// The encoded bytes staged for the transport and not yet accepted by
    /// it.
    pub closed spec fn staged(&self) -> Seq<u8> {
        buf_bytes(self.out)
    }

    /// A fresh connection state: nothing received, nothing staged.
    pub fn new() -> (c: Conn)
        ensures
            c.recv_bytes() == Seq::<u8>::empty(),
            c.staged() == Seq::<u8>::empty(),
    {
        Conn { payload: Payload::new(), recv: buf_new(), out: buf_new() }
    }

    /// Encodes `item` and stages its frame for sending. An oversize value
    /// is rejected whole: nothing reaches the staging area, so no partial
    /// encoding can ever be written to the transport.
    pub fn stage(&mut self, item: &str) -> (r: Result<(), FrameError>)
        requires
            old(self).staged().len() + 4 + MAX_FRAME_SIZE <= usize::MAX,
        ensures
            final(self).recv_bytes() == old(self).recv_bytes(),
            item.spec_bytes().len() + 4 <= MAX_FRAME_SIZE ==> {
                &&& r is Ok
                &&& final(self).staged() == old(self).staged() + frame_bytes(text_bytes(item@))
            },
            item.spec_bytes().len() + 4 > MAX_FRAME_SIZE ==> {
                &&& r == Result::<(), FrameError>::Err(FrameError::Oversize)
                &&& final(self).staged() == old(self).staged()
            },
    {
        self.payload.encode(item, &mut self.out)
    }

    /// The staged bytes, for the caller to write to the transport.
    pub fn staged_bytes(&self) -> (v: Vec<u8>)
        ensures
            v@ == self.staged(),
    {
        let n = buf_len(&self.out);
        buf_slice_to_vec(&self.out, 0, n)
    }

    /// Records that the transport accepted the first `n` staged bytes;
    /// the rest stay staged for the next write.
    pub fn consume_staged(&mut self, n: usize)
        requires
            n <= old(self).staged().len(),
        ensures
            final(self).recv_bytes() == old(self).recv_bytes(),
            final(self).staged() == old(self).staged().subrange(
                n as int,
                old(self).staged().len() as int,
            ),
    {
        buf_advance(&mut self.out, n);
    }

    /// One step of the receive loop: takes the chunk the transport just
    /// delivered and decides.
    ///
    /// A zero-byte read with nothing buffered is the peer's clean close:
    /// end of stream. A zero-byte read over a buffered partial frame is
    /// not — it is a stall, and the step asks for more. Otherwise the
    /// chunk joins the receive buffer and a decode is attempted, which
    /// consumes bytes only by yielding a whole frame.
    pub fn on_read(&mut self, chunk: &[u8]) -> (step: RecvStep)
        requires
            old(self).recv_bytes().len() + chunk@.len() <= usize::MAX,
        ensures
            final(self).staged() == old(self).staged(),
            (chunk@.len() == 0 && old(self).recv_bytes().len() == 0) ==> {
                &&& step is EndOfStream
                &&& final(self).recv_bytes() == old(self).recv_bytes()
            },
            (chunk@.len() > 0 || old(self).recv_bytes().len() > 0) ==> ({
                let b = old(self).recv_bytes() + chunk@;
                &&& frame_incomplete(b) ==> step is NeedMore && final(self).recv_bytes() == b
                &&& frame_oversize(b) ==> step == RecvStep::Failed(FrameError::Oversize)
                    && final(self).recv_bytes() == b
                &&& frame_complete(b) ==> {
                    &&& final(self).recv_bytes() == after_first_frame(b)
                    &&& text_wf(first_payload(b)) ==> {
                        &&& step matches RecvStep::Received(s)
                        &&& s@ == text_of(first_payload(b))
                    }
                    &&& !text_wf(first_payload(b)) ==> step == RecvStep::Failed(
                        FrameError::Malformed,
                    )
                }
            }),
    {
        if chunk.len() == 0 && buf_len(&self.recv) == 0 {
            return RecvStep::EndOfStream;
        }
        buf_extend(&mut self.recv, chunk);
        match self.payload.decode(&mut self.recv) {
            Ok(Some(s)) => RecvStep::Received(s),
            Ok(None) => RecvStep::NeedMore,
            Err(e) => RecvStep::Failed(e),
        }
    }
}

} // verus!
