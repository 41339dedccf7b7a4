//! Length-prefixed message framing over a byte stream.
//!
//! A frame on the wire is a 4-byte little-endian length prefix followed by
//! exactly that many payload bytes. The codec turns payloads into framed
//! bytes and incrementally parses framed bytes back out of a growable
//! receive buffer, tolerating partial delivery.

use vstd::prelude::*;

pub mod bytebuf;
pub mod codec;
pub mod conn;
pub mod payload;
pub mod text;

verus! {

/// Largest payload length, in bytes, that a frame may declare or carry.
pub const MAX_FRAME_SIZE: usize = 8196 * 1024;

} // verus!
