//! Trusted view of the growable byte buffer from the `bytes` crate.
//!
//! The receive buffer and the write staging area are `bytes::BytesMut`
//! values. Verus sees them only through the wrappers below, whose contracts
//! speak of `buf_bytes`, the sequence of bytes the buffer currently holds.

use vstd::prelude::*;

verus! {

#[verifier::external_type_specification]
#[verifier::external_body]
pub struct ExBytesMut(bytes::BytesMut);

/// The bytes a `bytes::BytesMut` currently holds, front first.
pub uninterp spec fn buf_bytes(b: bytes::BytesMut) -> Seq<u8>;

/// Relies on `bytes::BytesMut::new`: creates a buffer holding no bytes.
#[verifier::external_body]
pub fn buf_new() -> (b: bytes::BytesMut)
    ensures
        buf_bytes(b) == Seq::<u8>::empty(),
{
    bytes::BytesMut::new()
}

/// Relies on `bytes::BytesMut::len`: the number of bytes in the buffer.
#[verifier::external_body]
pub fn buf_len(b: &bytes::BytesMut) -> (n: usize)
    ensures
        n == buf_bytes(*b).len(),
{
    b.len()
}

/// Relies on `Deref<Target = [u8]>` for `bytes::BytesMut` (the held bytes,
/// front first) together with `slice::to_vec`.
#[verifier::external_body]
pub fn buf_slice_to_vec(b: &bytes::BytesMut, from: usize, to: usize) -> (v: Vec<u8>)
    requires
        from <= to <= buf_bytes(*b).len(),
    ensures
        v@ == buf_bytes(*b).subrange(from as int, to as int),
{
    b[from..to].to_vec()
}

/// Relies on `bytes::Buf::advance` for `bytes::BytesMut`: discards the first
/// `n` bytes, keeping the rest in order. Panics when `n` exceeds the length,
/// so that case is excluded here.
#[verifier::external_body]
pub fn buf_advance(b: &mut bytes::BytesMut, n: usize)
    requires
        n <= buf_bytes(*old(b)).len(),
    ensures
        buf_bytes(*final(b)) == buf_bytes(*old(b)).subrange(
            n as int,
            buf_bytes(*old(b)).len() as int,
        ),
{
    bytes::Buf::advance(b, n)
}

/// Relies on `bytes::BytesMut::reserve`: grows capacity only, the held bytes
/// are unchanged. Panics when the new capacity overflows `usize`, so the sum
/// is bounded here.
#[verifier::external_body]
pub fn buf_reserve(b: &mut bytes::BytesMut, additional: usize)
    requires
        buf_bytes(*old(b)).len() + additional <= usize::MAX,
    ensures
        buf_bytes(*final(b)) == buf_bytes(*old(b)),
{
    b.reserve(additional)
}

/// Relies on `bytes::BytesMut::extend_from_slice`: appends the slice's bytes
/// at the back.
#[verifier::external_body]
pub fn buf_extend(b: &mut bytes::BytesMut, s: &[u8])
    requires
        buf_bytes(*old(b)).len() + s@.len() <= usize::MAX,
    ensures
        buf_bytes(*final(b)) == buf_bytes(*old(b)) + s@,
{
    b.extend_from_slice(s)
}

} // verus!
