//! The accumulation buffer: a `bytes::BytesMut` owned by the decoder, seen
//! by the proofs as the sequence of bytes it currently holds.
//!
//! Chunks arriving from the byte source are appended at the tail; once a
//! complete frame is available its bytes are consumed from the head.  The
//! buffer type itself comes from the `bytes` crate, so each operation the
//! decoder uses stands behind a trusted wrapper whose contract states what
//! that crate's source shows.

use vstd::prelude::*;

verus! {

#[verifier::external_type_specification]
#[verifier::external_body]
pub struct ExBytesMut(bytes::BytesMut);

/// The bytes a `bytes::BytesMut` currently holds, front to back.
pub uninterp spec fn buf_bytes(b: bytes::BytesMut) -> Seq<u8>;

/// Relies on `bytes::BytesMut::new`: the new buffer has length 0.
#[verifier::external_body]
pub(crate) fn buf_new() -> (b: bytes::BytesMut)
    ensures
        buf_bytes(b) == Seq::<u8>::empty(),
{
    bytes::BytesMut::new()
}

/// Relies on `bytes::BytesMut::len`: the number of bytes in the buffer.
#[verifier::external_body]
pub(crate) fn buf_len(b: &bytes::BytesMut) -> (n: usize)
    ensures
        n == buf_bytes(*b).len(),
{
    b.len()
}

/// Relies on the `Deref<Target = [u8]>` impl of `bytes::BytesMut`: indexing
/// reads the byte at that position.
#[verifier::external_body]
pub(crate) fn buf_byte(b: &bytes::BytesMut, i: usize) -> (r: u8)
    requires
        i < buf_bytes(*b).len(),
    ensures
        r == buf_bytes(*b)[i as int],
{
    b[i]
}

/// Relies on `bytes::BytesMut::extend_from_slice`: appends the given bytes
/// at the tail of the buffer.
#[verifier::external_body]
pub(crate) fn buf_append(b: &mut bytes::BytesMut, data: &Vec<u8>)
    ensures
        buf_bytes(*final(b)) == buf_bytes(*old(b)) + data@,
{
    b.extend_from_slice(data.as_slice())
}

/// Relies on the `bytes::Buf::advance` impl of `bytes::BytesMut`: discards
/// the first `n` bytes.  `advance` panics past the remaining length, which
/// the precondition rules out.
#[verifier::external_body]
pub(crate) fn buf_advance(b: &mut bytes::BytesMut, n: usize)
    requires
        n <= buf_bytes(*b).len(),
    ensures
        buf_bytes(*final(b)) == buf_bytes(*old(b)).skip(n as int),
{
    bytes::Buf::advance(b, n)
}

/// Removes the first `n` bytes of the buffer and hands them out.
pub(crate) fn buf_take(b: &mut bytes::BytesMut, n: usize) -> (r: Vec<u8>)
    requires
        n <= buf_bytes(*b).len(),
    ensures
        r@ == buf_bytes(*old(b)).take(n as int),
        buf_bytes(*final(b)) == buf_bytes(*old(b)).skip(n as int),
{
    let mut r: Vec<u8> = Vec::new();
    let mut i: usize = 0;
    while i < n
        invariant
            i <= n,
            n <= buf_bytes(*b).len(),
            *b == *old(b),
            r@ == buf_bytes(*b).take(i as int),
        decreases n - i,
    {
        let x = buf_byte(b, i);
        r.push(x);
        proof {
            assert(r@ =~= buf_bytes(*b).take(i as int + 1));
        }
        i = i + 1;
    }
    buf_advance(b, n);
    r
}

} // verus!
