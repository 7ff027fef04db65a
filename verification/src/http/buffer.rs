//! The growable byte buffer of the `bytes` crate, as the HTTP bodies use it:
//! bytes are appended at the end and split off the front.

use vstd::prelude::*;
use bytes::BytesMut;

verus! {

/// The growable byte buffer of the `bytes` crate, opaque to proofs; what
/// it holds is named by `buffer_bytes`.
#[verifier::external_type_specification]
#[verifier::external_body]
pub struct ExBytesMut(BytesMut);

/// The bytes a buffer holds.
pub uninterp spec fn buffer_bytes(b: BytesMut) -> Seq<u8>;

/// `BytesMut::new`: an empty buffer.
#[verifier::external_body]
pub(crate) fn buffer_new() -> (b: BytesMut)
    ensures
        buffer_bytes(b) == Seq::<u8>::empty(),
{
    BytesMut::new()
}

/// `BytesMut::from(&[u8])`: a buffer holding a copy of the bytes.
#[verifier::external_body]
pub(crate) fn buffer_from(bytes: &[u8]) -> (b: BytesMut)
    ensures
        buffer_bytes(b) == bytes@,
{
    BytesMut::from(bytes)
}

/// `BytesMut::len`: the number of bytes held.
#[verifier::external_body]
pub(crate) fn buffer_len(b: &BytesMut) -> (n: usize)
    ensures
        n == buffer_bytes(*b).len(),
{
    b.len()
}

/// The bytes held, as a slice (`Deref` of `BytesMut`).
#[verifier::external_body]
pub(crate) fn buffer_slice(b: &BytesMut) -> (s: &[u8])
    ensures
        s@ == buffer_bytes(*b),
{
    &b[..]
}

/// `BytesMut::extend_from_slice`: appends the bytes. The buffer grows its
/// allocation first, which panics past `isize::MAX` bytes; that is left
/// out.
#[verifier::external_body]
pub(crate) fn buffer_extend(b: &mut BytesMut, bytes: &[u8])
    requires
        buffer_bytes(*old(b)).len() + bytes@.len() <= isize::MAX,
    ensures
        buffer_bytes(*final(b)) == buffer_bytes(*old(b)) + bytes@,
{
    b.extend_from_slice(bytes)
}

/// `BytesMut::split_to`: removes the first `at` bytes and returns them in
/// a buffer of their own. It panics when `at` exceeds the length; that is
/// left out.
#[verifier::external_body]
pub(crate) fn buffer_split_to(b: &mut BytesMut, at: usize) -> (front: BytesMut)
    requires
        at <= buffer_bytes(*old(b)).len(),
    ensures
        buffer_bytes(front) == buffer_bytes(*old(b)).take(at as int),
        buffer_bytes(*final(b)) == buffer_bytes(*old(b)).skip(at as int),
{
    b.split_to(at)
}

} // verus!
