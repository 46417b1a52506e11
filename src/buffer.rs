//! The stream buffer: a `bytes::BytesMut` seen as the sequence of bytes it holds.

use vstd::prelude::*;
use bytes::BytesMut;

verus! {

#[verifier::external_type_specification]
#[verifier::external_body]
pub struct ExBytesMut(BytesMut);

/// The bytes that a buffer holds, in order.
pub uninterp spec fn buffer_contents(b: BytesMut) -> Seq<u8>;

/// Relies on BytesMut::len: the number of bytes held.
#[verifier::external_body]
pub(crate) fn buffer_len(b: &BytesMut) -> (r: usize)
    ensures
        r == buffer_contents(*b).len(),
{
    b.len()
}

/// Relies on indexing a BytesMut by a range (through its deref to a slice):
/// a copy of the first `n` bytes held, the buffer left as it is.
#[verifier::external_body]
pub(crate) fn buffer_prefix(b: &BytesMut, n: usize) -> (r: Vec<u8>)
    requires
        n <= buffer_contents(*b).len(),
    ensures
        r@ == buffer_contents(*b).take(n as int),
{
    b[..n].to_vec()
}

/// Relies on Buf::advance for BytesMut: drops the first `n` bytes held.
/// It panics when `n` exceeds the length, which `requires` rules out.
#[verifier::external_body]
pub(crate) fn buffer_advance(b: &mut BytesMut, n: usize)
    requires
        n <= buffer_contents(*old(b)).len(),
    ensures
        buffer_contents(*final(b)) == buffer_contents(*old(b)).skip(n as int),
{
    bytes::Buf::advance(b, n)
}

/// Relies on BytesMut::reserve: makes room for `additional` more bytes and
/// keeps the bytes held. It panics when the new capacity overflows `usize`.
#[verifier::external_body]
pub(crate) fn buffer_reserve(b: &mut BytesMut, additional: usize)
    requires
        buffer_contents(*old(b)).len() + additional <= usize::MAX,
    ensures
        buffer_contents(*final(b)) == buffer_contents(*old(b)),
{
    b.reserve(additional)
}

/// Relies on BytesMut::extend_from_slice: appends `s` to the bytes held.
/// It reserves first, and so panics where `reserve` does.
#[verifier::external_body]
pub(crate) fn buffer_extend(b: &mut BytesMut, s: &[u8])
    requires
        buffer_contents(*old(b)).len() + s@.len() <= usize::MAX,
    ensures
        buffer_contents(*final(b)) == buffer_contents(*old(b)) + s@,
{
    b.extend_from_slice(s)
}

} // verus!
