//! The byte buffers of the `bytes` crate, as far as the encoder uses them.
//!
//! Nothing in this module is proved. Each item states what the `bytes` crate
//! does, and the rest of the library is verified against these statements.

use bytes::{BufMut, Bytes, BytesMut};
use vstd::prelude::*;

verus! {

/// `bytes::BytesMut`, a growable byte buffer. Its contents are known to the
/// verifier only through [`bytes_mut_contents`].
#[verifier::external_type_specification]
#[verifier::external_body]
pub struct ExBytesMut(BytesMut);

/// `bytes::Bytes`, an immutable byte buffer. Its contents are known to the
/// verifier only through [`bytes_contents`].
#[verifier::external_type_specification]
#[verifier::external_body]
pub struct ExBytes(Bytes);

/// The bytes that a `BytesMut` holds, first to last: what it dereferences to.
pub uninterp spec fn bytes_mut_contents(buf: BytesMut) -> Seq<u8>;

/// The number of bytes that a `BytesMut` was made to hold. It holds that many
/// without growing; what it has allocated may be more.
pub uninterp spec fn bytes_mut_limit(buf: BytesMut) -> nat;

/// The bytes that a `Bytes` holds, first to last: what it dereferences to.
pub uninterp spec fn bytes_contents(bytes: Bytes) -> Seq<u8>;

/// `BytesMut::with_capacity` returns a buffer that holds no bytes and can
/// take at least `capacity` of them without growing. The capacity is handed
/// on to `Vec::with_capacity`, which panics above `isize::MAX` bytes.
pub assume_specification[ BytesMut::with_capacity ](capacity: usize) -> (buf: BytesMut)
    requires
        capacity <= isize::MAX,
    ensures
        bytes_mut_contents(buf) == Seq::<u8>::empty(),
        bytes_mut_limit(buf) == capacity,
;

/// `BytesMut::freeze` turns the buffer into a `Bytes` that holds the same
/// bytes in the same order.
pub assume_specification[ BytesMut::freeze ](buf: BytesMut) -> (bytes: Bytes)
    ensures
        bytes_contents(bytes) == bytes_mut_contents(buf),
;

/// `BufMut::put_u8` on a `BytesMut` appends the one byte `n`. The buffer
/// would grow to take it; only the case where it has room is claimed here.
#[verifier::external_body]
pub(crate) fn put_u8(buf: &mut BytesMut, n: u8)
    requires
        bytes_mut_contents(*old(buf)).len() < bytes_mut_limit(*old(buf)),
    ensures
        bytes_mut_contents(*final(buf)) == bytes_mut_contents(*old(buf)).push(n),
        bytes_mut_limit(*final(buf)) == bytes_mut_limit(*old(buf)),
{
    buf.put_u8(n)
}

/// `BufMut::put_slice` on a `BytesMut` appends the bytes of `src` in order.
/// The buffer would grow to take them; only the case where it has room is
/// claimed here.
#[verifier::external_body]
pub(crate) fn put_slice(buf: &mut BytesMut, src: &[u8])
    requires
        bytes_mut_contents(*old(buf)).len() + src@.len() <= bytes_mut_limit(*old(buf)),
    ensures
        bytes_mut_contents(*final(buf)) == bytes_mut_contents(*old(buf)) + src@,
        bytes_mut_limit(*final(buf)) == bytes_mut_limit(*old(buf)),
{
    buf.put_slice(src)
}

} // verus!
