//! Received bytes that do not form a complete frame yet.

use bytes::BytesMut;
use vstd::prelude::*;

verus! {

/// The growable byte buffer of a frame reader.
#[verifier::external_type_specification]
#[verifier::external_body]
pub struct ExBytesMut(bytes::BytesMut);

/// The bytes that a buffer holds.
pub uninterp spec fn contents(buffer: bytes::BytesMut) -> Seq<u8>;

/// `bytes::BytesMut::new`: a buffer that holds nothing.
#[verifier::external_body]
pub(crate) fn empty_buffer() -> (r: BytesMut)
    ensures
        contents(r) == Seq::<u8>::empty(),
{
    BytesMut::new()
}

/// `bytes::BytesMut::extend_from_slice`: the bytes are appended in order. It
/// panics when the buffer would outgrow what can be allocated.
#[verifier::external_body]
pub(crate) fn append(buffer: &mut BytesMut, bytes: &[u8])
    requires
        contents(*old(buffer)).len() + bytes@.len() <= isize::MAX,
    ensures
        contents(*final(buffer)) == contents(*old(buffer)) + bytes@,
{
    buffer.extend_from_slice(bytes);
}

/// `bytes::BytesMut::as_ref`: the held bytes as a slice.
#[verifier::external_body]
pub(crate) fn bytes_of(buffer: &BytesMut) -> (r: &[u8])
    ensures
        r@ == contents(*buffer),
{
    buffer.as_ref()
}

} // verus!
