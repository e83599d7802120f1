//! The growable buffer that a transport fills and drains.
//!
//! `BytesMut` is not verified here. What this module states of it is taken
//! on trust from its source; the codec is verified against these statements.

use tokio_util::bytes::Buf;
use tokio_util::bytes::BytesMut;
use vstd::prelude::*;

verus! {

/// Makes `BytesMut` known to the verifier, as a type whose inside it does
/// not see.
#[verifier::external_type_specification]
#[verifier::external_body]
pub struct ExBytesMut(tokio_util::bytes::BytesMut);

/// The bytes that a buffer holds, first to last: what `BytesMut::as_ref`
/// shows and `BytesMut::len` counts.
pub uninterp spec fn stream_bytes(buf: &BytesMut) -> Seq<u8>;

/// `BytesMut::as_ref`: the slice of all the bytes that the buffer holds.
#[verifier::external_body]
pub(crate) fn stream_as_slice(buf: &BytesMut) -> (bytes: &[u8])
    ensures
        bytes@ == stream_bytes(buf),
{
    buf.as_ref()
}

/// `Buf::advance` of `BytesMut`: drops the first `cnt` bytes and keeps the
/// rest in order. It panics where `cnt` exceeds the number of bytes held,
/// which the precondition rules out.
#[verifier::external_body]
pub(crate) fn stream_advance(buf: &mut BytesMut, cnt: usize)
    requires
        cnt <= stream_bytes(old(buf)).len(),
    ensures
        stream_bytes(final(buf)) == stream_bytes(old(buf)).skip(cnt as int),
{
    buf.advance(cnt)
}

/// `BytesMut::extend_from_slice`: appends `extend` behind the bytes held,
/// growing the buffer where needed. Growing panics where the new capacity
/// overflows; the precondition keeps the new length within what an
/// allocation can hold. That the machine has the memory is not stated here,
/// as it is not for `Vec`.
#[verifier::external_body]
pub(crate) fn stream_extend(buf: &mut BytesMut, extend: &[u8])
    requires
        stream_bytes(old(buf)).len() + extend@.len() <= isize::MAX,
    ensures
        stream_bytes(final(buf)) == stream_bytes(old(buf)) + extend@,
{
    buf.extend_from_slice(extend)
}

} // verus!
