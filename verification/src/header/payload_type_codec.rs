//! Reading payload types from a stream.

use tokio_util::bytes::BytesMut;
use vstd::prelude::*;
use vstd::slice::slice_subrange;

use crate::definitions::{DOIP_TYPE_LEN, MAX_FRAME_LEN};
use crate::error::DecodeError;
use crate::header::payload_type::PayloadType;
use crate::stream::{stream_advance, stream_as_slice, stream_bytes};

verus! {

/// Reads payload type codes, two bytes each, from a buffer that the transport
/// fills.
#[derive(Clone, Copy, Debug)]
pub struct PayloadTypeCodec;

impl PayloadTypeCodec {
    /// What one step makes of a buffer: a buffer longer than the maximum
    /// frame size is refused, one shorter than a type code has to grow, and
    /// the first two bytes of any other are a known type code or an error.
    pub open spec fn spec_decode(src: Seq<u8>) -> Result<Option<PayloadType>, DecodeError> {
        if src.len() > MAX_FRAME_LEN {
            Err(DecodeError::MessageTooLarge)
        } else if src.len() < DOIP_TYPE_LEN {
            Ok(None)
        } else {
            match PayloadType::spec_from_bytes(src) {
                Some(kind) => Ok(Some(kind)),
                None => Err(DecodeError::InvalidPayloadType),
            }
        }
    }

    /// Takes the payload type that the buffer opens with out of the buffer.
    /// The buffer loses the two bytes of a type code that was read, and
    /// nothing otherwise.
    pub fn decode(&self, src: &mut BytesMut) -> (r: Result<Option<PayloadType>, DecodeError>)
        ensures
            r == Self::spec_decode(stream_bytes(old(src))),
            stream_bytes(final(src)) == if r matches Ok(Some(_)) {
                stream_bytes(old(src)).skip(DOIP_TYPE_LEN as int)
            } else {
                stream_bytes(old(src))
            },
    {
        let bytes: &[u8] = stream_as_slice(src);
        if bytes.len() == 0 {
            return Ok(None);
        }
        if bytes.len() > MAX_FRAME_LEN {
            return Err(DecodeError::MessageTooLarge);
        }
        if bytes.len() < DOIP_TYPE_LEN {
            return Ok(None);
        }
        let kind = match PayloadType::from_bytes(slice_subrange(bytes, 0, DOIP_TYPE_LEN)) {
            Some(kind) => kind,
            None => {
                return Err(DecodeError::InvalidPayloadType);
            },
        };
        stream_advance(src, DOIP_TYPE_LEN);
        Ok(Some(kind))
    }
}

} // verus!
