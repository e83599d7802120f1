//! Writing frames.

use vstd::prelude::*;

use crate::codec::DoipCodec;
use crate::error::EncodeError;
use crate::fixed_buffer::FixedBuffer;
use crate::header::doip_header::HeaderCodec;
use crate::message::{DoipMessage, DoipMessageView};
use crate::payload::payload_codec::PayloadCodec;
use crate::stream::{stream_as_slice, stream_bytes, stream_extend};
use tokio_util::bytes::BytesMut;

verus! {

/// What encoding makes of a message: the first of the three checks that it
/// fails, or `Ok` where it is valid.
pub open spec fn spec_encode_result(message: DoipMessageView) -> Result<(), EncodeError> {
    if message.header.payload_type != message.payload.payload_type() {
        Err(EncodeError::PayloadTypeValidation)
    } else if !message.header.protocol_valid() {
        Err(EncodeError::FailedProtocolValidation)
    } else if message.header.payload_length != message.payload.spec_to_bytes().len() {
        Err(EncodeError::PayloadLengthValidation)
    } else {
        Ok(())
    }
}

/// What encoding into a destination with `room` free bytes makes of a
/// message: an invalid message is refused first, then one whose frame does
/// not fit.
pub open spec fn spec_encode_result_within(message: DoipMessageView, room: int) -> Result<
    (),
    EncodeError,
> {
    match spec_encode_result(message) {
        Err(e) => Err(e),
        Ok(()) => if message.spec_to_bytes().len() > room {
            Err(EncodeError::BufferTooSmall)
        } else {
            Ok(())
        },
    }
}

/// Checks that the header names the type of the payload that it precedes.
pub fn validate_payload_match(item: &DoipMessage) -> (r: Result<(), EncodeError>)
    ensures
        r == if item@.header.payload_type == item@.payload.payload_type() {
            Ok::<(), EncodeError>(())
        } else {
            Err(EncodeError::PayloadTypeValidation)
        },
{
    if item.payload.payload_type() == item.header.payload_type {
        Ok(())
    } else {
        Err(EncodeError::PayloadTypeValidation)
    }
}

/// Checks the payload length that a header declares against the number of
/// payload bytes that were written.
pub fn validate_payload_length(header_len: usize, length: usize) -> (r: Result<(), EncodeError>)
    ensures
        r == if header_len == length {
            Ok::<(), EncodeError>(())
        } else {
            Err(EncodeError::PayloadLengthValidation)
        },
{
    if header_len != length {
        return Err(EncodeError::PayloadLengthValidation);
    }
    Ok(())
}

impl DoipCodec {
    /// Appends the frame of `item` to `dst`.
    ///
    /// A header that names another payload type, or whose check byte is wrong,
    /// is refused before anything is written. A header whose length is not
    /// that of the encoded payload is reported once header and payload have
    /// been written: `dst` then ends with them all the same.
    pub fn to_bytes(&self, item: DoipMessage, dst: &mut Vec<u8>) -> (r: Result<(), EncodeError>)
        ensures
            r == spec_encode_result(item@),
            r is Ok <==> item@.valid(),
            final(dst)@ == if r is Ok || r == Err::<(), EncodeError>(
                EncodeError::PayloadLengthValidation,
            ) {
                old(dst)@ + item@.spec_to_bytes()
            } else {
                old(dst)@
            },
    {
        match validate_payload_match(&item) {
            Err(e) => {
                return Err(e);
            },
            Ok(()) => {},
        }
        let header_len: usize = item.header.payload_length as usize;
        match (HeaderCodec {  }).encode(item.header, dst) {
            Err(e) => {
                return Err(e);
            },
            Ok(()) => {},
        }
        let before_len: usize = dst.len();
        let DoipMessage { header, payload } = item;
        let ghost payload_bytes = payload@.spec_to_bytes();
        match (PayloadCodec {  }).to_bytes(payload, dst) {
            Err(e) => {
                return Err(e);
            },
            Ok(()) => {},
        }
        let after_len: usize = dst.len();
        assert(dst@ =~= old(dst)@ + (header.spec_to_bytes() + payload_bytes));
        validate_payload_length(header_len, after_len - before_len)
    }

    /// Appends the frame of `item` to the buffer that the transport sends.
    ///
    /// Nothing is written unless the message is valid; a frame that would make
    /// the buffer longer than any allocation can be is refused as
    /// `BufferTooSmall`.
    pub fn encode(&self, item: DoipMessage, dst: &mut BytesMut) -> (r: Result<(), EncodeError>)
        ensures
            r == spec_encode_result_within(item@, isize::MAX - stream_bytes(old(dst)).len()),
            stream_bytes(final(dst)) == if r is Ok {
                stream_bytes(old(dst)) + item@.spec_to_bytes()
            } else {
                stream_bytes(old(dst))
            },
    {
        let mut frame: Vec<u8> = Vec::new();
        let ghost value = item@;
        match self.to_bytes(item, &mut frame) {
            Err(e) => {
                return Err(e);
            },
            Ok(()) => {},
        }
        assert(frame@ =~= value.spec_to_bytes());
        let held: usize = stream_as_slice(dst).len();
        let limit: usize = usize::MAX / 2;
        assert(limit == isize::MAX);
        if held > limit || frame.len() > limit - held {
            return Err(EncodeError::BufferTooSmall);
        }
        stream_extend(dst, frame.as_slice());
        Ok(())
    }

    /// Appends the frame of `item` to a buffer of fixed capacity.
    ///
    /// Nothing is written unless the message is valid and its frame fits into
    /// what is left of the buffer.
    pub fn encode_fixed<const N: usize>(&self, item: DoipMessage, dst: &mut FixedBuffer<N>) -> (r:
        Result<(), EncodeError>)
        ensures
            r == spec_encode_result_within(item@, N - old(dst)@.len()),
            final(dst)@ == if r is Ok {
                old(dst)@ + item@.spec_to_bytes()
            } else {
                old(dst)@
            },
    {
        let mut frame: Vec<u8> = Vec::new();
        let ghost value = item@;
        match self.to_bytes(item, &mut frame) {
            Err(e) => {
                return Err(e);
            },
            Ok(()) => {},
        }
        assert(frame@ =~= value.spec_to_bytes());
        match dst.extend_from_slice(frame.as_slice()) {
            Ok(()) => Ok(()),
            Err(()) => Err(EncodeError::BufferTooSmall),
        }
    }
}

} // verus!
