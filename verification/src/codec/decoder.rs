//! Reading frames: from a slice that holds one, and from a buffer that fills
//! up piece by piece.

use vstd::prelude::*;
use vstd::slice::slice_subrange;

use crate::codec::DoipCodec;
use crate::definitions::{DOIP_HEADER_LEN, MAX_FRAME_LEN};
use crate::endian::spec_u32_from_be;
use crate::error::DecodeError;
use crate::fixed_buffer::FixedBuffer;
use crate::header::doip_header::{DoipHeader, HeaderCodec};
use crate::message::{DoipMessage, DoipMessageView};
use crate::payload::payload_codec::PayloadCodec;
use crate::payload::PayloadView;
use crate::stream::{stream_advance, stream_as_slice, stream_bytes};
use tokio_util::bytes::BytesMut;

verus! {

/// The message that `src` holds where `src` is all there is: `Ok(None)` where
/// it is shorter than a header, an error where the header is invalid, where
/// fewer payload bytes follow than the header declares, or where the payload
/// is invalid. The payload is read from exactly the declared number of bytes.
pub open spec fn spec_decode_message(src: Seq<u8>) -> Result<Option<DoipMessageView>, DecodeError> {
    if src.len() < DOIP_HEADER_LEN {
        Ok(None)
    } else {
        match DoipHeader::spec_from_bytes(src) {
            Err(e) => Err(e),
            Ok(header) => if src.len() < DOIP_HEADER_LEN + header.payload_length {
                Err(DecodeError::TooShort)
            } else {
                match PayloadView::spec_from_bytes(
                    header.payload_type,
                    src.subrange(DOIP_HEADER_LEN as int, DOIP_HEADER_LEN + header.payload_length),
                ) {
                    Err(e) => Err(e),
                    Ok(payload) => Ok(Some(DoipMessageView { header, payload })),
                }
            },
        }
    }
}

/// Where the first frame of a growing buffer ends: `Ok(None)` while the
/// buffer holds less than a header, or less than the header and the payload
/// that it declares; the frame's length once all of it is there. A buffer
/// longer than the maximum frame size is refused before anything is read, a
/// header that declares a frame longer than that before any payload is.
pub open spec fn spec_frame_len(src: Seq<u8>) -> Result<Option<nat>, DecodeError> {
    if src.len() > MAX_FRAME_LEN {
        Err(DecodeError::MessageTooLarge)
    } else if src.len() < DOIP_HEADER_LEN {
        Ok(None)
    } else {
        match DoipHeader::spec_from_bytes(src) {
            Err(e) => Err(e),
            Ok(header) => if DOIP_HEADER_LEN + header.payload_length > MAX_FRAME_LEN {
                Err(DecodeError::MessageTooLarge)
            } else if src.len() < DOIP_HEADER_LEN + header.payload_length {
                Ok(None)
            } else {
                Ok(Some((DOIP_HEADER_LEN + header.payload_length) as nat))
            },
        }
    }
}

/// What one step of the framing decoder makes of a buffer: the first message
/// together with the number of bytes it took, `Ok(None)` while more bytes are
/// needed, or the error that ends the stream.
pub open spec fn spec_decode_frame(src: Seq<u8>) -> Result<
    Option<(DoipMessageView, nat)>,
    DecodeError,
> {
    match spec_frame_len(src) {
        Err(e) => Err(e),
        Ok(None) => Ok(None),
        Ok(Some(frame_len)) => match spec_decode_message(src.subrange(0, frame_len as int)) {
            Err(e) => Err(e),
            Ok(None) => Ok(None),
            Ok(Some(message)) => Ok(Some((message, frame_len))),
        },
    }
}

/// What one step of the framing decoder makes of a buffer that cannot grow
/// beyond `capacity` bytes: as for a buffer that can, but where more bytes
/// are needed and the buffer is already full, the stream ends in an error.
pub open spec fn spec_decode_frame_fixed(src: Seq<u8>, capacity: nat) -> Result<
    Option<(DoipMessageView, nat)>,
    DecodeError,
> {
    match spec_decode_frame(src) {
        Ok(None) => if src.len() >= capacity {
            Err(DecodeError::BufferTooSmall)
        } else {
            Ok(None)
        },
        step => step,
    }
}

/// The messages of all the frames that a buffer holds, up to the first
/// position at which more bytes are needed; the first error where a frame is
/// invalid.
pub open spec fn spec_decode_frames(src: Seq<u8>) -> Result<Seq<DoipMessageView>, DecodeError>
    decreases src.len(),
{
    match spec_decode_frame(src) {
        Err(e) => Err(e),
        Ok(None) => Ok(Seq::empty()),
        Ok(Some((message, frame_len))) => {
            proof {
                lemma_frame_bounds(src);
            }
            spec_prepend(seq![message], spec_decode_frames(src.skip(frame_len as int)))
        },
    }
}

/// Puts the messages that were read so far before those that a later part of
/// the buffer gives; an error in the later part stands.
pub open spec fn spec_prepend(
    done: Seq<DoipMessageView>,
    rest: Result<Seq<DoipMessageView>, DecodeError>,
) -> Result<Seq<DoipMessageView>, DecodeError> {
    match rest {
        Ok(messages) => Ok(done + messages),
        Err(e) => Err(e),
    }
}

/// A frame that is found holds at least a header, lies within the buffer and
/// is no longer than the maximum frame size.
pub proof fn lemma_frame_bounds(src: Seq<u8>)
    ensures
        spec_frame_len(src) matches Ok(Some(frame_len)) ==> DOIP_HEADER_LEN <= frame_len
            <= src.len() && frame_len <= MAX_FRAME_LEN,
        spec_decode_frame(src) matches Ok(Some((_, frame_len))) ==> DOIP_HEADER_LEN <= frame_len
            <= src.len() && frame_len <= MAX_FRAME_LEN,
{
}

/// Once a whole frame is found, cutting it out and reading it as a message
/// never asks for more bytes: the step ends in a message or in an error.
pub proof fn lemma_frame_is_message(src: Seq<u8>)
    requires
        spec_frame_len(src) matches Ok(Some(_)),
    ensures
        spec_decode_message(src.subrange(0, spec_frame_len(src)->Ok_0->Some_0 as int))
            !== Ok::<Option<DoipMessageView>, DecodeError>(None),
        spec_decode_frame(src) !== Ok::<Option<(DoipMessageView, nat)>, DecodeError>(None),
{
}

/// A valid message is read back from its own bytes.
pub proof fn lemma_message_round_trip(message: DoipMessageView)
    requires
        message.valid(),
    ensures
        spec_decode_message(message.spec_to_bytes()) == Ok::<
            Option<DoipMessageView>,
            DecodeError,
        >(Some(message)),
{
    let payload_bytes = message.payload.spec_to_bytes();
    let bytes = message.spec_to_bytes();
    message.header.lemma_round_trip(payload_bytes);
    message.payload.lemma_round_trip();
    assert(bytes.subrange(
        DOIP_HEADER_LEN as int,
        DOIP_HEADER_LEN + message.header.payload_length,
    ) =~= payload_bytes);
}

/// A buffer that opens with the bytes of a valid message gives that message
/// and loses exactly those bytes, whatever follows them, as long as the
/// buffer is within the maximum frame size.
pub proof fn lemma_frame_round_trip(message: DoipMessageView, rest: Seq<u8>)
    requires
        message.valid(),
        message.spec_to_bytes().len() + rest.len() <= MAX_FRAME_LEN,
    ensures
        spec_decode_frame(message.spec_to_bytes() + rest) == Ok::<
            Option<(DoipMessageView, nat)>,
            DecodeError,
        >(Some((message, message.spec_to_bytes().len()))),
{
    let payload_bytes = message.payload.spec_to_bytes();
    let bytes = message.spec_to_bytes();
    let src = bytes + rest;
    message.header.lemma_round_trip(payload_bytes + rest);
    assert(src =~= message.header.spec_to_bytes() + (payload_bytes + rest));
    assert(src.subrange(0, bytes.len() as int) =~= bytes);
    lemma_message_round_trip(message);
}

/// A buffer that holds less than a whole frame asks for more bytes: one that
/// is shorter than a header, and one within the maximum frame size whose
/// valid header declares a frame within that size, of which it holds only a
/// part.
pub proof fn lemma_partial_frame(src: Seq<u8>)
    ensures
        src.len() < DOIP_HEADER_LEN ==> spec_decode_frame(src) == Ok::<
            Option<(DoipMessageView, nat)>,
            DecodeError,
        >(None),
        (DoipHeader::spec_from_bytes(src) matches Ok(header) && src.len() <= MAX_FRAME_LEN
            && src.len() < DOIP_HEADER_LEN + header.payload_length <= MAX_FRAME_LEN)
            ==> spec_decode_frame(src) == Ok::<Option<(DoipMessageView, nat)>, DecodeError>(None),
{
}

/// A buffer beyond the maximum frame size is refused whatever it holds, and
/// so is a buffer whose header declares a frame beyond that size, whatever
/// follows the header.
pub proof fn lemma_size_guard(src: Seq<u8>)
    ensures
        src.len() > MAX_FRAME_LEN ==> spec_decode_frame(src) == Err::<
            Option<(DoipMessageView, nat)>,
            DecodeError,
        >(DecodeError::MessageTooLarge),
        (DOIP_HEADER_LEN <= src.len() && spec_u32_from_be(src[4], src[5], src[6], src[7])
            + DOIP_HEADER_LEN > MAX_FRAME_LEN) ==> spec_decode_frame(src) is Err,
        (DoipHeader::spec_from_bytes(src) matches Ok(header) && DOIP_HEADER_LEN
            + header.payload_length > MAX_FRAME_LEN) ==> spec_decode_frame(src) == Err::<
            Option<(DoipMessageView, nat)>,
            DecodeError,
        >(DecodeError::MessageTooLarge),
{
}

impl DoipCodec {
    /// Decides whether `src`, a buffer that may still grow, opens with a
    /// complete frame, and how long that frame is.
    pub fn frame_length(&self, src: &[u8]) -> (r: Result<Option<usize>, DecodeError>)
        ensures
            match spec_frame_len(src@) {
                Ok(Some(frame_len)) => r == Ok::<Option<usize>, DecodeError>(
                    Some(frame_len as usize),
                ) && frame_len <= src@.len(),
                Ok(None) => r == Ok::<Option<usize>, DecodeError>(None),
                Err(e) => r == Err::<Option<usize>, DecodeError>(e),
            },
    {
        if src.len() > MAX_FRAME_LEN {
            return Err(DecodeError::MessageTooLarge);
        }
        if src.len() < DOIP_HEADER_LEN {
            return Ok(None);
        }
        let header = match (HeaderCodec {  }).decode(src) {
            Ok(Some(header)) => header,
            Ok(None) => {
                return Ok(None);
            },
            Err(e) => {
                return Err(e);
            },
        };
        let payload_length: usize = header.payload_length as usize;
        if payload_length > MAX_FRAME_LEN - DOIP_HEADER_LEN {
            return Err(DecodeError::MessageTooLarge);
        }
        if src.len() - DOIP_HEADER_LEN < payload_length {
            return Ok(None);
        }
        Ok(Some(DOIP_HEADER_LEN + payload_length))
    }

    /// Reads the message that `src` holds, where `src` is all there is.
    pub fn decode_from_bytes(&self, src: &[u8]) -> (r: Result<Option<DoipMessage>, DecodeError>)
        ensures
            match spec_decode_message(src@) {
                Ok(Some(value)) => r matches Ok(Some(message)) && message@ == value,
                Ok(None) => r matches Ok(None),
                Err(e) => r == Err::<Option<DoipMessage>, DecodeError>(e),
            },
    {
        if src.len() < DOIP_HEADER_LEN {
            return Ok(None);
        }
        let header = match (HeaderCodec {  }).decode(src) {
            Ok(Some(header)) => header,
            Ok(None) => {
                return Ok(None);
            },
            Err(e) => {
                return Err(e);
            },
        };
        let payload_length: usize = header.payload_length as usize;
        if src.len() - DOIP_HEADER_LEN < payload_length {
            return Err(DecodeError::TooShort);
        }
        let frame: &[u8] = slice_subrange(src, 0, DOIP_HEADER_LEN + payload_length);
        proof {
            assert(DoipHeader::spec_from_bytes(frame@) == DoipHeader::spec_from_bytes(src@));
            PayloadCodec::lemma_decode_exact_frame(header.payload_type, frame@);
            assert(frame@.skip(DOIP_HEADER_LEN as int) =~= src@.subrange(
                DOIP_HEADER_LEN as int,
                DOIP_HEADER_LEN + header.payload_length,
            ));
        }
        match (PayloadCodec {  }).decode_from_bytes(header.payload_type, frame) {
            Ok(Some(payload)) => Ok(Some(DoipMessage { header, payload })),
            Ok(None) => Ok(None),
            Err(e) => Err(e),
        }
    }

    /// One step of the framing decoder on the bytes of a buffer that may still
    /// grow: the first message and the length of its frame, `Ok(None)` while
    /// more bytes are needed, or the error that ends the stream.
    pub fn decode_step(&self, src: &[u8]) -> (r: Result<Option<(DoipMessage, usize)>, DecodeError>)
        ensures
            match spec_decode_frame(src@) {
                Ok(Some((value, frame_len))) => r matches Ok(Some((message, taken))) && message@
                    == value && taken == frame_len,
                Ok(None) => r matches Ok(None),
                Err(e) => r == Err::<Option<(DoipMessage, usize)>, DecodeError>(e),
            },
    {
        let frame_len: usize = match self.frame_length(src) {
            Ok(Some(frame_len)) => frame_len,
            Ok(None) => {
                return Ok(None);
            },
            Err(e) => {
                return Err(e);
            },
        };
        proof {
            lemma_frame_bounds(src@);
            lemma_frame_is_message(src@);
        }
        match self.decode_from_bytes(slice_subrange(src, 0, frame_len)) {
            Ok(Some(message)) => Ok(Some((message, frame_len))),
            Ok(None) => Ok(None),
            Err(e) => Err(e),
        }
    }

    /// Takes the first message out of a buffer that the transport fills.
    ///
    /// While the buffer holds no complete frame the result is `Ok(None)` and
    /// the buffer is left as it is; so it is on an error. A message is
    /// returned together with the removal of exactly its frame from the front
    /// of the buffer.
    pub fn decode(&self, src: &mut BytesMut) -> (r: Result<Option<DoipMessage>, DecodeError>)
        ensures
            match spec_decode_frame(stream_bytes(old(src))) {
                Ok(Some((value, frame_len))) => r matches Ok(Some(message)) && message@ == value
                    && stream_bytes(final(src)) == stream_bytes(old(src)).skip(frame_len as int),
                Ok(None) => r matches Ok(None) && stream_bytes(final(src)) == stream_bytes(
                    old(src),
                ),
                Err(e) => r == Err::<Option<DoipMessage>, DecodeError>(e) && stream_bytes(
                    final(src),
                ) == stream_bytes(old(src)),
            },
    {
        let step = self.decode_step(stream_as_slice(src));
        match step {
            Ok(Some((message, frame_len))) => {
                proof {
                    lemma_frame_bounds(stream_bytes(src));
                }
                stream_advance(src, frame_len);
                Ok(Some(message))
            },
            Ok(None) => Ok(None),
            Err(e) => Err(e),
        }
    }

    /// Takes the first message out of a buffer of fixed capacity.
    ///
    /// As `decode`, but a buffer that is full and still holds no complete
    /// frame can never hold one: the result is then `BufferTooSmall`.
    pub fn decode_fixed<const N: usize>(&self, src: &mut FixedBuffer<N>) -> (r: Result<
        Option<DoipMessage>,
        DecodeError,
    >)
        ensures
            match spec_decode_frame_fixed(old(src)@, N as nat) {
                Ok(Some((value, frame_len))) => r matches Ok(Some(message)) && message@ == value
                    && final(src)@ == old(src)@.skip(frame_len as int),
                Ok(None) => r matches Ok(None) && final(src)@ == old(src)@,
                Err(e) => r == Err::<Option<DoipMessage>, DecodeError>(e) && final(src)@ == old(
                    src,
                )@,
            },
    {
        let step = self.decode_step(src.as_slice());
        match step {
            Ok(Some((message, frame_len))) => {
                proof {
                    lemma_frame_bounds(src@);
                }
                src.advance(frame_len);
                Ok(Some(message))
            },
            Ok(None) => {
                if src.len() >= src.capacity() {
                    Err(DecodeError::BufferTooSmall)
                } else {
                    Ok(None)
                }
            },
            Err(e) => Err(e),
        }
    }
}

} // verus!
