//! A whole message: header and payload.

use vstd::prelude::*;
use vstd::slice::slice_subrange;

use crate::codec::decoder::{lemma_frame_bounds, spec_decode_frames, spec_prepend};
use crate::codec::DoipCodec;
use crate::error::{DecodeError, ParseError};
use crate::header::doip_header::DoipHeader;
use crate::header::version::ProtocolVersion;
use crate::payload::Payload;
use crate::payload::PayloadView;

verus! {

/// One message: what a frame carries.
#[derive(Clone, Debug, PartialEq, Eq)]
pub struct DoipMessage {
    /// The header.
    pub header: DoipHeader,
    /// The payload.
    pub payload: Payload,
}

/// The value of a message.
pub struct DoipMessageView {
    /// The header.
    pub header: DoipHeader,
    /// The value of the payload.
    pub payload: PayloadView,
}

impl View for DoipMessage {
    type V = DoipMessageView;

    open spec fn view(&self) -> DoipMessageView {
        DoipMessageView { header: self.header, payload: self.payload@ }
    }
}

impl DoipMessageView {
    /// Whether header and payload agree: the check byte matches the version,
    /// the header names the payload's own type, and the header's length is
    /// the length of the encoded payload.
    pub open spec fn valid(self) -> bool {
        &&& self.header.protocol_valid()
        &&& self.header.payload_type == self.payload.payload_type()
        &&& self.header.payload_length == self.payload.spec_to_bytes().len()
    }

    /// The bytes of the message: the header's, then the payload's.
    pub open spec fn spec_to_bytes(self) -> Seq<u8> {
        self.header.spec_to_bytes() + self.payload.spec_to_bytes()
    }
}

impl DoipMessage {
    /// The message that carries `payload` under the given protocol version.
    /// Its header is made to fit the payload.
    pub fn new(protocol_version: ProtocolVersion, payload: Payload) -> (message: DoipMessage)
        requires
            payload@.spec_to_bytes().len() <= u32::MAX,
        ensures
            message@.valid(),
            message@.payload == payload@,
            message@.header.protocol_version == protocol_version,
    {
        let header = DoipHeader::new(protocol_version, &payload);
        DoipMessage { header, payload }
    }

    /// The bytes of the message. Nothing is validated.
    pub fn to_bytes(&self) -> (bytes: Vec<u8>)
        ensures
            bytes@ == self@.spec_to_bytes(),
    {
        let mut bytes: Vec<u8> = Vec::new();
        let header_bytes: Vec<u8> = self.header.to_bytes();
        let payload_bytes: Vec<u8> = self.payload.to_bytes();
        bytes.extend_from_slice(header_bytes.as_slice());
        bytes.extend_from_slice(payload_bytes.as_slice());
        assert(bytes@ =~= self@.spec_to_bytes());
        bytes
    }

    /// Reads the frames that `src` holds, one after another, up to the first
    /// position at which no complete frame stands. An empty buffer and an
    /// invalid frame are errors. Each frame is found as the framing decoder
    /// finds it in a buffer of the transport, so the size guard applies to
    /// what is left of `src` at every step.
    pub fn parse_from_bytes(src: Vec<u8>) -> (r: Result<Vec<DoipMessage>, ParseError>)
        ensures
            src@.len() == 0 ==> r == Err::<Vec<DoipMessage>, ParseError>(ParseError::EmptyInput),
            src@.len() > 0 ==> match spec_decode_frames(src@) {
                Ok(values) => r matches Ok(messages) && messages@.len() == values.len()
                    && forall|i: int|
                    0 <= i < values.len() ==> (#[trigger] messages@[i])@ == values[i],
                Err(e) => r == Err::<Vec<DoipMessage>, ParseError>(ParseError::Frame(e)),
            },
    {
        let mut messages: Vec<DoipMessage> = Vec::new();
        if src.len() == 0 {
            return Err(ParseError::EmptyInput);
        }
        let codec = DoipCodec {  };
        let mut position: usize = 0;
        let ghost mut done: Seq<DoipMessageView> = Seq::empty();
        proof {
            assert(src@.skip(0) =~= src@);
            lemma_prepend_nothing(spec_decode_frames(src@));
        }
        loop
            invariant
                0 < src@.len(),
                position <= src@.len(),
                messages@.len() == done.len(),
                forall|i: int| 0 <= i < done.len() ==> (#[trigger] messages@[i])@ == done[i],
                spec_decode_frames(src@) == spec_prepend(
                    done,
                    spec_decode_frames(src@.skip(position as int)),
                ),
            decreases src@.len() - position,
        {
            let rest: &[u8] = slice_subrange(src.as_slice(), position, src.len());
            let step = codec.decode_step(rest);
            match step {
                Err(e) => {
                    return Err(ParseError::Frame(e));
                },
                Ok(None) => {
                    proof {
                        assert(done + Seq::<DoipMessageView>::empty() =~= done);
                    }
                    return Ok(messages);
                },
                Ok(Some((message, frame_len))) => {
                    proof {
                        lemma_frame_bounds(rest@);
                        assert(rest@.skip(frame_len as int) =~= src@.skip(
                            position as int + frame_len as int,
                        ));
                        lemma_prepend_one(
                            done,
                            message@,
                            spec_decode_frames(rest@.skip(frame_len as int)),
                        );
                        done = done.push(message@);
                    }
                    messages.push(message);
                    position = position + frame_len;
                },
            }
        }
    }
}

/// Nothing put before a result leaves the result as it is.
proof fn lemma_prepend_nothing(rest: Result<Seq<DoipMessageView>, DecodeError>)
    ensures
        spec_prepend(Seq::empty(), rest) == rest,
{
    if let Ok(messages) = rest {
        assert(Seq::<DoipMessageView>::empty() + messages =~= messages);
    }
}

/// Putting a message before a result and then more messages before that is
/// putting all of them before the result at once.
proof fn lemma_prepend_one(
    done: Seq<DoipMessageView>,
    message: DoipMessageView,
    rest: Result<Seq<DoipMessageView>, DecodeError>,
)
    ensures
        spec_prepend(done, spec_prepend(seq![message], rest)) == spec_prepend(
            done.push(message),
            rest,
        ),
{
    if let Ok(messages) = rest {
        assert(done + (seq![message] + messages) =~= done.push(message) + messages);
    }
}

} // verus!
