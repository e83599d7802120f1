//! Alive check response.

use vstd::prelude::*;
use vstd::slice::slice_subrange;

use crate::definitions::{DOIP_ALIVE_CHECK_RESPONSE_SOURCE_LEN, DOIP_HEADER_LEN};
use crate::error::{DecodeError, EncodeError};
use crate::header::payload_type::PayloadType;
use crate::payload::Payload;
use crate::payload::PayloadView;
use crate::payload::doip_payload::DoipPayload;

verus! {

/// Answers an alive check request.
#[derive(Clone, Copy, Debug, PartialEq, Eq)]
pub struct AliveCheckResponse {
    /// Address of the tester.
    pub source_address: [u8; 2],
}

impl View for AliveCheckResponse {
    type V = AliveCheckResponse;

    open spec fn view(&self) -> AliveCheckResponse {
        *self
    }
}

impl DoipPayload for AliveCheckResponse {
    open spec fn spec_payload_type() -> PayloadType {
        PayloadType::AliveCheckResponse
    }

    open spec fn spec_to_bytes(value: AliveCheckResponse) -> Seq<u8> {
        value.source_address@
    }

    open spec fn spec_from_bytes(bytes: Seq<u8>) -> Result<AliveCheckResponse, DecodeError> {
        if bytes.len() < DOIP_ALIVE_CHECK_RESPONSE_SOURCE_LEN {
            Err(DecodeError::TooShort)
        } else {
            Ok(
                AliveCheckResponse {
                    source_address: [bytes[0], bytes[1]],
                },
            )
        }
    }

    fn payload_type(&self) -> (kind: PayloadType) {
        PayloadType::AliveCheckResponse
    }

    fn to_bytes(&self) -> (bytes: Vec<u8>) {
        let mut bytes: Vec<u8> = Vec::new();
        bytes.extend_from_slice(&self.source_address);
        assert(bytes@ =~= Self::spec_to_bytes(self@));
        bytes
    }

    fn from_bytes(bytes: &[u8]) -> (r: Result<AliveCheckResponse, DecodeError>) {
        if bytes.len() < DOIP_ALIVE_CHECK_RESPONSE_SOURCE_LEN {
            return Err(DecodeError::TooShort);
        }
        let source_address: [u8; 2] = [bytes[0], bytes[1]];
        Ok(AliveCheckResponse { source_address })
    }

    proof fn lemma_round_trip(value: AliveCheckResponse) {
        let decoded = Self::spec_from_bytes(Self::spec_to_bytes(value))->Ok_0;
        assert(decoded.source_address =~= value.source_address);
    }
}

/// Writes and reads alive check responses.
#[derive(Clone, Copy, Debug)]
pub struct AliveCheckResponseCodec;

impl AliveCheckResponseCodec {
    /// The payload of a frame, header included, that holds nothing but the
    /// frame: what follows the header is read as the payload.
    pub open spec fn spec_decode(src: Seq<u8>) -> Result<AliveCheckResponse, DecodeError> {
        if src.len() < DOIP_HEADER_LEN + DOIP_ALIVE_CHECK_RESPONSE_SOURCE_LEN {
            Err(DecodeError::TooShort)
        } else {
            AliveCheckResponse::spec_from_bytes(src.skip(DOIP_HEADER_LEN as int))
        }
    }

    /// Appends the payload's bytes to `dst`. Never fails.
    pub fn to_bytes(&self, item: AliveCheckResponse, dst: &mut Vec<u8>) -> (r: Result<
        (),
        EncodeError,
    >)
        ensures
            r is Ok,
            final(dst)@ == old(dst)@ + AliveCheckResponse::spec_to_bytes(item@),
    {
        let bytes: Vec<u8> = item.to_bytes();
        dst.extend_from_slice(bytes.as_slice());
        assert(dst@ =~= old(dst)@ + AliveCheckResponse::spec_to_bytes(item@));
        Ok(())
    }

    /// Reads the payload of the frame that `src` holds, header included. The
    /// header itself is not read. The result is never `Ok(None)`.
    pub fn decode_from_bytes(&self, src: &[u8]) -> (r: Result<Option<Payload>, DecodeError>)
        ensures
            match Self::spec_decode(src@) {
                Ok(value) => r matches Ok(Some(payload)) && payload@
                    == PayloadView::AliveCheckResponse(value),
                Err(e) => r == Err::<Option<Payload>, DecodeError>(e),
            },
    {
        if src.len() < DOIP_HEADER_LEN + DOIP_ALIVE_CHECK_RESPONSE_SOURCE_LEN {
            return Err(DecodeError::TooShort);
        }
        match AliveCheckResponse::from_bytes(slice_subrange(src, DOIP_HEADER_LEN, src.len())) {
            Ok(item) => Ok(Some(Payload::AliveCheckResponse(item))),
            Err(e) => Err(e),
        }
    }
}

} // verus!
