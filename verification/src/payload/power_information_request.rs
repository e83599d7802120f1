//! Diagnostic power mode information request.

use vstd::prelude::*;
use vstd::slice::slice_subrange;

use crate::definitions::DOIP_HEADER_LEN;
use crate::error::{DecodeError, EncodeError};
use crate::header::payload_type::PayloadType;
use crate::payload::Payload;
use crate::payload::PayloadView;
use crate::payload::doip_payload::DoipPayload;

verus! {

/// Asks an entity for its power mode. It has no fields.
#[derive(Clone, Copy, Debug, PartialEq, Eq)]
pub struct PowerInformationRequest {}

impl View for PowerInformationRequest {
    type V = PowerInformationRequest;

    open spec fn view(&self) -> PowerInformationRequest {
        *self
    }
}

impl DoipPayload for PowerInformationRequest {
    open spec fn spec_payload_type() -> PayloadType {
        PayloadType::PowerInformationRequest
    }

    open spec fn spec_to_bytes(value: PowerInformationRequest) -> Seq<u8> {
        Seq::empty()
    }

    open spec fn spec_from_bytes(bytes: Seq<u8>) -> Result<PowerInformationRequest, DecodeError> {
        Ok(PowerInformationRequest {  })
    }

    fn payload_type(&self) -> (kind: PayloadType) {
        PayloadType::PowerInformationRequest
    }

    fn to_bytes(&self) -> (bytes: Vec<u8>) {
        Vec::new()
    }

    fn from_bytes(_bytes: &[u8]) -> (r: Result<PowerInformationRequest, DecodeError>) {
        Ok(PowerInformationRequest {  })
    }

    proof fn lemma_round_trip(value: PowerInformationRequest) {
    }
}

/// Writes and reads power information requests.
#[derive(Clone, Copy, Debug)]
pub struct PowerInformationRequestCodec;

impl PowerInformationRequestCodec {
    /// The payload of a frame, header included, that holds nothing but the
    /// frame: what follows the header is read as the payload.
    pub open spec fn spec_decode(src: Seq<u8>) -> Result<PowerInformationRequest, DecodeError> {
        if src.len() < DOIP_HEADER_LEN {
            Err(DecodeError::TooShort)
        } else {
            PowerInformationRequest::spec_from_bytes(src.skip(DOIP_HEADER_LEN as int))
        }
    }

    /// Appends the payload's bytes to `dst`. Never fails.
    pub fn to_bytes(&self, item: PowerInformationRequest, dst: &mut Vec<u8>) -> (r: Result<
        (),
        EncodeError,
    >)
        ensures
            r is Ok,
            final(dst)@ == old(dst)@ + PowerInformationRequest::spec_to_bytes(item@),
    {
        let bytes: Vec<u8> = item.to_bytes();
        dst.extend_from_slice(bytes.as_slice());
        assert(dst@ =~= old(dst)@ + PowerInformationRequest::spec_to_bytes(item@));
        Ok(())
    }

    /// Reads the payload of the frame that `src` holds, header included. The
    /// header itself is not read. The result is never `Ok(None)`.
    pub fn decode_from_bytes(&self, src: &[u8]) -> (r: Result<Option<Payload>, DecodeError>)
        ensures
            match Self::spec_decode(src@) {
                Ok(value) => r matches Ok(Some(payload)) && payload@
                    == PayloadView::PowerInformationRequest(value),
                Err(e) => r == Err::<Option<Payload>, DecodeError>(e),
            },
    {
        if src.len() < DOIP_HEADER_LEN {
            return Err(DecodeError::TooShort);
        }
        match PowerInformationRequest::from_bytes(slice_subrange(src, DOIP_HEADER_LEN, src.len())) {
            Ok(item) => Ok(Some(Payload::PowerInformationRequest(item))),
            Err(e) => Err(e),
        }
    }
}

} // verus!
