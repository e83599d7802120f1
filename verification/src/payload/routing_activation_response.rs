//! Routing activation response.

use vstd::prelude::*;
use vstd::slice::slice_subrange;

use crate::definitions::{DOIP_HEADER_LEN, DOIP_ROUTING_ACTIVATION_RES_LEN};
use crate::error::{DecodeError, EncodeError};
use crate::header::payload_type::PayloadType;
use crate::payload::Payload;
use crate::payload::PayloadView;
use crate::payload::activation_code::ActivationCode;
use crate::payload::doip_payload::DoipPayload;

verus! {

/// Answers a routing activation request.
#[derive(Clone, Copy, Debug, PartialEq, Eq)]
pub struct RoutingActivationResponse {
    /// Address of the tester.
    pub logical_address: [u8; 2],
    /// Address of the entity that answers.
    pub source_address: [u8; 2],
    /// Outcome of the request.
    pub activation_code: ActivationCode,
    /// Reserved by ISO 13400.
    pub buffer: [u8; 4],
}

impl View for RoutingActivationResponse {
    type V = RoutingActivationResponse;

    open spec fn view(&self) -> RoutingActivationResponse {
        *self
    }
}

impl DoipPayload for RoutingActivationResponse {
    open spec fn spec_payload_type() -> PayloadType {
        PayloadType::RoutingActivationResponse
    }

    open spec fn spec_to_bytes(value: RoutingActivationResponse) -> Seq<u8> {
        value.logical_address@
            + value.source_address@
            + seq![value.activation_code.code()]
            + value.buffer@
    }

    open spec fn spec_from_bytes(bytes: Seq<u8>) -> Result<RoutingActivationResponse, DecodeError> {
        if bytes.len() < DOIP_ROUTING_ACTIVATION_RES_LEN {
            Err(DecodeError::TooShort)
        } else {
            match ActivationCode::from_code(bytes[4]) {
                None => Err(DecodeError::InvalidActivationCode),
                Some(activation_code) => Ok(
                    RoutingActivationResponse {
                        logical_address: [bytes[0], bytes[1]],
                        source_address: [bytes[2], bytes[3]],
                        activation_code,
                        buffer: [bytes[5], bytes[6], bytes[7], bytes[8]],
                    },
                ),
            }
        }
    }

    fn payload_type(&self) -> (kind: PayloadType) {
        PayloadType::RoutingActivationResponse
    }

    fn to_bytes(&self) -> (bytes: Vec<u8>) {
        let mut bytes: Vec<u8> = Vec::new();
        bytes.extend_from_slice(&self.logical_address);
        bytes.extend_from_slice(&self.source_address);
        let activation_code_bytes: Vec<u8> = self.activation_code.to_bytes();
        bytes.extend_from_slice(activation_code_bytes.as_slice());
        bytes.extend_from_slice(&self.buffer);
        assert(bytes@ =~= Self::spec_to_bytes(self@));
        bytes
    }

    fn from_bytes(bytes: &[u8]) -> (r: Result<RoutingActivationResponse, DecodeError>) {
        if bytes.len() < DOIP_ROUTING_ACTIVATION_RES_LEN {
            return Err(DecodeError::TooShort);
        }
        let logical_address: [u8; 2] = [bytes[0], bytes[1]];
        let source_address: [u8; 2] = [bytes[2], bytes[3]];
        let activation_code = match ActivationCode::from_bytes(slice_subrange(bytes, 4, 5)) {
            Some(value) => value,
            None => {
                return Err(DecodeError::InvalidActivationCode);
            },
        };
        let buffer: [u8; 4] = [bytes[5], bytes[6], bytes[7], bytes[8]];
        Ok(RoutingActivationResponse { logical_address, source_address, activation_code, buffer })
    }

    proof fn lemma_round_trip(value: RoutingActivationResponse) {
        ActivationCode::lemma_code_bijection(value.activation_code, 0);
        let decoded = Self::spec_from_bytes(Self::spec_to_bytes(value))->Ok_0;
        assert(decoded.logical_address =~= value.logical_address);
        assert(decoded.source_address =~= value.source_address);
        assert(decoded.buffer =~= value.buffer);
    }
}

/// Writes and reads routing activation responses.
#[derive(Clone, Copy, Debug)]
pub struct RoutingActivationResponseCodec;

impl RoutingActivationResponseCodec {
    /// The payload of a frame, header included, that holds nothing but the
    /// frame: what follows the header is read as the payload.
    pub open spec fn spec_decode(src: Seq<u8>) -> Result<RoutingActivationResponse, DecodeError> {
        if src.len() < DOIP_HEADER_LEN + DOIP_ROUTING_ACTIVATION_RES_LEN {
            Err(DecodeError::TooShort)
        } else {
            RoutingActivationResponse::spec_from_bytes(src.skip(DOIP_HEADER_LEN as int))
        }
    }

    /// Appends the payload's bytes to `dst`. Never fails.
    pub fn to_bytes(&self, item: RoutingActivationResponse, dst: &mut Vec<u8>) -> (r: Result<
        (),
        EncodeError,
    >)
        ensures
            r is Ok,
            final(dst)@ == old(dst)@ + RoutingActivationResponse::spec_to_bytes(item@),
    {
        let bytes: Vec<u8> = item.to_bytes();
        dst.extend_from_slice(bytes.as_slice());
        assert(dst@ =~= old(dst)@ + RoutingActivationResponse::spec_to_bytes(item@));
        Ok(())
    }

    /// Reads the payload of the frame that `src` holds, header included. The
    /// header itself is not read. The result is never `Ok(None)`.
    pub fn decode_from_bytes(&self, src: &[u8]) -> (r: Result<Option<Payload>, DecodeError>)
        ensures
            match Self::spec_decode(src@) {
                Ok(value) => r matches Ok(Some(payload)) && payload@
                    == PayloadView::RoutingActivationResponse(value),
                Err(e) => r == Err::<Option<Payload>, DecodeError>(e),
            },
    {
        if src.len() < DOIP_HEADER_LEN + DOIP_ROUTING_ACTIVATION_RES_LEN {
            return Err(DecodeError::TooShort);
        }
        match RoutingActivationResponse::from_bytes(
            slice_subrange(src, DOIP_HEADER_LEN, src.len()),
        ) {
            Ok(item) => Ok(Some(Payload::RoutingActivationResponse(item))),
            Err(e) => Err(e),
        }
    }
}

} // verus!
