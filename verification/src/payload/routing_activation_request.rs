//! Routing activation request.

use vstd::prelude::*;
use vstd::slice::slice_subrange;

use crate::definitions::{DOIP_HEADER_LEN, DOIP_ROUTING_ACTIVATION_REQ_LEN};
use crate::error::{DecodeError, EncodeError};
use crate::header::payload_type::PayloadType;
use crate::payload::Payload;
use crate::payload::PayloadView;
use crate::payload::activation_type::ActivationType;
use crate::payload::doip_payload::DoipPayload;

verus! {

/// Asks an entity to route the diagnostic messages of a tester.
#[derive(Clone, Copy, Debug, PartialEq, Eq)]
pub struct RoutingActivationRequest {
    /// Address of the tester.
    pub source_address: [u8; 2],
    /// Kind of activation asked for.
    pub activation_type: ActivationType,
    /// Reserved by ISO 13400.
    pub buffer: [u8; 4],
}

impl View for RoutingActivationRequest {
    type V = RoutingActivationRequest;

    open spec fn view(&self) -> RoutingActivationRequest {
        *self
    }
}

impl DoipPayload for RoutingActivationRequest {
    open spec fn spec_payload_type() -> PayloadType {
        PayloadType::RoutingActivationRequest
    }

    open spec fn spec_to_bytes(value: RoutingActivationRequest) -> Seq<u8> {
        value.source_address@ + seq![value.activation_type.code()] + value.buffer@
    }

    open spec fn spec_from_bytes(bytes: Seq<u8>) -> Result<RoutingActivationRequest, DecodeError> {
        if bytes.len() < DOIP_ROUTING_ACTIVATION_REQ_LEN {
            Err(DecodeError::TooShort)
        } else {
            match ActivationType::from_code(bytes[2]) {
                None => Err(DecodeError::InvalidActivationType),
                Some(activation_type) => Ok(
                    RoutingActivationRequest {
                        source_address: [bytes[0], bytes[1]],
                        activation_type,
                        buffer: [bytes[3], bytes[4], bytes[5], bytes[6]],
                    },
                ),
            }
        }
    }

    fn payload_type(&self) -> (kind: PayloadType) {
        PayloadType::RoutingActivationRequest
    }

    fn to_bytes(&self) -> (bytes: Vec<u8>) {
        let mut bytes: Vec<u8> = Vec::new();
        bytes.extend_from_slice(&self.source_address);
        let activation_type_bytes: Vec<u8> = self.activation_type.to_bytes();
        bytes.extend_from_slice(activation_type_bytes.as_slice());
        bytes.extend_from_slice(&self.buffer);
        assert(bytes@ =~= Self::spec_to_bytes(self@));
        bytes
    }

    fn from_bytes(bytes: &[u8]) -> (r: Result<RoutingActivationRequest, DecodeError>) {
        if bytes.len() < DOIP_ROUTING_ACTIVATION_REQ_LEN {
            return Err(DecodeError::TooShort);
        }
        let source_address: [u8; 2] = [bytes[0], bytes[1]];
        let activation_type = match ActivationType::from_bytes(slice_subrange(bytes, 2, 3)) {
            Some(value) => value,
            None => {
                return Err(DecodeError::InvalidActivationType);
            },
        };
        let buffer: [u8; 4] = [bytes[3], bytes[4], bytes[5], bytes[6]];
        Ok(RoutingActivationRequest { source_address, activation_type, buffer })
    }

    proof fn lemma_round_trip(value: RoutingActivationRequest) {
        ActivationType::lemma_code_bijection(value.activation_type, 0);
        let decoded = Self::spec_from_bytes(Self::spec_to_bytes(value))->Ok_0;
        assert(decoded.source_address =~= value.source_address);
        assert(decoded.buffer =~= value.buffer);
    }
}

/// Writes and reads routing activation requests.
#[derive(Clone, Copy, Debug)]
pub struct RoutingActivationRequestCodec;

impl RoutingActivationRequestCodec {
    /// The payload of a frame, header included, that holds nothing but the
    /// frame: what follows the header is read as the payload.
    pub open spec fn spec_decode(src: Seq<u8>) -> Result<RoutingActivationRequest, DecodeError> {
        if src.len() < DOIP_HEADER_LEN + DOIP_ROUTING_ACTIVATION_REQ_LEN {
            Err(DecodeError::TooShort)
        } else {
            RoutingActivationRequest::spec_from_bytes(src.skip(DOIP_HEADER_LEN as int))
        }
    }

    /// Appends the payload's bytes to `dst`. Never fails.
    pub fn to_bytes(&self, item: RoutingActivationRequest, dst: &mut Vec<u8>) -> (r: Result<
        (),
        EncodeError,
    >)
        ensures
            r is Ok,
            final(dst)@ == old(dst)@ + RoutingActivationRequest::spec_to_bytes(item@),
    {
        let bytes: Vec<u8> = item.to_bytes();
        dst.extend_from_slice(bytes.as_slice());
        assert(dst@ =~= old(dst)@ + RoutingActivationRequest::spec_to_bytes(item@));
        Ok(())
    }

    /// Reads the payload of the frame that `src` holds, header included. The
    /// header itself is not read. The result is never `Ok(None)`.
    pub fn decode_from_bytes(&self, src: &[u8]) -> (r: Result<Option<Payload>, DecodeError>)
        ensures
            match Self::spec_decode(src@) {
                Ok(value) => r matches Ok(Some(payload)) && payload@
                    == PayloadView::RoutingActivationRequest(value),
                Err(e) => r == Err::<Option<Payload>, DecodeError>(e),
            },
    {
        if src.len() < DOIP_HEADER_LEN + DOIP_ROUTING_ACTIVATION_REQ_LEN {
            return Err(DecodeError::TooShort);
        }
        match RoutingActivationRequest::from_bytes(
            slice_subrange(src, DOIP_HEADER_LEN, src.len()),
        ) {
            Ok(item) => Ok(Some(Payload::RoutingActivationRequest(item))),
            Err(e) => Err(e),
        }
    }
}

} // verus!
