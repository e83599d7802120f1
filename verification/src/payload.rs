//! The payloads, one module for each, the coded fields they carry, and the
//! union of all payloads.

pub mod action_code;
pub mod activation_code;
pub mod activation_type;
pub mod alive_check_request;
pub mod alive_check_response;
pub mod diagnostic_ack;
pub mod diagnostic_message;
pub mod diagnostic_message_ack;
pub mod diagnostic_message_nack;
pub mod diagnostic_nack;
pub mod doip_payload;
pub mod entity_status_request;
pub mod entity_status_response;
pub mod generic_nack;
pub mod nack_codes;
pub mod node_type;
pub mod payload_codec;
pub mod power_information_request;
pub mod power_information_response;
pub mod power_mode;
pub mod routing_activation_request;
pub mod routing_activation_response;
pub mod sync_status;
pub mod vehicle_announcement_message;
pub mod vehicle_identification_request;
pub mod vehicle_identification_request_eid;
pub mod vehicle_identification_request_vin;

use vstd::prelude::*;

use crate::error::DecodeError;
use crate::header::payload_type::PayloadType;
use crate::payload::alive_check_request::AliveCheckRequest;
use crate::payload::alive_check_response::AliveCheckResponse;
use crate::payload::diagnostic_message::{DiagnosticMessage, DiagnosticMessageView};
use crate::payload::diagnostic_message_ack::DiagnosticMessageAck;
use crate::payload::diagnostic_message_nack::DiagnosticMessageNack;
use crate::payload::entity_status_request::EntityStatusRequest;
use crate::payload::entity_status_response::EntityStatusResponse;
use crate::payload::generic_nack::GenericNack;
use crate::payload::power_information_request::PowerInformationRequest;
use crate::payload::power_information_response::PowerInformationResponse;
use crate::payload::routing_activation_request::RoutingActivationRequest;
use crate::payload::routing_activation_response::RoutingActivationResponse;
use crate::payload::vehicle_announcement_message::VehicleAnnouncementMessage;
use crate::payload::vehicle_identification_request::VehicleIdentificationRequest;
use crate::payload::vehicle_identification_request_eid::VehicleIdentificationRequestEid;
use crate::payload::vehicle_identification_request_vin::VehicleIdentificationRequestVin;
use crate::payload::doip_payload::DoipPayload;

verus! {

/// A payload of any of the sixteen kinds.
#[derive(Clone, Debug, PartialEq, Eq)]
pub enum Payload {
    /// Generic negative acknowledgement.
    GenericNack(GenericNack),
    /// Vehicle identification request.
    VehicleIdentificationRequest(VehicleIdentificationRequest),
    /// Vehicle identification request by entity identifier.
    VehicleIdentificationRequestEid(VehicleIdentificationRequestEid),
    /// Vehicle identification request by vehicle identification number.
    VehicleIdentificationRequestVin(VehicleIdentificationRequestVin),
    /// Vehicle announcement.
    VehicleAnnouncementMessage(VehicleAnnouncementMessage),
    /// Routing activation request.
    RoutingActivationRequest(RoutingActivationRequest),
    /// Routing activation response.
    RoutingActivationResponse(RoutingActivationResponse),
    /// Alive check request.
    AliveCheckRequest(AliveCheckRequest),
    /// Alive check response.
    AliveCheckResponse(AliveCheckResponse),
    /// Entity status request.
    EntityStatusRequest(EntityStatusRequest),
    /// Entity status response.
    EntityStatusResponse(EntityStatusResponse),
    /// Power information request.
    PowerInformationRequest(PowerInformationRequest),
    /// Power information response.
    PowerInformationResponse(PowerInformationResponse),
    /// Diagnostic message.
    DiagnosticMessage(DiagnosticMessage),
    /// Diagnostic message acknowledgement.
    DiagnosticMessageAck(DiagnosticMessageAck),
    /// Diagnostic message negative acknowledgement.
    DiagnosticMessageNack(DiagnosticMessageNack),
}

/// The value of a payload of any kind.
pub enum PayloadView {
    /// Generic negative acknowledgement.
    GenericNack(GenericNack),
    /// Vehicle identification request.
    VehicleIdentificationRequest(VehicleIdentificationRequest),
    /// Vehicle identification request by entity identifier.
    VehicleIdentificationRequestEid(VehicleIdentificationRequestEid),
    /// Vehicle identification request by vehicle identification number.
    VehicleIdentificationRequestVin(VehicleIdentificationRequestVin),
    /// Vehicle announcement.
    VehicleAnnouncementMessage(VehicleAnnouncementMessage),
    /// Routing activation request.
    RoutingActivationRequest(RoutingActivationRequest),
    /// Routing activation response.
    RoutingActivationResponse(RoutingActivationResponse),
    /// Alive check request.
    AliveCheckRequest(AliveCheckRequest),
    /// Alive check response.
    AliveCheckResponse(AliveCheckResponse),
    /// Entity status request.
    EntityStatusRequest(EntityStatusRequest),
    /// Entity status response.
    EntityStatusResponse(EntityStatusResponse),
    /// Power information request.
    PowerInformationRequest(PowerInformationRequest),
    /// Power information response.
    PowerInformationResponse(PowerInformationResponse),
    /// Diagnostic message.
    DiagnosticMessage(DiagnosticMessageView),
    /// Diagnostic message acknowledgement.
    DiagnosticMessageAck(DiagnosticMessageAck),
    /// Diagnostic message negative acknowledgement.
    DiagnosticMessageNack(DiagnosticMessageNack),
}

impl View for Payload {
    type V = PayloadView;

    open spec fn view(&self) -> PayloadView {
        match self {
            Payload::GenericNack(payload) => PayloadView::GenericNack(payload@),
            Payload::VehicleIdentificationRequest(payload) => {
                PayloadView::VehicleIdentificationRequest(payload@)
            },
            Payload::VehicleIdentificationRequestEid(payload) => {
                PayloadView::VehicleIdentificationRequestEid(payload@)
            },
            Payload::VehicleIdentificationRequestVin(payload) => {
                PayloadView::VehicleIdentificationRequestVin(payload@)
            },
            Payload::VehicleAnnouncementMessage(payload) => {
                PayloadView::VehicleAnnouncementMessage(payload@)
            },
            Payload::RoutingActivationRequest(payload) => {
                PayloadView::RoutingActivationRequest(payload@)
            },
            Payload::RoutingActivationResponse(payload) => {
                PayloadView::RoutingActivationResponse(payload@)
            },
            Payload::AliveCheckRequest(payload) => PayloadView::AliveCheckRequest(payload@),
            Payload::AliveCheckResponse(payload) => PayloadView::AliveCheckResponse(payload@),
            Payload::EntityStatusRequest(payload) => PayloadView::EntityStatusRequest(payload@),
            Payload::EntityStatusResponse(payload) => PayloadView::EntityStatusResponse(payload@),
            Payload::PowerInformationRequest(payload) => {
                PayloadView::PowerInformationRequest(payload@)
            },
            Payload::PowerInformationResponse(payload) => {
                PayloadView::PowerInformationResponse(payload@)
            },
            Payload::DiagnosticMessage(payload) => PayloadView::DiagnosticMessage(payload@),
            Payload::DiagnosticMessageAck(payload) => PayloadView::DiagnosticMessageAck(payload@),
            Payload::DiagnosticMessageNack(payload) => PayloadView::DiagnosticMessageNack(payload@),
        }
    }
}

impl PayloadView {
    /// The payload type under which the payload travels: its tag.
    pub open spec fn payload_type(self) -> PayloadType {
        match self {
            PayloadView::GenericNack(_) => PayloadType::GenericNack,
            PayloadView::VehicleIdentificationRequest(_) => {
                PayloadType::VehicleIdentificationRequest
            },
            PayloadView::VehicleIdentificationRequestEid(_) => {
                PayloadType::VehicleIdentificationRequestEid
            },
            PayloadView::VehicleIdentificationRequestVin(_) => {
                PayloadType::VehicleIdentificationRequestVin
            },
            PayloadView::VehicleAnnouncementMessage(_) => PayloadType::VehicleAnnouncementMessage,
            PayloadView::RoutingActivationRequest(_) => PayloadType::RoutingActivationRequest,
            PayloadView::RoutingActivationResponse(_) => PayloadType::RoutingActivationResponse,
            PayloadView::AliveCheckRequest(_) => PayloadType::AliveCheckRequest,
            PayloadView::AliveCheckResponse(_) => PayloadType::AliveCheckResponse,
            PayloadView::EntityStatusRequest(_) => PayloadType::EntityStatusRequest,
            PayloadView::EntityStatusResponse(_) => PayloadType::EntityStatusResponse,
            PayloadView::PowerInformationRequest(_) => PayloadType::PowerInformationRequest,
            PayloadView::PowerInformationResponse(_) => PayloadType::PowerInformationResponse,
            PayloadView::DiagnosticMessage(_) => PayloadType::DiagnosticMessage,
            PayloadView::DiagnosticMessageAck(_) => PayloadType::DiagnosticMessageAck,
            PayloadView::DiagnosticMessageNack(_) => PayloadType::DiagnosticMessageNack,
        }
    }

    /// The bytes of the payload, as its own kind defines them.
    pub open spec fn spec_to_bytes(self) -> Seq<u8> {
        match self {
            PayloadView::GenericNack(payload) => GenericNack::spec_to_bytes(payload),
            PayloadView::VehicleIdentificationRequest(payload) => {
                VehicleIdentificationRequest::spec_to_bytes(payload)
            },
            PayloadView::VehicleIdentificationRequestEid(payload) => {
                VehicleIdentificationRequestEid::spec_to_bytes(payload)
            },
            PayloadView::VehicleIdentificationRequestVin(payload) => {
                VehicleIdentificationRequestVin::spec_to_bytes(payload)
            },
            PayloadView::VehicleAnnouncementMessage(payload) => {
                VehicleAnnouncementMessage::spec_to_bytes(payload)
            },
            PayloadView::RoutingActivationRequest(payload) => {
                RoutingActivationRequest::spec_to_bytes(payload)
            },
            PayloadView::RoutingActivationResponse(payload) => {
                RoutingActivationResponse::spec_to_bytes(payload)
            },
            PayloadView::AliveCheckRequest(payload) => AliveCheckRequest::spec_to_bytes(payload),
            PayloadView::AliveCheckResponse(payload) => AliveCheckResponse::spec_to_bytes(payload),
            PayloadView::EntityStatusRequest(payload) => {
                EntityStatusRequest::spec_to_bytes(payload)
            },
            PayloadView::EntityStatusResponse(payload) => {
                EntityStatusResponse::spec_to_bytes(payload)
            },
            PayloadView::PowerInformationRequest(payload) => {
                PowerInformationRequest::spec_to_bytes(payload)
            },
            PayloadView::PowerInformationResponse(payload) => {
                PowerInformationResponse::spec_to_bytes(payload)
            },
            PayloadView::DiagnosticMessage(payload) => DiagnosticMessage::spec_to_bytes(payload),
            PayloadView::DiagnosticMessageAck(payload) => {
                DiagnosticMessageAck::spec_to_bytes(payload)
            },
            PayloadView::DiagnosticMessageNack(payload) => {
                DiagnosticMessageNack::spec_to_bytes(payload)
            },
        }
    }

    /// The payload of type `kind` that `bytes` hold, or the reason why they
    /// hold none. `bytes` are what follows the header, cut to the declared
    /// payload length.
    pub open spec fn spec_from_bytes(kind: PayloadType, bytes: Seq<u8>) -> Result<
        PayloadView,
        DecodeError,
    > {
        match kind {
            PayloadType::GenericNack => {
                match GenericNack::spec_from_bytes(bytes) {
                    Ok(payload) => Ok(PayloadView::GenericNack(payload)),
                    Err(e) => Err(e),
                }
            },
            PayloadType::VehicleIdentificationRequest => {
                match VehicleIdentificationRequest::spec_from_bytes(bytes) {
                    Ok(payload) => Ok(PayloadView::VehicleIdentificationRequest(payload)),
                    Err(e) => Err(e),
                }
            },
            PayloadType::VehicleIdentificationRequestEid => {
                match VehicleIdentificationRequestEid::spec_from_bytes(bytes) {
                    Ok(payload) => Ok(PayloadView::VehicleIdentificationRequestEid(payload)),
                    Err(e) => Err(e),
                }
            },
            PayloadType::VehicleIdentificationRequestVin => {
                match VehicleIdentificationRequestVin::spec_from_bytes(bytes) {
                    Ok(payload) => Ok(PayloadView::VehicleIdentificationRequestVin(payload)),
                    Err(e) => Err(e),
                }
            },
            PayloadType::VehicleAnnouncementMessage => {
                match VehicleAnnouncementMessage::spec_from_bytes(bytes) {
                    Ok(payload) => Ok(PayloadView::VehicleAnnouncementMessage(payload)),
                    Err(e) => Err(e),
                }
            },
            PayloadType::RoutingActivationRequest => {
                match RoutingActivationRequest::spec_from_bytes(bytes) {
                    Ok(payload) => Ok(PayloadView::RoutingActivationRequest(payload)),
                    Err(e) => Err(e),
                }
            },
            PayloadType::RoutingActivationResponse => {
                match RoutingActivationResponse::spec_from_bytes(bytes) {
                    Ok(payload) => Ok(PayloadView::RoutingActivationResponse(payload)),
                    Err(e) => Err(e),
                }
            },
            PayloadType::AliveCheckRequest => {
                match AliveCheckRequest::spec_from_bytes(bytes) {
                    Ok(payload) => Ok(PayloadView::AliveCheckRequest(payload)),
                    Err(e) => Err(e),
                }
            },
            PayloadType::AliveCheckResponse => {
                match AliveCheckResponse::spec_from_bytes(bytes) {
                    Ok(payload) => Ok(PayloadView::AliveCheckResponse(payload)),
                    Err(e) => Err(e),
                }
            },
            PayloadType::EntityStatusRequest => {
                match EntityStatusRequest::spec_from_bytes(bytes) {
                    Ok(payload) => Ok(PayloadView::EntityStatusRequest(payload)),
                    Err(e) => Err(e),
                }
            },
            PayloadType::EntityStatusResponse => {
                match EntityStatusResponse::spec_from_bytes(bytes) {
                    Ok(payload) => Ok(PayloadView::EntityStatusResponse(payload)),
                    Err(e) => Err(e),
                }
            },
            PayloadType::PowerInformationRequest => {
                match PowerInformationRequest::spec_from_bytes(bytes) {
                    Ok(payload) => Ok(PayloadView::PowerInformationRequest(payload)),
                    Err(e) => Err(e),
                }
            },
            PayloadType::PowerInformationResponse => {
                match PowerInformationResponse::spec_from_bytes(bytes) {
                    Ok(payload) => Ok(PayloadView::PowerInformationResponse(payload)),
                    Err(e) => Err(e),
                }
            },
            PayloadType::DiagnosticMessage => {
                match DiagnosticMessage::spec_from_bytes(bytes) {
                    Ok(payload) => Ok(PayloadView::DiagnosticMessage(payload)),
                    Err(e) => Err(e),
                }
            },
            PayloadType::DiagnosticMessageAck => {
                match DiagnosticMessageAck::spec_from_bytes(bytes) {
                    Ok(payload) => Ok(PayloadView::DiagnosticMessageAck(payload)),
                    Err(e) => Err(e),
                }
            },
            PayloadType::DiagnosticMessageNack => {
                match DiagnosticMessageNack::spec_from_bytes(bytes) {
                    Ok(payload) => Ok(PayloadView::DiagnosticMessageNack(payload)),
                    Err(e) => Err(e),
                }
            },
        }
    }

    /// Every payload is read back from its own bytes under its own type.
    pub proof fn lemma_round_trip(self)
        ensures
            Self::spec_from_bytes(self.payload_type(), self.spec_to_bytes()) == Ok::<
                PayloadView,
                DecodeError,
            >(self),
    {
        match self {
            PayloadView::GenericNack(payload) => GenericNack::lemma_round_trip(payload),
            PayloadView::VehicleIdentificationRequest(payload) => {
                VehicleIdentificationRequest::lemma_round_trip(payload)
            },
            PayloadView::VehicleIdentificationRequestEid(payload) => {
                VehicleIdentificationRequestEid::lemma_round_trip(payload)
            },
            PayloadView::VehicleIdentificationRequestVin(payload) => {
                VehicleIdentificationRequestVin::lemma_round_trip(payload)
            },
            PayloadView::VehicleAnnouncementMessage(payload) => {
                VehicleAnnouncementMessage::lemma_round_trip(payload)
            },
            PayloadView::RoutingActivationRequest(payload) => {
                RoutingActivationRequest::lemma_round_trip(payload)
            },
            PayloadView::RoutingActivationResponse(payload) => {
                RoutingActivationResponse::lemma_round_trip(payload)
            },
            PayloadView::AliveCheckRequest(payload) => AliveCheckRequest::lemma_round_trip(payload),
            PayloadView::AliveCheckResponse(payload) => {
                AliveCheckResponse::lemma_round_trip(payload)
            },
            PayloadView::EntityStatusRequest(payload) => {
                EntityStatusRequest::lemma_round_trip(payload)
            },
            PayloadView::EntityStatusResponse(payload) => {
                EntityStatusResponse::lemma_round_trip(payload)
            },
            PayloadView::PowerInformationRequest(payload) => {
                PowerInformationRequest::lemma_round_trip(payload)
            },
            PayloadView::PowerInformationResponse(payload) => {
                PowerInformationResponse::lemma_round_trip(payload)
            },
            PayloadView::DiagnosticMessage(payload) => DiagnosticMessage::lemma_round_trip(payload),
            PayloadView::DiagnosticMessageAck(payload) => {
                DiagnosticMessageAck::lemma_round_trip(payload)
            },
            PayloadView::DiagnosticMessageNack(payload) => {
                DiagnosticMessageNack::lemma_round_trip(payload)
            },
        }
    }
}

impl Payload {
    /// The payload type under which the payload travels.
    pub fn payload_type(&self) -> (kind: PayloadType)
        ensures
            kind == self@.payload_type(),
    {
        match self {
            Payload::GenericNack(payload) => payload.payload_type(),
            Payload::VehicleIdentificationRequest(payload) => payload.payload_type(),
            Payload::VehicleIdentificationRequestEid(payload) => payload.payload_type(),
            Payload::VehicleIdentificationRequestVin(payload) => payload.payload_type(),
            Payload::VehicleAnnouncementMessage(payload) => payload.payload_type(),
            Payload::RoutingActivationRequest(payload) => payload.payload_type(),
            Payload::RoutingActivationResponse(payload) => payload.payload_type(),
            Payload::AliveCheckRequest(payload) => payload.payload_type(),
            Payload::AliveCheckResponse(payload) => payload.payload_type(),
            Payload::EntityStatusRequest(payload) => payload.payload_type(),
            Payload::EntityStatusResponse(payload) => payload.payload_type(),
            Payload::PowerInformationRequest(payload) => payload.payload_type(),
            Payload::PowerInformationResponse(payload) => payload.payload_type(),
            Payload::DiagnosticMessage(payload) => payload.payload_type(),
            Payload::DiagnosticMessageAck(payload) => payload.payload_type(),
            Payload::DiagnosticMessageNack(payload) => payload.payload_type(),
        }
    }

    /// The bytes of the payload.
    pub fn to_bytes(&self) -> (bytes: Vec<u8>)
        ensures
            bytes@ == self@.spec_to_bytes(),
    {
        match self {
            Payload::GenericNack(payload) => payload.to_bytes(),
            Payload::VehicleIdentificationRequest(payload) => payload.to_bytes(),
            Payload::VehicleIdentificationRequestEid(payload) => payload.to_bytes(),
            Payload::VehicleIdentificationRequestVin(payload) => payload.to_bytes(),
            Payload::VehicleAnnouncementMessage(payload) => payload.to_bytes(),
            Payload::RoutingActivationRequest(payload) => payload.to_bytes(),
            Payload::RoutingActivationResponse(payload) => payload.to_bytes(),
            Payload::AliveCheckRequest(payload) => payload.to_bytes(),
            Payload::AliveCheckResponse(payload) => payload.to_bytes(),
            Payload::EntityStatusRequest(payload) => payload.to_bytes(),
            Payload::EntityStatusResponse(payload) => payload.to_bytes(),
            Payload::PowerInformationRequest(payload) => payload.to_bytes(),
            Payload::PowerInformationResponse(payload) => payload.to_bytes(),
            Payload::DiagnosticMessage(payload) => payload.to_bytes(),
            Payload::DiagnosticMessageAck(payload) => payload.to_bytes(),
            Payload::DiagnosticMessageNack(payload) => payload.to_bytes(),
        }
    }
}

} // verus!
