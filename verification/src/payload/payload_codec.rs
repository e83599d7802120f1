//! The registry of payload codecs: one entry for each payload type.

use vstd::prelude::*;

use crate::definitions::DOIP_HEADER_LEN;
use crate::error::{DecodeError, EncodeError};
use crate::header::doip_header::DoipHeader;
use crate::header::payload_type::PayloadType;
use crate::payload::alive_check_request::AliveCheckRequestCodec;
use crate::payload::alive_check_response::AliveCheckResponseCodec;
use crate::payload::diagnostic_message::DiagnosticMessageCodec;
use crate::payload::diagnostic_message_ack::DiagnosticMessageAckCodec;
use crate::payload::diagnostic_message_nack::DiagnosticMessageNackCodec;
use crate::payload::entity_status_request::EntityStatusRequestCodec;
use crate::payload::entity_status_response::EntityStatusResponseCodec;
use crate::payload::generic_nack::GenericNackCodec;
use crate::payload::power_information_request::PowerInformationRequestCodec;
use crate::payload::power_information_response::PowerInformationResponseCodec;
use crate::payload::routing_activation_request::RoutingActivationRequestCodec;
use crate::payload::routing_activation_response::RoutingActivationResponseCodec;
use crate::payload::vehicle_announcement_message::VehicleAnnouncementMessageCodec;
use crate::payload::vehicle_identification_request::VehicleIdentificationRequestCodec;
use crate::payload::vehicle_identification_request_eid::VehicleIdentificationRequestEidCodec;
use crate::payload::vehicle_identification_request_vin::VehicleIdentificationRequestVinCodec;
use crate::payload::Payload;
use crate::payload::PayloadView;

verus! {

/// Hands each payload to the codec of its kind, for writing and for reading.
#[derive(Clone, Copy, Debug)]
pub struct PayloadCodec;

impl PayloadCodec {
    /// What the codec of `kind` reads from the frame that `src` holds, header
    /// included.
    pub open spec fn spec_decode(kind: PayloadType, src: Seq<u8>) -> Result<
        PayloadView,
        DecodeError,
    > {
        match kind {
            PayloadType::GenericNack => {
                match GenericNackCodec::spec_decode(src) {
                    Ok(payload) => Ok(PayloadView::GenericNack(payload)),
                    Err(e) => Err(e),
                }
            },
            PayloadType::VehicleIdentificationRequest => {
                match VehicleIdentificationRequestCodec::spec_decode(src) {
                    Ok(payload) => Ok(PayloadView::VehicleIdentificationRequest(payload)),
                    Err(e) => Err(e),
                }
            },
            PayloadType::VehicleIdentificationRequestEid => {
                match VehicleIdentificationRequestEidCodec::spec_decode(src) {
                    Ok(payload) => Ok(PayloadView::VehicleIdentificationRequestEid(payload)),
                    Err(e) => Err(e),
                }
            },
            PayloadType::VehicleIdentificationRequestVin => {
                match VehicleIdentificationRequestVinCodec::spec_decode(src) {
                    Ok(payload) => Ok(PayloadView::VehicleIdentificationRequestVin(payload)),
                    Err(e) => Err(e),
                }
            },
            PayloadType::VehicleAnnouncementMessage => {
                match VehicleAnnouncementMessageCodec::spec_decode(src) {
                    Ok(payload) => Ok(PayloadView::VehicleAnnouncementMessage(payload)),
                    Err(e) => Err(e),
                }
            },
            PayloadType::RoutingActivationRequest => {
                match RoutingActivationRequestCodec::spec_decode(src) {
                    Ok(payload) => Ok(PayloadView::RoutingActivationRequest(payload)),
                    Err(e) => Err(e),
                }
            },
            PayloadType::RoutingActivationResponse => {
                match RoutingActivationResponseCodec::spec_decode(src) {
                    Ok(payload) => Ok(PayloadView::RoutingActivationResponse(payload)),
                    Err(e) => Err(e),
                }
            },
            PayloadType::AliveCheckRequest => {
                match AliveCheckRequestCodec::spec_decode(src) {
                    Ok(payload) => Ok(PayloadView::AliveCheckRequest(payload)),
                    Err(e) => Err(e),
                }
            },
            PayloadType::AliveCheckResponse => {
                match AliveCheckResponseCodec::spec_decode(src) {
                    Ok(payload) => Ok(PayloadView::AliveCheckResponse(payload)),
                    Err(e) => Err(e),
                }
            },
            PayloadType::EntityStatusRequest => {
                match EntityStatusRequestCodec::spec_decode(src) {
                    Ok(payload) => Ok(PayloadView::EntityStatusRequest(payload)),
                    Err(e) => Err(e),
                }
            },
            PayloadType::EntityStatusResponse => {
                match EntityStatusResponseCodec::spec_decode(src) {
                    Ok(payload) => Ok(PayloadView::EntityStatusResponse(payload)),
                    Err(e) => Err(e),
                }
            },
            PayloadType::PowerInformationRequest => {
                match PowerInformationRequestCodec::spec_decode(src) {
                    Ok(payload) => Ok(PayloadView::PowerInformationRequest(payload)),
                    Err(e) => Err(e),
                }
            },
            PayloadType::PowerInformationResponse => {
                match PowerInformationResponseCodec::spec_decode(src) {
                    Ok(payload) => Ok(PayloadView::PowerInformationResponse(payload)),
                    Err(e) => Err(e),
                }
            },
            PayloadType::DiagnosticMessage => {
                match DiagnosticMessageCodec::spec_decode(src) {
                    Ok(payload) => Ok(PayloadView::DiagnosticMessage(payload)),
                    Err(e) => Err(e),
                }
            },
            PayloadType::DiagnosticMessageAck => {
                match DiagnosticMessageAckCodec::spec_decode(src) {
                    Ok(payload) => Ok(PayloadView::DiagnosticMessageAck(payload)),
                    Err(e) => Err(e),
                }
            },
            PayloadType::DiagnosticMessageNack => {
                match DiagnosticMessageNackCodec::spec_decode(src) {
                    Ok(payload) => Ok(PayloadView::DiagnosticMessageNack(payload)),
                    Err(e) => Err(e),
                }
            },
        }
    }

    /// Appends the payload's bytes to `dst`. Never fails.
    pub fn to_bytes(&self, item: Payload, dst: &mut Vec<u8>) -> (r: Result<(), EncodeError>)
        ensures
            r is Ok,
            final(dst)@ == old(dst)@ + item@.spec_to_bytes(),
    {
        match item {
            Payload::GenericNack(payload) => (GenericNackCodec {  }).to_bytes(payload, dst),
            Payload::VehicleIdentificationRequest(payload) => {
                (VehicleIdentificationRequestCodec {  }).to_bytes(payload, dst)
            },
            Payload::VehicleIdentificationRequestEid(payload) => {
                (VehicleIdentificationRequestEidCodec {  }).to_bytes(payload, dst)
            },
            Payload::VehicleIdentificationRequestVin(payload) => {
                (VehicleIdentificationRequestVinCodec {  }).to_bytes(payload, dst)
            },
            Payload::VehicleAnnouncementMessage(payload) => {
                (VehicleAnnouncementMessageCodec {  }).to_bytes(payload, dst)
            },
            Payload::RoutingActivationRequest(payload) => {
                (RoutingActivationRequestCodec {  }).to_bytes(payload, dst)
            },
            Payload::RoutingActivationResponse(payload) => {
                (RoutingActivationResponseCodec {  }).to_bytes(payload, dst)
            },
            Payload::AliveCheckRequest(payload) => {
                (AliveCheckRequestCodec {  }).to_bytes(payload, dst)
            },
            Payload::AliveCheckResponse(payload) => {
                (AliveCheckResponseCodec {  }).to_bytes(payload, dst)
            },
            Payload::EntityStatusRequest(payload) => {
                (EntityStatusRequestCodec {  }).to_bytes(payload, dst)
            },
            Payload::EntityStatusResponse(payload) => {
                (EntityStatusResponseCodec {  }).to_bytes(payload, dst)
            },
            Payload::PowerInformationRequest(payload) => {
                (PowerInformationRequestCodec {  }).to_bytes(payload, dst)
            },
            Payload::PowerInformationResponse(payload) => {
                (PowerInformationResponseCodec {  }).to_bytes(payload, dst)
            },
            Payload::DiagnosticMessage(payload) => {
                (DiagnosticMessageCodec {  }).to_bytes(payload, dst)
            },
            Payload::DiagnosticMessageAck(payload) => {
                (DiagnosticMessageAckCodec {  }).to_bytes(payload, dst)
            },
            Payload::DiagnosticMessageNack(payload) => {
                (DiagnosticMessageNackCodec {  }).to_bytes(payload, dst)
            },
        }
    }

    /// Reads the payload of type `kind` from the frame that `src` holds, header
    /// included. The result is never `Ok(None)`.
    pub fn decode_from_bytes(&self, kind: PayloadType, src: &[u8]) -> (r: Result<
        Option<Payload>,
        DecodeError,
    >)
        ensures
            match Self::spec_decode(kind, src@) {
                Ok(value) => r matches Ok(Some(payload)) && payload@ == value,
                Err(e) => r == Err::<Option<Payload>, DecodeError>(e),
            },
    {
        match kind {
            PayloadType::GenericNack => (GenericNackCodec {  }).decode_from_bytes(src),
            PayloadType::VehicleIdentificationRequest => {
                (VehicleIdentificationRequestCodec {  }).decode_from_bytes(src)
            },
            PayloadType::VehicleIdentificationRequestEid => {
                (VehicleIdentificationRequestEidCodec {  }).decode_from_bytes(src)
            },
            PayloadType::VehicleIdentificationRequestVin => {
                (VehicleIdentificationRequestVinCodec {  }).decode_from_bytes(src)
            },
            PayloadType::VehicleAnnouncementMessage => {
                (VehicleAnnouncementMessageCodec {  }).decode_from_bytes(src)
            },
            PayloadType::RoutingActivationRequest => {
                (RoutingActivationRequestCodec {  }).decode_from_bytes(src)
            },
            PayloadType::RoutingActivationResponse => {
                (RoutingActivationResponseCodec {  }).decode_from_bytes(src)
            },
            PayloadType::AliveCheckRequest => (AliveCheckRequestCodec {  }).decode_from_bytes(src),
            PayloadType::AliveCheckResponse => {
                (AliveCheckResponseCodec {  }).decode_from_bytes(src)
            },
            PayloadType::EntityStatusRequest => {
                (EntityStatusRequestCodec {  }).decode_from_bytes(src)
            },
            PayloadType::EntityStatusResponse => {
                (EntityStatusResponseCodec {  }).decode_from_bytes(src)
            },
            PayloadType::PowerInformationRequest => {
                (PowerInformationRequestCodec {  }).decode_from_bytes(src)
            },
            PayloadType::PowerInformationResponse => {
                (PowerInformationResponseCodec {  }).decode_from_bytes(src)
            },
            PayloadType::DiagnosticMessage => (DiagnosticMessageCodec {  }).decode_from_bytes(src),
            PayloadType::DiagnosticMessageAck => {
                (DiagnosticMessageAckCodec {  }).decode_from_bytes(src)
            },
            PayloadType::DiagnosticMessageNack => {
                (DiagnosticMessageNackCodec {  }).decode_from_bytes(src)
            },
        }
    }

    /// On a frame that is exactly as long as its header says, every codec
    /// reads what follows the header, as the payload kind defines it.
    pub proof fn lemma_decode_exact_frame(kind: PayloadType, src: Seq<u8>)
        requires
            DoipHeader::spec_from_bytes(src) is Ok,
            src.len() == DOIP_HEADER_LEN + DoipHeader::spec_from_bytes(src)->Ok_0.payload_length,
        ensures
            Self::spec_decode(kind, src) == PayloadView::spec_from_bytes(
                kind,
                src.skip(DOIP_HEADER_LEN as int),
            ),
    {
        let header = DoipHeader::spec_from_bytes(src)->Ok_0;
        assert(src.subrange(DOIP_HEADER_LEN as int, DOIP_HEADER_LEN + header.payload_length)
            =~= src.skip(DOIP_HEADER_LEN as int));
    }
}

} // verus!
