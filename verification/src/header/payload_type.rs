//! The payload type that a header announces.

use vstd::prelude::*;

use crate::endian::{
    lemma_u16_be_round_trip, spec_u16_from_be, spec_u16_to_be, u16_from_be_bytes, u16_to_be_bytes,
};

verus! {

/// Kind of payload that follows the header.
#[derive(Clone, Copy, Debug, PartialEq, Eq, Structural)]
pub enum PayloadType {
    /// Generic negative acknowledgement.
    GenericNack,
    /// Vehicle identification request.
    VehicleIdentificationRequest,
    /// Vehicle identification request by entity identifier.
    VehicleIdentificationRequestEid,
    /// Vehicle identification request by vehicle identification number.
    VehicleIdentificationRequestVin,
    /// Vehicle announcement, also the vehicle identification response.
    VehicleAnnouncementMessage,
    /// Routing activation request.
    RoutingActivationRequest,
    /// Routing activation response.
    RoutingActivationResponse,
    /// Alive check request.
    AliveCheckRequest,
    /// Alive check response.
    AliveCheckResponse,
    /// Entity status request.
    EntityStatusRequest,
    /// Entity status response.
    EntityStatusResponse,
    /// Diagnostic power mode information request.
    PowerInformationRequest,
    /// Diagnostic power mode information response.
    PowerInformationResponse,
    /// Diagnostic message.
    DiagnosticMessage,
    /// Diagnostic message acknowledgement.
    DiagnosticMessageAck,
    /// Diagnostic message negative acknowledgement.
    DiagnosticMessageNack,
}

impl PayloadType {
    /// The type code that stands for the value on the wire.
    pub open spec fn code(self) -> u16 {
        match self {
            PayloadType::GenericNack => 0x0000,
            PayloadType::VehicleIdentificationRequest => 0x0001,
            PayloadType::VehicleIdentificationRequestEid => 0x0002,
            PayloadType::VehicleIdentificationRequestVin => 0x0003,
            PayloadType::VehicleAnnouncementMessage => 0x0004,
            PayloadType::RoutingActivationRequest => 0x0005,
            PayloadType::RoutingActivationResponse => 0x0006,
            PayloadType::AliveCheckRequest => 0x0007,
            PayloadType::AliveCheckResponse => 0x0008,
            PayloadType::EntityStatusRequest => 0x4001,
            PayloadType::EntityStatusResponse => 0x4002,
            PayloadType::PowerInformationRequest => 0x4003,
            PayloadType::PowerInformationResponse => 0x4004,
            PayloadType::DiagnosticMessage => 0x8001,
            PayloadType::DiagnosticMessageAck => 0x8002,
            PayloadType::DiagnosticMessageNack => 0x8003,
        }
    }

    /// The value that a type code stands for; `None` for every type code outside the set.
    pub open spec fn from_code(code: u16) -> Option<PayloadType> {
        match code {
            0x0000 => Some(PayloadType::GenericNack),
            0x0001 => Some(PayloadType::VehicleIdentificationRequest),
            0x0002 => Some(PayloadType::VehicleIdentificationRequestEid),
            0x0003 => Some(PayloadType::VehicleIdentificationRequestVin),
            0x0004 => Some(PayloadType::VehicleAnnouncementMessage),
            0x0005 => Some(PayloadType::RoutingActivationRequest),
            0x0006 => Some(PayloadType::RoutingActivationResponse),
            0x0007 => Some(PayloadType::AliveCheckRequest),
            0x0008 => Some(PayloadType::AliveCheckResponse),
            0x4001 => Some(PayloadType::EntityStatusRequest),
            0x4002 => Some(PayloadType::EntityStatusResponse),
            0x4003 => Some(PayloadType::PowerInformationRequest),
            0x4004 => Some(PayloadType::PowerInformationResponse),
            0x8001 => Some(PayloadType::DiagnosticMessage),
            0x8002 => Some(PayloadType::DiagnosticMessageAck),
            0x8003 => Some(PayloadType::DiagnosticMessageNack),
            _ => None,
        }
    }

    /// The value that a byte sequence opens with; `None` where it is shorter
    /// than two bytes or its first two bytes are no known type code.
    pub open spec fn spec_from_bytes(bytes: Seq<u8>) -> Option<PayloadType> {
        if bytes.len() < 2 {
            None
        } else {
            Self::from_code(spec_u16_from_be(bytes[0], bytes[1]))
        }
    }

    /// The two bytes that encode the value, most significant first.
    pub fn to_bytes(self) -> (bytes: Vec<u8>)
        ensures
            bytes@ == spec_u16_to_be(self.code()),
    {
        let code: u16 = match self {
            PayloadType::GenericNack => 0x0000,
            PayloadType::VehicleIdentificationRequest => 0x0001,
            PayloadType::VehicleIdentificationRequestEid => 0x0002,
            PayloadType::VehicleIdentificationRequestVin => 0x0003,
            PayloadType::VehicleAnnouncementMessage => 0x0004,
            PayloadType::RoutingActivationRequest => 0x0005,
            PayloadType::RoutingActivationResponse => 0x0006,
            PayloadType::AliveCheckRequest => 0x0007,
            PayloadType::AliveCheckResponse => 0x0008,
            PayloadType::EntityStatusRequest => 0x4001,
            PayloadType::EntityStatusResponse => 0x4002,
            PayloadType::PowerInformationRequest => 0x4003,
            PayloadType::PowerInformationResponse => 0x4004,
            PayloadType::DiagnosticMessage => 0x8001,
            PayloadType::DiagnosticMessageAck => 0x8002,
            PayloadType::DiagnosticMessageNack => 0x8003,
        };
        let pair: [u8; 2] = u16_to_be_bytes(code);
        let bytes: Vec<u8> = vec![pair[0], pair[1]];
        assert(bytes@ =~= spec_u16_to_be(self.code()));
        bytes
    }

    /// Reads the value from the first two bytes of `bytes`.
    pub fn from_bytes(bytes: &[u8]) -> (value: Option<PayloadType>)
        ensures
            value == Self::spec_from_bytes(bytes@),
    {
        if bytes.len() < 2 {
            return None;
        }
        let code: u16 = u16_from_be_bytes(bytes[0], bytes[1]);
        match code {
            0x0000 => Some(PayloadType::GenericNack),
            0x0001 => Some(PayloadType::VehicleIdentificationRequest),
            0x0002 => Some(PayloadType::VehicleIdentificationRequestEid),
            0x0003 => Some(PayloadType::VehicleIdentificationRequestVin),
            0x0004 => Some(PayloadType::VehicleAnnouncementMessage),
            0x0005 => Some(PayloadType::RoutingActivationRequest),
            0x0006 => Some(PayloadType::RoutingActivationResponse),
            0x0007 => Some(PayloadType::AliveCheckRequest),
            0x0008 => Some(PayloadType::AliveCheckResponse),
            0x4001 => Some(PayloadType::EntityStatusRequest),
            0x4002 => Some(PayloadType::EntityStatusResponse),
            0x4003 => Some(PayloadType::PowerInformationRequest),
            0x4004 => Some(PayloadType::PowerInformationResponse),
            0x8001 => Some(PayloadType::DiagnosticMessage),
            0x8002 => Some(PayloadType::DiagnosticMessageAck),
            0x8003 => Some(PayloadType::DiagnosticMessageNack),
            _ => None,
        }
    }

    /// Every value is read back from its own type code and from its own bytes, and a
    /// type code that is read as a value is the type code of that value: no type code
    /// outside the set is accepted.
    pub proof fn lemma_code_bijection(value: PayloadType, code: u16)
        ensures
            Self::from_code(value.code()) == Some(value),
            Self::from_code(code) matches Some(v) ==> v.code() == code,
            Self::spec_from_bytes(spec_u16_to_be(value.code())) == Some(value),
    {
        lemma_u16_be_round_trip(value.code());
    }
}

} // verus!
