//! Codes of the routing activation response.

use vstd::prelude::*;

verus! {

/// Outcome of a routing activation request.
#[allow(non_camel_case_types)]
#[derive(Clone, Copy, Debug, PartialEq, Eq, Structural)]
pub enum ActivationCode {
    /// Denied: unknown source address.
    DeniedUnknownSourceAddress,
    /// Denied: all TCP sockets are in use.
    DeniedTCPSocketsFull,
    /// Denied: the TCP socket is already connected.
    DeniedTCPSocketAlreadyConnected,
    /// Denied: the source address is already active.
    DeniedSourceIsAlreadyActive,
    /// Denied: authentication is missing.
    DeniedMissingAuthentication,
    /// Denied: the confirmation was rejected.
    DeniedRejectedConfirmation,
    /// Denied: the activation type is not supported.
    DeniedUnsupportedRoutingActivationType,
    /// Denied: an encrypted TLS connection is required.
    DeniedRequestEncryptedTLSConnection,
    /// Reserved by ISO 13400 (code 0x08).
    ReservedByIso13400_08,
    /// Reserved by ISO 13400 (code 0x09).
    ReservedByIso13400_09,
    /// Reserved by ISO 13400 (code 0x0a).
    ReservedByIso13400_0A,
    /// Reserved by ISO 13400 (code 0x0b).
    ReservedByIso13400_0B,
    /// Reserved by ISO 13400 (code 0x0c).
    ReservedByIso13400_0C,
    /// Reserved by ISO 13400 (code 0x0d).
    ReservedByIso13400_0D,
    /// Reserved by ISO 13400 (code 0x0e).
    ReservedByIso13400_0E,
    /// Reserved by ISO 13400 (code 0x0f).
    ReservedByIso13400_0F,
    /// Routing was activated.
    SuccessfullyActivated,
    /// Routing will be activated once confirmed.
    ActivatedConfirmationRequired,
}

impl ActivationCode {
    /// The code that stands for the value on the wire.
    pub open spec fn code(self) -> u8 {
        match self {
            ActivationCode::DeniedUnknownSourceAddress => 0x00,
            ActivationCode::DeniedTCPSocketsFull => 0x01,
            ActivationCode::DeniedTCPSocketAlreadyConnected => 0x02,
            ActivationCode::DeniedSourceIsAlreadyActive => 0x03,
            ActivationCode::DeniedMissingAuthentication => 0x04,
            ActivationCode::DeniedRejectedConfirmation => 0x05,
            ActivationCode::DeniedUnsupportedRoutingActivationType => 0x06,
            ActivationCode::DeniedRequestEncryptedTLSConnection => 0x07,
            ActivationCode::ReservedByIso13400_08 => 0x08,
            ActivationCode::ReservedByIso13400_09 => 0x09,
            ActivationCode::ReservedByIso13400_0A => 0x0a,
            ActivationCode::ReservedByIso13400_0B => 0x0b,
            ActivationCode::ReservedByIso13400_0C => 0x0c,
            ActivationCode::ReservedByIso13400_0D => 0x0d,
            ActivationCode::ReservedByIso13400_0E => 0x0e,
            ActivationCode::ReservedByIso13400_0F => 0x0f,
            ActivationCode::SuccessfullyActivated => 0x10,
            ActivationCode::ActivatedConfirmationRequired => 0x11,
        }
    }

    /// The value that a code stands for; `None` for every code outside the set.
    pub open spec fn from_code(code: u8) -> Option<ActivationCode> {
        match code {
            0x00 => Some(ActivationCode::DeniedUnknownSourceAddress),
            0x01 => Some(ActivationCode::DeniedTCPSocketsFull),
            0x02 => Some(ActivationCode::DeniedTCPSocketAlreadyConnected),
            0x03 => Some(ActivationCode::DeniedSourceIsAlreadyActive),
            0x04 => Some(ActivationCode::DeniedMissingAuthentication),
            0x05 => Some(ActivationCode::DeniedRejectedConfirmation),
            0x06 => Some(ActivationCode::DeniedUnsupportedRoutingActivationType),
            0x07 => Some(ActivationCode::DeniedRequestEncryptedTLSConnection),
            0x08 => Some(ActivationCode::ReservedByIso13400_08),
            0x09 => Some(ActivationCode::ReservedByIso13400_09),
            0x0a => Some(ActivationCode::ReservedByIso13400_0A),
            0x0b => Some(ActivationCode::ReservedByIso13400_0B),
            0x0c => Some(ActivationCode::ReservedByIso13400_0C),
            0x0d => Some(ActivationCode::ReservedByIso13400_0D),
            0x0e => Some(ActivationCode::ReservedByIso13400_0E),
            0x0f => Some(ActivationCode::ReservedByIso13400_0F),
            0x10 => Some(ActivationCode::SuccessfullyActivated),
            0x11 => Some(ActivationCode::ActivatedConfirmationRequired),
            _ => None,
        }
    }

    /// The value that a byte sequence opens with; `None` where it is empty or
    /// its first byte is no known code.
    pub open spec fn spec_from_bytes(bytes: Seq<u8>) -> Option<ActivationCode> {
        if bytes.len() < 1 {
            None
        } else {
            Self::from_code(bytes[0])
        }
    }

    /// The one byte that encodes the value.
    pub fn to_bytes(self) -> (bytes: Vec<u8>)
        ensures
            bytes@ == seq![self.code()],
    {
        let code: u8 = match self {
            ActivationCode::DeniedUnknownSourceAddress => 0x00,
            ActivationCode::DeniedTCPSocketsFull => 0x01,
            ActivationCode::DeniedTCPSocketAlreadyConnected => 0x02,
            ActivationCode::DeniedSourceIsAlreadyActive => 0x03,
            ActivationCode::DeniedMissingAuthentication => 0x04,
            ActivationCode::DeniedRejectedConfirmation => 0x05,
            ActivationCode::DeniedUnsupportedRoutingActivationType => 0x06,
            ActivationCode::DeniedRequestEncryptedTLSConnection => 0x07,
            ActivationCode::ReservedByIso13400_08 => 0x08,
            ActivationCode::ReservedByIso13400_09 => 0x09,
            ActivationCode::ReservedByIso13400_0A => 0x0a,
            ActivationCode::ReservedByIso13400_0B => 0x0b,
            ActivationCode::ReservedByIso13400_0C => 0x0c,
            ActivationCode::ReservedByIso13400_0D => 0x0d,
            ActivationCode::ReservedByIso13400_0E => 0x0e,
            ActivationCode::ReservedByIso13400_0F => 0x0f,
            ActivationCode::SuccessfullyActivated => 0x10,
            ActivationCode::ActivatedConfirmationRequired => 0x11,
        };
        let bytes: Vec<u8> = vec![code];
        assert(bytes@ =~= seq![self.code()]);
        bytes
    }

    /// Reads the value from the first byte of `bytes`.
    pub fn from_bytes(bytes: &[u8]) -> (value: Option<ActivationCode>)
        ensures
            value == Self::spec_from_bytes(bytes@),
    {
        if bytes.len() < 1 {
            return None;
        }
        match bytes[0] {
            0x00 => Some(ActivationCode::DeniedUnknownSourceAddress),
            0x01 => Some(ActivationCode::DeniedTCPSocketsFull),
            0x02 => Some(ActivationCode::DeniedTCPSocketAlreadyConnected),
            0x03 => Some(ActivationCode::DeniedSourceIsAlreadyActive),
            0x04 => Some(ActivationCode::DeniedMissingAuthentication),
            0x05 => Some(ActivationCode::DeniedRejectedConfirmation),
            0x06 => Some(ActivationCode::DeniedUnsupportedRoutingActivationType),
            0x07 => Some(ActivationCode::DeniedRequestEncryptedTLSConnection),
            0x08 => Some(ActivationCode::ReservedByIso13400_08),
            0x09 => Some(ActivationCode::ReservedByIso13400_09),
            0x0a => Some(ActivationCode::ReservedByIso13400_0A),
            0x0b => Some(ActivationCode::ReservedByIso13400_0B),
            0x0c => Some(ActivationCode::ReservedByIso13400_0C),
            0x0d => Some(ActivationCode::ReservedByIso13400_0D),
            0x0e => Some(ActivationCode::ReservedByIso13400_0E),
            0x0f => Some(ActivationCode::ReservedByIso13400_0F),
            0x10 => Some(ActivationCode::SuccessfullyActivated),
            0x11 => Some(ActivationCode::ActivatedConfirmationRequired),
            _ => None,
        }
    }

    /// Every value is read back from its own code and from its own bytes, and a
    /// code that is read as a value is the code of that value: no code
    /// outside the set is accepted.
    pub proof fn lemma_code_bijection(value: ActivationCode, code: u8)
        ensures
            Self::from_code(value.code()) == Some(value),
            Self::from_code(code) matches Some(v) ==> v.code() == code,
            Self::spec_from_bytes(seq![value.code()]) == Some(value),
    {
    }
}

} // verus!
