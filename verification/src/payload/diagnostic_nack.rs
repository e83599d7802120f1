//! Codes of the diagnostic message negative acknowledgement.

use vstd::prelude::*;

verus! {

/// Why an entity rejected a diagnostic message.
#[allow(non_camel_case_types)]
#[derive(Clone, Copy, Debug, PartialEq, Eq, Structural)]
pub enum DiagnosticNackCode {
    /// Reserved by ISO 13400 (code 0x00).
    ReservedByIso13400_00,
    /// Reserved by ISO 13400 (code 0x01).
    ReservedByIso13400_01,
    /// The source address is invalid.
    InvalidSourceAddress,
    /// The target address is unknown.
    UnknownTargetAddress,
    /// The diagnostic message is too large.
    DiagnosticMessageTooLarge,
    /// The entity is out of memory.
    OutOfMemory,
    /// The target cannot be reached.
    TargetUnreachable,
    /// The network is unknown.
    UnknownNetwork,
    /// The transport protocol failed.
    TransportProtocolError,
}

impl DiagnosticNackCode {
    /// The code that stands for the value on the wire.
    pub open spec fn code(self) -> u8 {
        match self {
            DiagnosticNackCode::ReservedByIso13400_00 => 0x00,
            DiagnosticNackCode::ReservedByIso13400_01 => 0x01,
            DiagnosticNackCode::InvalidSourceAddress => 0x02,
            DiagnosticNackCode::UnknownTargetAddress => 0x03,
            DiagnosticNackCode::DiagnosticMessageTooLarge => 0x04,
            DiagnosticNackCode::OutOfMemory => 0x05,
            DiagnosticNackCode::TargetUnreachable => 0x06,
            DiagnosticNackCode::UnknownNetwork => 0x07,
            DiagnosticNackCode::TransportProtocolError => 0x08,
        }
    }

    /// The value that a code stands for; `None` for every code outside the set.
    pub open spec fn from_code(code: u8) -> Option<DiagnosticNackCode> {
        match code {
            0x00 => Some(DiagnosticNackCode::ReservedByIso13400_00),
            0x01 => Some(DiagnosticNackCode::ReservedByIso13400_01),
            0x02 => Some(DiagnosticNackCode::InvalidSourceAddress),
            0x03 => Some(DiagnosticNackCode::UnknownTargetAddress),
            0x04 => Some(DiagnosticNackCode::DiagnosticMessageTooLarge),
            0x05 => Some(DiagnosticNackCode::OutOfMemory),
            0x06 => Some(DiagnosticNackCode::TargetUnreachable),
            0x07 => Some(DiagnosticNackCode::UnknownNetwork),
            0x08 => Some(DiagnosticNackCode::TransportProtocolError),
            _ => None,
        }
    }

    /// The value that a byte sequence opens with; `None` where it is empty or
    /// its first byte is no known code.
    pub open spec fn spec_from_bytes(bytes: Seq<u8>) -> Option<DiagnosticNackCode> {
        if bytes.len() < 1 {
            None
        } else {
            Self::from_code(bytes[0])
        }
    }

    /// The one byte that encodes the value.
    pub fn to_bytes(self) -> (bytes: Vec<u8>)
        ensures
            bytes@ == seq![self.code()],
    {
        let code: u8 = match self {
            DiagnosticNackCode::ReservedByIso13400_00 => 0x00,
            DiagnosticNackCode::ReservedByIso13400_01 => 0x01,
            DiagnosticNackCode::InvalidSourceAddress => 0x02,
            DiagnosticNackCode::UnknownTargetAddress => 0x03,
            DiagnosticNackCode::DiagnosticMessageTooLarge => 0x04,
            DiagnosticNackCode::OutOfMemory => 0x05,
            DiagnosticNackCode::TargetUnreachable => 0x06,
            DiagnosticNackCode::UnknownNetwork => 0x07,
            DiagnosticNackCode::TransportProtocolError => 0x08,
        };
        let bytes: Vec<u8> = vec![code];
        assert(bytes@ =~= seq![self.code()]);
        bytes
    }

    /// Reads the value from the first byte of `bytes`.
    pub fn from_bytes(bytes: &[u8]) -> (value: Option<DiagnosticNackCode>)
        ensures
            value == Self::spec_from_bytes(bytes@),
    {
        if bytes.len() < 1 {
            return None;
        }
        match bytes[0] {
            0x00 => Some(DiagnosticNackCode::ReservedByIso13400_00),
            0x01 => Some(DiagnosticNackCode::ReservedByIso13400_01),
            0x02 => Some(DiagnosticNackCode::InvalidSourceAddress),
            0x03 => Some(DiagnosticNackCode::UnknownTargetAddress),
            0x04 => Some(DiagnosticNackCode::DiagnosticMessageTooLarge),
            0x05 => Some(DiagnosticNackCode::OutOfMemory),
            0x06 => Some(DiagnosticNackCode::TargetUnreachable),
            0x07 => Some(DiagnosticNackCode::UnknownNetwork),
            0x08 => Some(DiagnosticNackCode::TransportProtocolError),
            _ => None,
        }
    }

    /// Every value is read back from its own code and from its own bytes, and a
    /// code that is read as a value is the code of that value: no code
    /// outside the set is accepted.
    pub proof fn lemma_code_bijection(value: DiagnosticNackCode, code: u8)
        ensures
            Self::from_code(value.code()) == Some(value),
            Self::from_code(code) matches Some(v) ==> v.code() == code,
            Self::spec_from_bytes(seq![value.code()]) == Some(value),
    {
    }
}

} // verus!
