//! Codes of the diagnostic message acknowledgement.

use vstd::prelude::*;

verus! {

/// How an entity acknowledged a diagnostic message.
#[derive(Clone, Copy, Debug, PartialEq, Eq, Structural)]
pub enum DiagnosticAckCode {
    /// The message was routed.
    Acknowledged,
}

impl DiagnosticAckCode {
    /// The code that stands for the value on the wire.
    pub open spec fn code(self) -> u8 {
        match self {
            DiagnosticAckCode::Acknowledged => 0x00,
        }
    }

    /// The value that a code stands for; `None` for every code outside the set.
    pub open spec fn from_code(code: u8) -> Option<DiagnosticAckCode> {
        match code {
            0x00 => Some(DiagnosticAckCode::Acknowledged),
            _ => None,
        }
    }

    /// The value that a byte sequence opens with; `None` where it is empty or
    /// its first byte is no known code.
    pub open spec fn spec_from_bytes(bytes: Seq<u8>) -> Option<DiagnosticAckCode> {
        if bytes.len() < 1 {
            None
        } else {
            Self::from_code(bytes[0])
        }
    }

    /// The one byte that encodes the value.
    pub fn to_bytes(self) -> (bytes: Vec<u8>)
        ensures
            bytes@ == seq![self.code()],
    {
        let code: u8 = match self {
            DiagnosticAckCode::Acknowledged => 0x00,
        };
        let bytes: Vec<u8> = vec![code];
        assert(bytes@ =~= seq![self.code()]);
        bytes
    }

    /// Reads the value from the first byte of `bytes`.
    pub fn from_bytes(bytes: &[u8]) -> (value: Option<DiagnosticAckCode>)
        ensures
            value == Self::spec_from_bytes(bytes@),
    {
        if bytes.len() < 1 {
            return None;
        }
        match bytes[0] {
            0x00 => Some(DiagnosticAckCode::Acknowledged),
            _ => None,
        }
    }

    /// Every value is read back from its own code and from its own bytes, and a
    /// code that is read as a value is the code of that value: no code
    /// outside the set is accepted.
    pub proof fn lemma_code_bijection(value: DiagnosticAckCode, code: u8)
        ensures
            Self::from_code(value.code()) == Some(value),
            Self::from_code(code) matches Some(v) ==> v.code() == code,
            Self::spec_from_bytes(seq![value.code()]) == Some(value),
    {
    }
}

} // verus!
