//! Types of routing activation.

use vstd::prelude::*;

verus! {

/// Kind of routing activation that a tester asks for.
#[derive(Clone, Copy, Debug, PartialEq, Eq, Structural)]
pub enum ActivationType {
    /// Default activation.
    Default,
    /// Activation for WWH-OBD.
    WwhObd,
    /// Activation through central security.
    CentralSecurity,
}

impl ActivationType {
    /// The type byte that stands for the value on the wire.
    pub open spec fn code(self) -> u8 {
        match self {
            ActivationType::Default => 0x00,
            ActivationType::WwhObd => 0x01,
            ActivationType::CentralSecurity => 0x02,
        }
    }

    /// The value that a type byte stands for; `None` for every type byte outside the set.
    pub open spec fn from_code(code: u8) -> Option<ActivationType> {
        match code {
            0x00 => Some(ActivationType::Default),
            0x01 => Some(ActivationType::WwhObd),
            0x02 => Some(ActivationType::CentralSecurity),
            _ => None,
        }
    }

    /// The value that a byte sequence opens with; `None` where it is empty or
    /// its first byte is no known type byte.
    pub open spec fn spec_from_bytes(bytes: Seq<u8>) -> Option<ActivationType> {
        if bytes.len() < 1 {
            None
        } else {
            Self::from_code(bytes[0])
        }
    }

    /// The one byte that encodes the value.
    pub fn to_bytes(self) -> (bytes: Vec<u8>)
        ensures
            bytes@ == seq![self.code()],
    {
        let code: u8 = match self {
            ActivationType::Default => 0x00,
            ActivationType::WwhObd => 0x01,
            ActivationType::CentralSecurity => 0x02,
        };
        let bytes: Vec<u8> = vec![code];
        assert(bytes@ =~= seq![self.code()]);
        bytes
    }

    /// Reads the value from the first byte of `bytes`.
    pub fn from_bytes(bytes: &[u8]) -> (value: Option<ActivationType>)
        ensures
            value == Self::spec_from_bytes(bytes@),
    {
        if bytes.len() < 1 {
            return None;
        }
        match bytes[0] {
            0x00 => Some(ActivationType::Default),
            0x01 => Some(ActivationType::WwhObd),
            0x02 => Some(ActivationType::CentralSecurity),
            _ => None,
        }
    }

    /// Every value is read back from its own type byte and from its own bytes, and a
    /// type byte that is read as a value is the type byte of that value: no type byte
    /// outside the set is accepted.
    pub proof fn lemma_code_bijection(value: ActivationType, code: u8)
        ensures
            Self::from_code(value.code()) == Some(value),
            Self::from_code(code) matches Some(v) ==> v.code() == code,
            Self::spec_from_bytes(seq![value.code()]) == Some(value),
    {
    }
}

} // verus!
