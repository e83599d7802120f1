//! Further action codes of the vehicle announcement.

use vstd::prelude::*;

verus! {

/// What a tester has to do after a vehicle announcement.
#[allow(non_camel_case_types)]
#[derive(Clone, Copy, Debug, PartialEq, Eq, Structural)]
pub enum ActionCode {
    /// Nothing further is required.
    NoFurtherActionRequired,
    /// Reserved by ISO 13400 (code 0x01).
    ReservedByIso13400_01,
    /// Reserved by ISO 13400 (code 0x02).
    ReservedByIso13400_02,
    /// Reserved by ISO 13400 (code 0x03).
    ReservedByIso13400_03,
    /// Reserved by ISO 13400 (code 0x04).
    ReservedByIso13400_04,
    /// Reserved by ISO 13400 (code 0x05).
    ReservedByIso13400_05,
    /// Reserved by ISO 13400 (code 0x06).
    ReservedByIso13400_06,
    /// Reserved by ISO 13400 (code 0x07).
    ReservedByIso13400_07,
    /// Reserved by ISO 13400 (code 0x08).
    ReservedByIso13400_08,
    /// Reserved by ISO 13400 (code 0x09).
    ReservedByIso13400_09,
    /// Reserved by ISO 13400 (code 0x0a).
    ReservedByIso13400_0A,
    /// Reserved by ISO 13400 (code 0x0b).
    ReservedByIso13400_0B,
    /// Reserved by ISO 13400 (code 0x0c).
    ReservedByIso13400_0C,
    /// Reserved by ISO 13400 (code 0x0d).
    ReservedByIso13400_0D,
    /// Reserved by ISO 13400 (code 0x0e).
    ReservedByIso13400_0E,
    /// Reserved by ISO 13400 (code 0x0f).
    ReservedByIso13400_0F,
    /// Routing activation is required.
    RoutingActivationRequired,
}

impl ActionCode {
    /// The code that stands for the value on the wire.
    pub open spec fn code(self) -> u8 {
        match self {
            ActionCode::NoFurtherActionRequired => 0x00,
            ActionCode::ReservedByIso13400_01 => 0x01,
            ActionCode::ReservedByIso13400_02 => 0x02,
            ActionCode::ReservedByIso13400_03 => 0x03,
            ActionCode::ReservedByIso13400_04 => 0x04,
            ActionCode::ReservedByIso13400_05 => 0x05,
            ActionCode::ReservedByIso13400_06 => 0x06,
            ActionCode::ReservedByIso13400_07 => 0x07,
            ActionCode::ReservedByIso13400_08 => 0x08,
            ActionCode::ReservedByIso13400_09 => 0x09,
            ActionCode::ReservedByIso13400_0A => 0x0a,
            ActionCode::ReservedByIso13400_0B => 0x0b,
            ActionCode::ReservedByIso13400_0C => 0x0c,
            ActionCode::ReservedByIso13400_0D => 0x0d,
            ActionCode::ReservedByIso13400_0E => 0x0e,
            ActionCode::ReservedByIso13400_0F => 0x0f,
            ActionCode::RoutingActivationRequired => 0x10,
        }
    }

    /// The value that a code stands for; `None` for every code outside the set.
    pub open spec fn from_code(code: u8) -> Option<ActionCode> {
        match code {
            0x00 => Some(ActionCode::NoFurtherActionRequired),
            0x01 => Some(ActionCode::ReservedByIso13400_01),
            0x02 => Some(ActionCode::ReservedByIso13400_02),
            0x03 => Some(ActionCode::ReservedByIso13400_03),
            0x04 => Some(ActionCode::ReservedByIso13400_04),
            0x05 => Some(ActionCode::ReservedByIso13400_05),
            0x06 => Some(ActionCode::ReservedByIso13400_06),
            0x07 => Some(ActionCode::ReservedByIso13400_07),
            0x08 => Some(ActionCode::ReservedByIso13400_08),
            0x09 => Some(ActionCode::ReservedByIso13400_09),
            0x0a => Some(ActionCode::ReservedByIso13400_0A),
            0x0b => Some(ActionCode::ReservedByIso13400_0B),
            0x0c => Some(ActionCode::ReservedByIso13400_0C),
            0x0d => Some(ActionCode::ReservedByIso13400_0D),
            0x0e => Some(ActionCode::ReservedByIso13400_0E),
            0x0f => Some(ActionCode::ReservedByIso13400_0F),
            0x10 => Some(ActionCode::RoutingActivationRequired),
            _ => None,
        }
    }

    /// The value that a byte sequence opens with; `None` where it is empty or
    /// its first byte is no known code.
    pub open spec fn spec_from_bytes(bytes: Seq<u8>) -> Option<ActionCode> {
        if bytes.len() < 1 {
            None
        } else {
            Self::from_code(bytes[0])
        }
    }

    /// The one byte that encodes the value.
    pub fn to_bytes(self) -> (bytes: Vec<u8>)
        ensures
            bytes@ == seq![self.code()],
    {
        let code: u8 = match self {
            ActionCode::NoFurtherActionRequired => 0x00,
            ActionCode::ReservedByIso13400_01 => 0x01,
            ActionCode::ReservedByIso13400_02 => 0x02,
            ActionCode::ReservedByIso13400_03 => 0x03,
            ActionCode::ReservedByIso13400_04 => 0x04,
            ActionCode::ReservedByIso13400_05 => 0x05,
            ActionCode::ReservedByIso13400_06 => 0x06,
            ActionCode::ReservedByIso13400_07 => 0x07,
            ActionCode::ReservedByIso13400_08 => 0x08,
            ActionCode::ReservedByIso13400_09 => 0x09,
            ActionCode::ReservedByIso13400_0A => 0x0a,
            ActionCode::ReservedByIso13400_0B => 0x0b,
            ActionCode::ReservedByIso13400_0C => 0x0c,
            ActionCode::ReservedByIso13400_0D => 0x0d,
            ActionCode::ReservedByIso13400_0E => 0x0e,
            ActionCode::ReservedByIso13400_0F => 0x0f,
            ActionCode::RoutingActivationRequired => 0x10,
        };
        let bytes: Vec<u8> = vec![code];
        assert(bytes@ =~= seq![self.code()]);
        bytes
    }

    /// Reads the value from the first byte of `bytes`.
    pub fn from_bytes(bytes: &[u8]) -> (value: Option<ActionCode>)
        ensures
            value == Self::spec_from_bytes(bytes@),
    {
        if bytes.len() < 1 {
            return None;
        }
        match bytes[0] {
            0x00 => Some(ActionCode::NoFurtherActionRequired),
            0x01 => Some(ActionCode::ReservedByIso13400_01),
            0x02 => Some(ActionCode::ReservedByIso13400_02),
            0x03 => Some(ActionCode::ReservedByIso13400_03),
            0x04 => Some(ActionCode::ReservedByIso13400_04),
            0x05 => Some(ActionCode::ReservedByIso13400_05),
            0x06 => Some(ActionCode::ReservedByIso13400_06),
            0x07 => Some(ActionCode::ReservedByIso13400_07),
            0x08 => Some(ActionCode::ReservedByIso13400_08),
            0x09 => Some(ActionCode::ReservedByIso13400_09),
            0x0a => Some(ActionCode::ReservedByIso13400_0A),
            0x0b => Some(ActionCode::ReservedByIso13400_0B),
            0x0c => Some(ActionCode::ReservedByIso13400_0C),
            0x0d => Some(ActionCode::ReservedByIso13400_0D),
            0x0e => Some(ActionCode::ReservedByIso13400_0E),
            0x0f => Some(ActionCode::ReservedByIso13400_0F),
            0x10 => Some(ActionCode::RoutingActivationRequired),
            _ => None,
        }
    }

    /// Every value is read back from its own code and from its own bytes, and a
    /// code that is read as a value is the code of that value: no code
    /// outside the set is accepted.
    pub proof fn lemma_code_bijection(value: ActionCode, code: u8)
        ensures
            Self::from_code(value.code()) == Some(value),
            Self::from_code(code) matches Some(v) ==> v.code() == code,
            Self::spec_from_bytes(seq![value.code()]) == Some(value),
    {
    }
}

} // verus!
