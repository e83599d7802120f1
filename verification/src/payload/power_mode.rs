//! Power modes of the power information response.

use vstd::prelude::*;

verus! {

/// Diagnostic power mode of an entity.
#[derive(Clone, Copy, Debug, PartialEq, Eq, Structural)]
pub enum PowerMode {
    /// Not ready.
    NotReady,
    /// Ready.
    Ready,
    /// Not supported.
    NotSupported,
}

impl PowerMode {
    /// The mode byte that stands for the value on the wire.
    pub open spec fn code(self) -> u8 {
        match self {
            PowerMode::NotReady => 0x00,
            PowerMode::Ready => 0x01,
            PowerMode::NotSupported => 0x02,
        }
    }

    /// The value that a mode byte stands for; `None` for every mode byte outside the set.
    pub open spec fn from_code(code: u8) -> Option<PowerMode> {
        match code {
            0x00 => Some(PowerMode::NotReady),
            0x01 => Some(PowerMode::Ready),
            0x02 => Some(PowerMode::NotSupported),
            _ => None,
        }
    }

    /// The value that a byte sequence opens with; `None` where it is empty or
    /// its first byte is no known mode byte.
    pub open spec fn spec_from_bytes(bytes: Seq<u8>) -> Option<PowerMode> {
        if bytes.len() < 1 {
            None
        } else {
            Self::from_code(bytes[0])
        }
    }

    /// The one byte that encodes the value.
    pub fn to_bytes(self) -> (bytes: Vec<u8>)
        ensures
            bytes@ == seq![self.code()],
    {
        let code: u8 = match self {
            PowerMode::NotReady => 0x00,
            PowerMode::Ready => 0x01,
            PowerMode::NotSupported => 0x02,
        };
        let bytes: Vec<u8> = vec![code];
        assert(bytes@ =~= seq![self.code()]);
        bytes
    }

    /// Reads the value from the first byte of `bytes`.
    pub fn from_bytes(bytes: &[u8]) -> (value: Option<PowerMode>)
        ensures
            value == Self::spec_from_bytes(bytes@),
    {
        if bytes.len() < 1 {
            return None;
        }
        match bytes[0] {
            0x00 => Some(PowerMode::NotReady),
            0x01 => Some(PowerMode::Ready),
            0x02 => Some(PowerMode::NotSupported),
            _ => None,
        }
    }

    /// Every value is read back from its own mode byte and from its own bytes, and a
    /// mode byte that is read as a value is the mode byte of that value: no mode byte
    /// outside the set is accepted.
    pub proof fn lemma_code_bijection(value: PowerMode, code: u8)
        ensures
            Self::from_code(value.code()) == Some(value),
            Self::from_code(code) matches Some(v) ==> v.code() == code,
            Self::spec_from_bytes(seq![value.code()]) == Some(value),
    {
    }
}

} // verus!
