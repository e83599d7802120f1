//! Codes of the generic negative acknowledgement.

use vstd::prelude::*;

verus! {

/// Why an entity rejected a frame.
#[derive(Clone, Copy, Debug, PartialEq, Eq, Structural)]
pub enum NackCodes {
    /// The header pattern is wrong.
    IncorrectPatternFormat,
    /// The payload type is unknown.
    UnknownPayloadType,
    /// The message is too large.
    MessageTooLarge,
    /// The entity is out of memory.
    OutOfMemory,
    /// The payload length is invalid.
    InvalidPayloadLength,
}

impl NackCodes {
    /// The code that stands for the value on the wire.
    pub open spec fn code(self) -> u8 {
        match self {
            NackCodes::IncorrectPatternFormat => 0x00,
            NackCodes::UnknownPayloadType => 0x01,
            NackCodes::MessageTooLarge => 0x02,
            NackCodes::OutOfMemory => 0x03,
            NackCodes::InvalidPayloadLength => 0x04,
        }
    }

    /// The value that a code stands for; `None` for every code outside the set.
    pub open spec fn from_code(code: u8) -> Option<NackCodes> {
        match code {
            0x00 => Some(NackCodes::IncorrectPatternFormat),
            0x01 => Some(NackCodes::UnknownPayloadType),
            0x02 => Some(NackCodes::MessageTooLarge),
            0x03 => Some(NackCodes::OutOfMemory),
            0x04 => Some(NackCodes::InvalidPayloadLength),
            _ => None,
        }
    }

    /// The value that a byte sequence opens with; `None` where it is empty or
    /// its first byte is no known code.
    pub open spec fn spec_from_bytes(bytes: Seq<u8>) -> Option<NackCodes> {
        if bytes.len() < 1 {
            None
        } else {
            Self::from_code(bytes[0])
        }
    }

    /// The one byte that encodes the value.
    pub fn to_bytes(self) -> (bytes: Vec<u8>)
        ensures
            bytes@ == seq![self.code()],
    {
        let code: u8 = match self {
            NackCodes::IncorrectPatternFormat => 0x00,
            NackCodes::UnknownPayloadType => 0x01,
            NackCodes::MessageTooLarge => 0x02,
            NackCodes::OutOfMemory => 0x03,
            NackCodes::InvalidPayloadLength => 0x04,
        };
        let bytes: Vec<u8> = vec![code];
        assert(bytes@ =~= seq![self.code()]);
        bytes
    }

    /// Reads the value from the first byte of `bytes`.
    pub fn from_bytes(bytes: &[u8]) -> (value: Option<NackCodes>)
        ensures
            value == Self::spec_from_bytes(bytes@),
    {
        if bytes.len() < 1 {
            return None;
        }
        match bytes[0] {
            0x00 => Some(NackCodes::IncorrectPatternFormat),
            0x01 => Some(NackCodes::UnknownPayloadType),
            0x02 => Some(NackCodes::MessageTooLarge),
            0x03 => Some(NackCodes::OutOfMemory),
            0x04 => Some(NackCodes::InvalidPayloadLength),
            _ => None,
        }
    }

    /// The words that describe the value.
    pub open spec fn spec_description(self) -> Seq<char> {
        match self {
            NackCodes::IncorrectPatternFormat => "Incorrect pattern format"@,
            NackCodes::UnknownPayloadType => "Unknown payload type"@,
            NackCodes::MessageTooLarge => "Message too large"@,
            NackCodes::OutOfMemory => "Out of memory"@,
            NackCodes::InvalidPayloadLength => "Invalid payload length"@,
        }
    }

    /// Describes the value in words, for messages to people.
    pub fn description(&self) -> (text: &'static str)
        ensures
            text@ == self.spec_description(),
    {
        match self {
            NackCodes::IncorrectPatternFormat => "Incorrect pattern format",
            NackCodes::UnknownPayloadType => "Unknown payload type",
            NackCodes::MessageTooLarge => "Message too large",
            NackCodes::OutOfMemory => "Out of memory",
            NackCodes::InvalidPayloadLength => "Invalid payload length",
        }
    }

    /// Every value is read back from its own code and from its own bytes, and a
    /// code that is read as a value is the code of that value: no code
    /// outside the set is accepted.
    pub proof fn lemma_code_bijection(value: NackCodes, code: u8)
        ensures
            Self::from_code(value.code()) == Some(value),
            Self::from_code(code) matches Some(v) ==> v.code() == code,
            Self::spec_from_bytes(seq![value.code()]) == Some(value),
    {
    }
}

} // verus!
