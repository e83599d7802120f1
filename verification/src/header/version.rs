//! The protocol version that opens every header.

use vstd::prelude::*;

verus! {

/// Version of the protocol that a frame follows.
#[allow(non_camel_case_types)]
#[derive(Clone, Copy, Debug, PartialEq, Eq, Structural)]
pub enum ProtocolVersion {
    /// Reserved.
    ReservedVer,
    /// ISO 13400-2:2010.
    Iso13400_2010,
    /// ISO 13400-2:2012.
    Iso13400_2012,
    /// ISO 13400-2:2019.
    Iso13400_2019,
    /// ISO 13400-2:2019 with amendment 1.
    Iso13400_2019Amd1,
    /// The default value, used in vehicle identification requests.
    DefaultValue,
}

impl ProtocolVersion {
    /// The version byte that stands for the value on the wire.
    pub open spec fn code(self) -> u8 {
        match self {
            ProtocolVersion::ReservedVer => 0x00,
            ProtocolVersion::Iso13400_2010 => 0x01,
            ProtocolVersion::Iso13400_2012 => 0x02,
            ProtocolVersion::Iso13400_2019 => 0x03,
            ProtocolVersion::Iso13400_2019Amd1 => 0x04,
            ProtocolVersion::DefaultValue => 0xff,
        }
    }

    /// The value that a version byte stands for; `None` for every version byte outside the set.
    pub open spec fn from_code(code: u8) -> Option<ProtocolVersion> {
        match code {
            0x00 => Some(ProtocolVersion::ReservedVer),
            0x01 => Some(ProtocolVersion::Iso13400_2010),
            0x02 => Some(ProtocolVersion::Iso13400_2012),
            0x03 => Some(ProtocolVersion::Iso13400_2019),
            0x04 => Some(ProtocolVersion::Iso13400_2019Amd1),
            0xff => Some(ProtocolVersion::DefaultValue),
            _ => None,
        }
    }

    /// The value that a byte sequence opens with; `None` where it is empty or
    /// its first byte is no known version byte.
    pub open spec fn spec_from_bytes(bytes: Seq<u8>) -> Option<ProtocolVersion> {
        if bytes.len() < 1 {
            None
        } else {
            Self::from_code(bytes[0])
        }
    }

    /// The one byte that encodes the value.
    pub fn to_bytes(self) -> (bytes: Vec<u8>)
        ensures
            bytes@ == seq![self.code()],
    {
        let code: u8 = match self {
            ProtocolVersion::ReservedVer => 0x00,
            ProtocolVersion::Iso13400_2010 => 0x01,
            ProtocolVersion::Iso13400_2012 => 0x02,
            ProtocolVersion::Iso13400_2019 => 0x03,
            ProtocolVersion::Iso13400_2019Amd1 => 0x04,
            ProtocolVersion::DefaultValue => 0xff,
        };
        let bytes: Vec<u8> = vec![code];
        assert(bytes@ =~= seq![self.code()]);
        bytes
    }

    /// Reads the value from the first byte of `bytes`.
    pub fn from_bytes(bytes: &[u8]) -> (value: Option<ProtocolVersion>)
        ensures
            value == Self::spec_from_bytes(bytes@),
    {
        if bytes.len() < 1 {
            return None;
        }
        match bytes[0] {
            0x00 => Some(ProtocolVersion::ReservedVer),
            0x01 => Some(ProtocolVersion::Iso13400_2010),
            0x02 => Some(ProtocolVersion::Iso13400_2012),
            0x03 => Some(ProtocolVersion::Iso13400_2019),
            0x04 => Some(ProtocolVersion::Iso13400_2019Amd1),
            0xff => Some(ProtocolVersion::DefaultValue),
            _ => None,
        }
    }

    /// Every value is read back from its own version byte and from its own bytes, and a
    /// version byte that is read as a value is the version byte of that value: no version byte
    /// outside the set is accepted.
    pub proof fn lemma_code_bijection(value: ProtocolVersion, code: u8)
        ensures
            Self::from_code(value.code()) == Some(value),
            Self::from_code(code) matches Some(v) ==> v.code() == code,
            Self::spec_from_bytes(seq![value.code()]) == Some(value),
    {
    }
}

} // verus!
