//! Synchronisation status of the vehicle announcement.

use vstd::prelude::*;

verus! {

/// Whether the vehicle and group identifiers are synchronised.
#[allow(non_camel_case_types)]
#[derive(Clone, Copy, Debug, PartialEq, Eq, Structural)]
pub enum SyncStatus {
    /// The identifiers are synchronised.
    VinGidSynchronized,
    /// Reserved by ISO 13400 (code 0x01).
    ReservedByIso13400_01,
    /// Reserved by ISO 13400 (code 0x02).
    ReservedByIso13400_02,
    /// Reserved by ISO 13400 (code 0x03).
    ReservedByIso13400_03,
    /// Reserved by ISO 13400 (code 0x04).
    ReservedByIso13400_04,
    /// Reserved by ISO 13400 (code 0x05).
    ReservedByIso13400_05,
    /// Reserved by ISO 13400 (code 0x06).
    ReservedByIso13400_06,
    /// Reserved by ISO 13400 (code 0x07).
    ReservedByIso13400_07,
    /// Reserved by ISO 13400 (code 0x08).
    ReservedByIso13400_08,
    /// Reserved by ISO 13400 (code 0x09).
    ReservedByIso13400_09,
    /// Reserved by ISO 13400 (code 0x0a).
    ReservedByIso13400_0A,
    /// Reserved by ISO 13400 (code 0x0b).
    ReservedByIso13400_0B,
    /// Reserved by ISO 13400 (code 0x0c).
    ReservedByIso13400_0C,
    /// Reserved by ISO 13400 (code 0x0d).
    ReservedByIso13400_0D,
    /// Reserved by ISO 13400 (code 0x0e).
    ReservedByIso13400_0E,
    /// Reserved by ISO 13400 (code 0x0f).
    ReservedByIso13400_0F,
    /// The identifiers are not synchronised.
    VinGidNotSynchronised,
}

impl SyncStatus {
    /// The status byte that stands for the value on the wire.
    pub open spec fn code(self) -> u8 {
        match self {
            SyncStatus::VinGidSynchronized => 0x00,
            SyncStatus::ReservedByIso13400_01 => 0x01,
            SyncStatus::ReservedByIso13400_02 => 0x02,
            SyncStatus::ReservedByIso13400_03 => 0x03,
            SyncStatus::ReservedByIso13400_04 => 0x04,
            SyncStatus::ReservedByIso13400_05 => 0x05,
            SyncStatus::ReservedByIso13400_06 => 0x06,
            SyncStatus::ReservedByIso13400_07 => 0x07,
            SyncStatus::ReservedByIso13400_08 => 0x08,
            SyncStatus::ReservedByIso13400_09 => 0x09,
            SyncStatus::ReservedByIso13400_0A => 0x0a,
            SyncStatus::ReservedByIso13400_0B => 0x0b,
            SyncStatus::ReservedByIso13400_0C => 0x0c,
            SyncStatus::ReservedByIso13400_0D => 0x0d,
            SyncStatus::ReservedByIso13400_0E => 0x0e,
            SyncStatus::ReservedByIso13400_0F => 0x0f,
            SyncStatus::VinGidNotSynchronised => 0x10,
        }
    }

    /// The value that a status byte stands for; `None` for every status byte outside the set.
    pub open spec fn from_code(code: u8) -> Option<SyncStatus> {
        match code {
            0x00 => Some(SyncStatus::VinGidSynchronized),
            0x01 => Some(SyncStatus::ReservedByIso13400_01),
            0x02 => Some(SyncStatus::ReservedByIso13400_02),
            0x03 => Some(SyncStatus::ReservedByIso13400_03),
            0x04 => Some(SyncStatus::ReservedByIso13400_04),
            0x05 => Some(SyncStatus::ReservedByIso13400_05),
            0x06 => Some(SyncStatus::ReservedByIso13400_06),
            0x07 => Some(SyncStatus::ReservedByIso13400_07),
            0x08 => Some(SyncStatus::ReservedByIso13400_08),
            0x09 => Some(SyncStatus::ReservedByIso13400_09),
            0x0a => Some(SyncStatus::ReservedByIso13400_0A),
            0x0b => Some(SyncStatus::ReservedByIso13400_0B),
            0x0c => Some(SyncStatus::ReservedByIso13400_0C),
            0x0d => Some(SyncStatus::ReservedByIso13400_0D),
            0x0e => Some(SyncStatus::ReservedByIso13400_0E),
            0x0f => Some(SyncStatus::ReservedByIso13400_0F),
            0x10 => Some(SyncStatus::VinGidNotSynchronised),
            _ => None,
        }
    }

    /// The value that a byte sequence opens with; `None` where it is empty or
    /// its first byte is no known status byte.
    pub open spec fn spec_from_bytes(bytes: Seq<u8>) -> Option<SyncStatus> {
        if bytes.len() < 1 {
            None
        } else {
            Self::from_code(bytes[0])
        }
    }

    /// The one byte that encodes the value.
    pub fn to_bytes(self) -> (bytes: Vec<u8>)
        ensures
            bytes@ == seq![self.code()],
    {
        let code: u8 = match self {
            SyncStatus::VinGidSynchronized => 0x00,
            SyncStatus::ReservedByIso13400_01 => 0x01,
            SyncStatus::ReservedByIso13400_02 => 0x02,
            SyncStatus::ReservedByIso13400_03 => 0x03,
            SyncStatus::ReservedByIso13400_04 => 0x04,
            SyncStatus::ReservedByIso13400_05 => 0x05,
            SyncStatus::ReservedByIso13400_06 => 0x06,
            SyncStatus::ReservedByIso13400_07 => 0x07,
            SyncStatus::ReservedByIso13400_08 => 0x08,
            SyncStatus::ReservedByIso13400_09 => 0x09,
            SyncStatus::ReservedByIso13400_0A => 0x0a,
            SyncStatus::ReservedByIso13400_0B => 0x0b,
            SyncStatus::ReservedByIso13400_0C => 0x0c,
            SyncStatus::ReservedByIso13400_0D => 0x0d,
            SyncStatus::ReservedByIso13400_0E => 0x0e,
            SyncStatus::ReservedByIso13400_0F => 0x0f,
            SyncStatus::VinGidNotSynchronised => 0x10,
        };
        let bytes: Vec<u8> = vec![code];
        assert(bytes@ =~= seq![self.code()]);
        bytes
    }

    /// Reads the value from the first byte of `bytes`.
    pub fn from_bytes(bytes: &[u8]) -> (value: Option<SyncStatus>)
        ensures
            value == Self::spec_from_bytes(bytes@),
    {
        if bytes.len() < 1 {
            return None;
        }
        match bytes[0] {
            0x00 => Some(SyncStatus::VinGidSynchronized),
            0x01 => Some(SyncStatus::ReservedByIso13400_01),
            0x02 => Some(SyncStatus::ReservedByIso13400_02),
            0x03 => Some(SyncStatus::ReservedByIso13400_03),
            0x04 => Some(SyncStatus::ReservedByIso13400_04),
            0x05 => Some(SyncStatus::ReservedByIso13400_05),
            0x06 => Some(SyncStatus::ReservedByIso13400_06),
            0x07 => Some(SyncStatus::ReservedByIso13400_07),
            0x08 => Some(SyncStatus::ReservedByIso13400_08),
            0x09 => Some(SyncStatus::ReservedByIso13400_09),
            0x0a => Some(SyncStatus::ReservedByIso13400_0A),
            0x0b => Some(SyncStatus::ReservedByIso13400_0B),
            0x0c => Some(SyncStatus::ReservedByIso13400_0C),
            0x0d => Some(SyncStatus::ReservedByIso13400_0D),
            0x0e => Some(SyncStatus::ReservedByIso13400_0E),
            0x0f => Some(SyncStatus::ReservedByIso13400_0F),
            0x10 => Some(SyncStatus::VinGidNotSynchronised),
            _ => None,
        }
    }

    /// Every value is read back from its own status byte and from its own bytes, and a
    /// status byte that is read as a value is the status byte of that value: no status byte
    /// outside the set is accepted.
    pub proof fn lemma_code_bijection(value: SyncStatus, code: u8)
        ensures
            Self::from_code(value.code()) == Some(value),
            Self::from_code(code) matches Some(v) ==> v.code() == code,
            Self::spec_from_bytes(seq![value.code()]) == Some(value),
    {
    }
}

} // verus!
