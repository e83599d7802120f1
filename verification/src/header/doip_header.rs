//! The header itself and its codec.

use vstd::prelude::*;
use vstd::slice::slice_subrange;

use crate::definitions::{
    DOIP_HEADER_LEN, DOIP_INV_VERSION_OFFSET, DOIP_LENGTH_OFFSET, DOIP_TYPE_LEN, DOIP_TYPE_OFFSET,
    DOIP_VERSION_OFFSET,
};
use crate::endian::{
    lemma_u16_be_bytes_round_trip, lemma_u16_be_round_trip, lemma_u32_be_bytes_round_trip,
    lemma_u32_be_round_trip, spec_u16_from_be, spec_u16_to_be, spec_u32_from_be, spec_u32_to_be,
    u32_from_be_bytes, u32_to_be_bytes,
};
use crate::error::{DecodeError, EncodeError};
use crate::header::payload_type::PayloadType;
use crate::header::version::ProtocolVersion;
use crate::payload::Payload;

verus! {

/// The first eight bytes of a frame.
#[derive(Clone, Copy, Debug, PartialEq, Eq)]
pub struct DoipHeader {
    /// Version of the protocol.
    pub protocol_version: ProtocolVersion,
    /// Check byte: the bitwise complement of the version byte.
    pub inverse_protocol_version: u8,
    /// Kind of payload that follows.
    pub payload_type: PayloadType,
    /// Number of payload bytes that follow.
    pub payload_length: u32,
}

/// Whether `inv_proto` is the bitwise complement of `proto`.
pub open spec fn spec_validate_protocol(proto: u8, inv_proto: u8) -> bool {
    inv_proto == 255 - proto
}

/// Checks the version byte against its check byte: `Some` exactly where the
/// second is the bitwise complement of the first.
pub fn validate_protocol(proto: u8, inv_proto: u8) -> (valid: Option<()>)
    ensures
        valid is Some <==> spec_validate_protocol(proto, inv_proto),
{
    if 255 - proto == inv_proto {
        Some(())
    } else {
        None
    }
}

impl DoipHeader {
    /// Whether the check byte matches the version.
    pub open spec fn protocol_valid(self) -> bool {
        spec_validate_protocol(self.protocol_version.code(), self.inverse_protocol_version)
    }

    /// The eight bytes of the header: version, check byte, payload type and
    /// payload length, the last two most significant byte first.
    pub open spec fn spec_to_bytes(self) -> Seq<u8> {
        seq![self.protocol_version.code(), self.inverse_protocol_version] + spec_u16_to_be(
            self.payload_type.code(),
        ) + spec_u32_to_be(self.payload_length)
    }

    /// The header that a byte sequence opens with, or the reason why it opens
    /// with none. Only the first eight bytes are read.
    pub open spec fn spec_from_bytes(bytes: Seq<u8>) -> Result<DoipHeader, DecodeError> {
        if bytes.len() < DOIP_HEADER_LEN {
            Err(DecodeError::TooShort)
        } else {
            match ProtocolVersion::from_code(bytes[0]) {
                None => Err(DecodeError::InvalidProtocolVersion),
                Some(protocol_version) => if !spec_validate_protocol(bytes[0], bytes[1]) {
                    Err(DecodeError::FailedProtocolValidation)
                } else {
                    match PayloadType::from_code(spec_u16_from_be(bytes[2], bytes[3])) {
                        None => Err(DecodeError::InvalidPayloadType),
                        Some(payload_type) => Ok(
                            DoipHeader {
                                protocol_version,
                                inverse_protocol_version: bytes[1],
                                payload_type,
                                payload_length: spec_u32_from_be(
                                    bytes[4],
                                    bytes[5],
                                    bytes[6],
                                    bytes[7],
                                ),
                            },
                        ),
                    }
                },
            }
        }
    }

    /// The header under which `payload` travels: its check byte matches the
    /// version, and its type and length are those of the payload.
    pub fn new(protocol_version: ProtocolVersion, payload: &Payload) -> (header: DoipHeader)
        requires
            payload@.spec_to_bytes().len() <= u32::MAX,
        ensures
            header == (DoipHeader {
                protocol_version,
                inverse_protocol_version: (255 - protocol_version.code()) as u8,
                payload_type: payload@.payload_type(),
                payload_length: payload@.spec_to_bytes().len() as u32,
            }),
            header.protocol_valid(),
    {
        let protocol_version_bytes: Vec<u8> = protocol_version.to_bytes();
        let payload_bytes: Vec<u8> = payload.to_bytes();
        DoipHeader {
            protocol_version,
            inverse_protocol_version: 255 - protocol_version_bytes[0],
            payload_type: payload.payload_type(),
            payload_length: payload_bytes.len() as u32,
        }
    }

    /// The header's eight bytes. Nothing is validated.
    pub fn to_bytes(&self) -> (bytes: Vec<u8>)
        ensures
            bytes@ == self.spec_to_bytes(),
    {
        let mut bytes: Vec<u8> = Vec::new();
        let protocol_version_bytes: Vec<u8> = self.protocol_version.to_bytes();
        let payload_type_bytes: Vec<u8> = self.payload_type.to_bytes();
        let payload_length_bytes: [u8; 4] = u32_to_be_bytes(self.payload_length);
        bytes.extend_from_slice(protocol_version_bytes.as_slice());
        bytes.push(self.inverse_protocol_version);
        bytes.extend_from_slice(payload_type_bytes.as_slice());
        bytes.extend_from_slice(&payload_length_bytes);
        assert(bytes@ =~= self.spec_to_bytes());
        bytes
    }

    /// A header with a valid check byte is read back from its own bytes,
    /// whatever follows them.
    pub proof fn lemma_round_trip(self, rest: Seq<u8>)
        requires
            self.protocol_valid(),
        ensures
            self.spec_to_bytes().len() == DOIP_HEADER_LEN,
            Self::spec_from_bytes(self.spec_to_bytes() + rest) == Ok::<DoipHeader, DecodeError>(
                self,
            ),
    {
        let bytes = self.spec_to_bytes() + rest;
        ProtocolVersion::lemma_code_bijection(self.protocol_version, 0);
        PayloadType::lemma_code_bijection(self.payload_type, 0);
        lemma_u16_be_round_trip(self.payload_type.code());
        lemma_u32_be_round_trip(self.payload_length);
        assert(spec_u16_to_be(self.payload_type.code()).len() == 2);
        assert(bytes[0] == self.protocol_version.code());
        assert(bytes[1] == self.inverse_protocol_version);
        assert(bytes[2] == spec_u16_to_be(self.payload_type.code())[0]);
        assert(bytes[3] == spec_u16_to_be(self.payload_type.code())[1]);
        assert(bytes[4] == spec_u32_to_be(self.payload_length)[0]);
        assert(bytes[5] == spec_u32_to_be(self.payload_length)[1]);
        assert(bytes[6] == spec_u32_to_be(self.payload_length)[2]);
        assert(bytes[7] == spec_u32_to_be(self.payload_length)[3]);
    }

    /// The first eight bytes of a sequence that holds a header are that
    /// header's own bytes, and its check byte is valid.
    pub proof fn lemma_bytes_round_trip(bytes: Seq<u8>)
        requires
            Self::spec_from_bytes(bytes) is Ok,
        ensures
            Self::spec_from_bytes(bytes)->Ok_0.protocol_valid(),
            Self::spec_from_bytes(bytes)->Ok_0.spec_to_bytes() == bytes.subrange(
                0,
                DOIP_HEADER_LEN as int,
            ),
    {
        let header = Self::spec_from_bytes(bytes)->Ok_0;
        ProtocolVersion::lemma_code_bijection(header.protocol_version, bytes[0]);
        PayloadType::lemma_code_bijection(
            header.payload_type,
            spec_u16_from_be(bytes[2], bytes[3]),
        );
        lemma_u16_be_bytes_round_trip(bytes[2], bytes[3]);
        lemma_u32_be_bytes_round_trip(bytes[4], bytes[5], bytes[6], bytes[7]);
        assert(header.spec_to_bytes() =~= bytes.subrange(0, DOIP_HEADER_LEN as int));
    }
}

/// Writes and reads headers.
#[derive(Clone, Copy, Debug)]
pub struct HeaderCodec;

impl HeaderCodec {
    /// Appends the header's eight bytes to `dst`, unless its check byte does
    /// not match its version: then nothing is written.
    pub fn encode(&self, item: DoipHeader, dst: &mut Vec<u8>) -> (r: Result<(), EncodeError>)
        ensures
            match r {
                Ok(()) => item.protocol_valid() && final(dst)@ == old(dst)@ + item.spec_to_bytes(),
                Err(e) => e == EncodeError::FailedProtocolValidation && !item.protocol_valid()
                    && final(dst)@ == old(dst)@,
            },
    {
        let protocol_version_bytes: Vec<u8> = item.protocol_version.to_bytes();
        if validate_protocol(protocol_version_bytes[0], item.inverse_protocol_version).is_none() {
            return Err(EncodeError::FailedProtocolValidation);
        }
        let bytes: Vec<u8> = item.to_bytes();
        dst.extend_from_slice(bytes.as_slice());
        assert(dst@ =~= old(dst)@ + item.spec_to_bytes());
        Ok(())
    }

    /// Reads a header from the first eight bytes of `src`. The result is never
    /// `Ok(None)`.
    pub fn decode(&self, src: &[u8]) -> (r: Result<Option<DoipHeader>, DecodeError>)
        ensures
            r == match DoipHeader::spec_from_bytes(src@) {
                Ok(header) => Ok::<Option<DoipHeader>, DecodeError>(Some(header)),
                Err(e) => Err(e),
            },
    {
        if src.len() < DOIP_HEADER_LEN {
            return Err(DecodeError::TooShort);
        }
        let protocol_version_byte: u8 = src[DOIP_VERSION_OFFSET];
        let protocol_version = match ProtocolVersion::from_bytes(
            slice_subrange(src, DOIP_VERSION_OFFSET, DOIP_INV_VERSION_OFFSET),
        ) {
            Some(version) => version,
            None => {
                return Err(DecodeError::InvalidProtocolVersion);
            },
        };
        let inverse_protocol_version: u8 = src[DOIP_INV_VERSION_OFFSET];
        if validate_protocol(protocol_version_byte, inverse_protocol_version).is_none() {
            return Err(DecodeError::FailedProtocolValidation);
        }
        let payload_type = match PayloadType::from_bytes(
            slice_subrange(src, DOIP_TYPE_OFFSET, DOIP_TYPE_OFFSET + DOIP_TYPE_LEN),
        ) {
            Some(kind) => kind,
            None => {
                return Err(DecodeError::InvalidPayloadType);
            },
        };
        let payload_length: u32 = u32_from_be_bytes(
            src[DOIP_LENGTH_OFFSET],
            src[DOIP_LENGTH_OFFSET + 1],
            src[DOIP_LENGTH_OFFSET + 2],
            src[DOIP_LENGTH_OFFSET + 3],
        );
        Ok(
            Some(
                DoipHeader {
                    protocol_version,
                    inverse_protocol_version,
                    payload_type,
                    payload_length,
                },
            ),
        )
    }
}

} // verus!
