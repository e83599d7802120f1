//! The errors that encoding and decoding report.

use vstd::prelude::*;

verus! {

/// Why a byte sequence is not a frame.
#[derive(Clone, Copy, Debug, PartialEq, Eq, Structural)]
pub enum DecodeError {
    /// Fewer bytes than the header or the payload type needs.
    TooShort,
    /// The version byte is none of the known protocol versions.
    InvalidProtocolVersion,
    /// The second byte is not the bitwise complement of the version byte.
    FailedProtocolValidation,
    /// The payload type code is none of the known codes.
    InvalidPayloadType,
    /// Unknown generic negative acknowledgement code.
    InvalidNackCode,
    /// Unknown routing activation type.
    InvalidActivationType,
    /// Unknown routing activation response code.
    InvalidActivationCode,
    /// Unknown further action code.
    InvalidActionCode,
    /// Unknown synchronisation status.
    InvalidSyncStatus,
    /// Unknown node type.
    InvalidNodeType,
    /// Unknown power mode.
    InvalidPowerMode,
    /// Unknown diagnostic acknowledgement code.
    InvalidDiagnosticAckCode,
    /// Unknown diagnostic negative acknowledgement code.
    InvalidDiagnosticNackCode,
    /// The buffer, or the frame that its header announces, exceeds the
    /// maximum frame size.
    MessageTooLarge,
    /// A buffer of fixed capacity is full and still holds no complete frame.
    BufferTooSmall,
}

/// Why a message was not written.
#[derive(Clone, Copy, Debug, PartialEq, Eq, Structural)]
pub enum EncodeError {
    /// The header's second byte is not the complement of its version byte.
    FailedProtocolValidation,
    /// The destination cannot take the frame.
    BufferTooSmall,
    /// The header names another payload type than the payload has.
    PayloadTypeValidation,
    /// The header's payload length is not the length of the encoded payload.
    PayloadLengthValidation,
}

/// Why a buffer of frames was not parsed.
#[derive(Clone, Copy, Debug, PartialEq, Eq, Structural)]
pub enum ParseError {
    /// The buffer holds no bytes at all.
    EmptyInput,
    /// One of the frames is invalid.
    Frame(DecodeError),
}

} // verus!
