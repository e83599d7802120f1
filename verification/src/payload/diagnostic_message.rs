//! Diagnostic message.

use vstd::prelude::*;
use vstd::slice::slice_subrange;

use crate::definitions::{DOIP_DIAG_COMMON_LEN, DOIP_HEADER_LEN};
use crate::error::{DecodeError, EncodeError};
use crate::header::doip_header::{DoipHeader, HeaderCodec};
use crate::header::payload_type::PayloadType;
use crate::payload::doip_payload::DoipPayload;
use crate::payload::Payload;
use crate::payload::PayloadView;

verus! {

/// Carries diagnostic data from one address to another.
#[derive(Clone, Debug, PartialEq, Eq)]
pub struct DiagnosticMessage {
    /// Address of the sender.
    pub source_address: [u8; 2],
    /// Address of the receiver.
    pub target_address: [u8; 2],
    /// The diagnostic data, of any length.
    pub message: Vec<u8>,
}

/// The value of a diagnostic message.
pub struct DiagnosticMessageView {
    /// Address of the sender.
    pub source_address: [u8; 2],
    /// Address of the receiver.
    pub target_address: [u8; 2],
    /// The diagnostic data.
    pub message: Seq<u8>,
}

impl View for DiagnosticMessage {
    type V = DiagnosticMessageView;

    open spec fn view(&self) -> DiagnosticMessageView {
        DiagnosticMessageView {
            source_address: self.source_address,
            target_address: self.target_address,
            message: self.message@,
        }
    }
}

impl DoipPayload for DiagnosticMessage {
    open spec fn spec_payload_type() -> PayloadType {
        PayloadType::DiagnosticMessage
    }

    open spec fn spec_to_bytes(value: DiagnosticMessageView) -> Seq<u8> {
        value.source_address@ + value.target_address@ + value.message
    }

    open spec fn spec_from_bytes(bytes: Seq<u8>) -> Result<DiagnosticMessageView, DecodeError> {
        if bytes.len() < DOIP_DIAG_COMMON_LEN {
            Err(DecodeError::TooShort)
        } else {
            Ok(
                DiagnosticMessageView {
                    source_address: [bytes[0], bytes[1]],
                    target_address: [bytes[2], bytes[3]],
                    message: bytes.skip(DOIP_DIAG_COMMON_LEN as int),
                },
            )
        }
    }

    fn payload_type(&self) -> (kind: PayloadType) {
        PayloadType::DiagnosticMessage
    }

    fn to_bytes(&self) -> (bytes: Vec<u8>) {
        let mut bytes: Vec<u8> = Vec::new();
        bytes.extend_from_slice(&self.source_address);
        bytes.extend_from_slice(&self.target_address);
        bytes.extend_from_slice(self.message.as_slice());
        assert(bytes@ =~= Self::spec_to_bytes(self@));
        bytes
    }

    fn from_bytes(bytes: &[u8]) -> (r: Result<DiagnosticMessage, DecodeError>) {
        if bytes.len() < DOIP_DIAG_COMMON_LEN {
            return Err(DecodeError::TooShort);
        }
        let source_address: [u8; 2] = [bytes[0], bytes[1]];
        let target_address: [u8; 2] = [bytes[2], bytes[3]];
        let mut message: Vec<u8> = Vec::new();
        message.extend_from_slice(slice_subrange(bytes, DOIP_DIAG_COMMON_LEN, bytes.len()));
        assert(message@ =~= bytes@.skip(DOIP_DIAG_COMMON_LEN as int));
        Ok(DiagnosticMessage { source_address, target_address, message })
    }

    proof fn lemma_round_trip(value: DiagnosticMessageView) {
        let bytes = Self::spec_to_bytes(value);
        let decoded = Self::spec_from_bytes(bytes)->Ok_0;
        assert(decoded.source_address =~= value.source_address);
        assert(decoded.target_address =~= value.target_address);
        assert(decoded.message =~= value.message);
    }
}

/// Writes and reads diagnostic messages.
#[derive(Clone, Copy, Debug)]
pub struct DiagnosticMessageCodec {}

impl DiagnosticMessageCodec {
    /// The payload of the frame that `src` opens with. The header says how
    /// long the payload is, and with that where the diagnostic data end; what
    /// follows the frame is not read.
    pub open spec fn spec_decode(src: Seq<u8>) -> Result<DiagnosticMessageView, DecodeError> {
        if src.len() < DOIP_HEADER_LEN + DOIP_DIAG_COMMON_LEN {
            Err(DecodeError::TooShort)
        } else {
            match DoipHeader::spec_from_bytes(src) {
                Err(e) => Err(e),
                Ok(header) => if src.len() < DOIP_HEADER_LEN + header.payload_length {
                    Err(DecodeError::TooShort)
                } else {
                    DiagnosticMessage::spec_from_bytes(
                        src.subrange(
                            DOIP_HEADER_LEN as int,
                            DOIP_HEADER_LEN + header.payload_length,
                        ),
                    )
                },
            }
        }
    }

    /// Appends the payload's bytes to `dst`. Never fails.
    pub fn to_bytes(&self, item: DiagnosticMessage, dst: &mut Vec<u8>) -> (r: Result<
        (),
        EncodeError,
    >)
        ensures
            r is Ok,
            final(dst)@ == old(dst)@ + DiagnosticMessage::spec_to_bytes(item@),
    {
        let bytes: Vec<u8> = item.to_bytes();
        dst.extend_from_slice(bytes.as_slice());
        assert(dst@ =~= old(dst)@ + DiagnosticMessage::spec_to_bytes(item@));
        Ok(())
    }

    /// Reads the payload of the frame that `src` opens with. The header is
    /// read for the payload length. The result is never `Ok(None)`.
    pub fn decode_from_bytes(&self, src: &[u8]) -> (r: Result<Option<Payload>, DecodeError>)
        ensures
            match Self::spec_decode(src@) {
                Ok(value) => r matches Ok(Some(payload)) && payload@
                    == PayloadView::DiagnosticMessage(value),
                Err(e) => r == Err::<Option<Payload>, DecodeError>(e),
            },
    {
        if src.len() < DOIP_HEADER_LEN + DOIP_DIAG_COMMON_LEN {
            return Err(DecodeError::TooShort);
        }
        let header = match (HeaderCodec {  }).decode(src) {
            Ok(Some(header)) => header,
            Ok(None) => {
                return Err(DecodeError::TooShort);
            },
            Err(e) => {
                return Err(e);
            },
        };
        let payload_length: usize = header.payload_length as usize;
        if src.len() - DOIP_HEADER_LEN < payload_length {
            return Err(DecodeError::TooShort);
        }
        match DiagnosticMessage::from_bytes(
            slice_subrange(src, DOIP_HEADER_LEN, DOIP_HEADER_LEN + payload_length),
        ) {
            Ok(item) => Ok(Some(Payload::DiagnosticMessage(item))),
            Err(e) => Err(e),
        }
    }
}

} // verus!
