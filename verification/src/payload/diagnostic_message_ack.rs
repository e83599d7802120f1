//! Diagnostic message acknowledgement.

use vstd::prelude::*;
use vstd::slice::slice_subrange;

use crate::definitions::{DOIP_DIAG_MESSAGE_ACK_LEN, DOIP_HEADER_LEN};
use crate::error::{DecodeError, EncodeError};
use crate::header::payload_type::PayloadType;
use crate::payload::Payload;
use crate::payload::PayloadView;
use crate::payload::diagnostic_ack::DiagnosticAckCode;
use crate::payload::doip_payload::DoipPayload;

verus! {

/// Confirms that a diagnostic message was routed.
#[derive(Clone, Copy, Debug, PartialEq, Eq)]
pub struct DiagnosticMessageAck {
    /// Address of the sender.
    pub source_address: [u8; 2],
    /// Address of the receiver.
    pub target_address: [u8; 2],
    /// The acknowledgement.
    pub ack_code: DiagnosticAckCode,
}

impl View for DiagnosticMessageAck {
    type V = DiagnosticMessageAck;

    open spec fn view(&self) -> DiagnosticMessageAck {
        *self
    }
}

impl DoipPayload for DiagnosticMessageAck {
    open spec fn spec_payload_type() -> PayloadType {
        PayloadType::DiagnosticMessageAck
    }

    open spec fn spec_to_bytes(value: DiagnosticMessageAck) -> Seq<u8> {
        value.source_address@ + value.target_address@ + seq![value.ack_code.code()]
    }

    open spec fn spec_from_bytes(bytes: Seq<u8>) -> Result<DiagnosticMessageAck, DecodeError> {
        if bytes.len() < DOIP_DIAG_MESSAGE_ACK_LEN {
            Err(DecodeError::TooShort)
        } else {
            match DiagnosticAckCode::from_code(bytes[4]) {
                None => Err(DecodeError::InvalidDiagnosticAckCode),
                Some(ack_code) => Ok(
                    DiagnosticMessageAck {
                        source_address: [bytes[0], bytes[1]],
                        target_address: [bytes[2], bytes[3]],
                        ack_code,
                    },
                ),
            }
        }
    }

    fn payload_type(&self) -> (kind: PayloadType) {
        PayloadType::DiagnosticMessageAck
    }

    fn to_bytes(&self) -> (bytes: Vec<u8>) {
        let mut bytes: Vec<u8> = Vec::new();
        bytes.extend_from_slice(&self.source_address);
        bytes.extend_from_slice(&self.target_address);
        let ack_code_bytes: Vec<u8> = self.ack_code.to_bytes();
        bytes.extend_from_slice(ack_code_bytes.as_slice());
        assert(bytes@ =~= Self::spec_to_bytes(self@));
        bytes
    }

    fn from_bytes(bytes: &[u8]) -> (r: Result<DiagnosticMessageAck, DecodeError>) {
        if bytes.len() < DOIP_DIAG_MESSAGE_ACK_LEN {
            return Err(DecodeError::TooShort);
        }
        let source_address: [u8; 2] = [bytes[0], bytes[1]];
        let target_address: [u8; 2] = [bytes[2], bytes[3]];
        let ack_code = match DiagnosticAckCode::from_bytes(slice_subrange(bytes, 4, 5)) {
            Some(value) => value,
            None => {
                return Err(DecodeError::InvalidDiagnosticAckCode);
            },
        };
        Ok(DiagnosticMessageAck { source_address, target_address, ack_code })
    }

    proof fn lemma_round_trip(value: DiagnosticMessageAck) {
        DiagnosticAckCode::lemma_code_bijection(value.ack_code, 0);
        let decoded = Self::spec_from_bytes(Self::spec_to_bytes(value))->Ok_0;
        assert(decoded.source_address =~= value.source_address);
        assert(decoded.target_address =~= value.target_address);
    }
}

/// Writes and reads diagnostic message acknowledgements.
#[derive(Clone, Copy, Debug)]
pub struct DiagnosticMessageAckCodec;

impl DiagnosticMessageAckCodec {
    /// The payload of a frame, header included, that holds nothing but the
    /// frame: what follows the header is read as the payload.
    pub open spec fn spec_decode(src: Seq<u8>) -> Result<DiagnosticMessageAck, DecodeError> {
        if src.len() < DOIP_HEADER_LEN + DOIP_DIAG_MESSAGE_ACK_LEN {
            Err(DecodeError::TooShort)
        } else {
            DiagnosticMessageAck::spec_from_bytes(src.skip(DOIP_HEADER_LEN as int))
        }
    }

    /// Appends the payload's bytes to `dst`. Never fails.
    pub fn to_bytes(&self, item: DiagnosticMessageAck, dst: &mut Vec<u8>) -> (r: Result<
        (),
        EncodeError,
    >)
        ensures
            r is Ok,
            final(dst)@ == old(dst)@ + DiagnosticMessageAck::spec_to_bytes(item@),
    {
        let bytes: Vec<u8> = item.to_bytes();
        dst.extend_from_slice(bytes.as_slice());
        assert(dst@ =~= old(dst)@ + DiagnosticMessageAck::spec_to_bytes(item@));
        Ok(())
    }

    /// Reads the payload of the frame that `src` holds, header included. The
    /// header itself is not read. The result is never `Ok(None)`.
    pub fn decode_from_bytes(&self, src: &[u8]) -> (r: Result<Option<Payload>, DecodeError>)
        ensures
            match Self::spec_decode(src@) {
                Ok(value) => r matches Ok(Some(payload)) && payload@
                    == PayloadView::DiagnosticMessageAck(value),
                Err(e) => r == Err::<Option<Payload>, DecodeError>(e),
            },
    {
        if src.len() < DOIP_HEADER_LEN + DOIP_DIAG_MESSAGE_ACK_LEN {
            return Err(DecodeError::TooShort);
        }
        match DiagnosticMessageAck::from_bytes(slice_subrange(src, DOIP_HEADER_LEN, src.len())) {
            Ok(item) => Ok(Some(Payload::DiagnosticMessageAck(item))),
            Err(e) => Err(e),
        }
    }
}

} // verus!
