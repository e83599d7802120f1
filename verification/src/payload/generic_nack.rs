//! Generic negative acknowledgement.

use vstd::prelude::*;
use vstd::slice::slice_subrange;

use crate::definitions::{DOIP_GENERIC_NACK_LEN, DOIP_HEADER_LEN};
use crate::error::{DecodeError, EncodeError};
use crate::header::payload_type::PayloadType;
use crate::payload::Payload;
use crate::payload::PayloadView;
use crate::payload::doip_payload::DoipPayload;
use crate::payload::nack_codes::NackCodes;

verus! {

/// Tells the sender that its frame was rejected, and why.
#[derive(Clone, Copy, Debug, PartialEq, Eq)]
pub struct GenericNack {
    /// The reason.
    pub nack_code: NackCodes,
}

impl View for GenericNack {
    type V = GenericNack;

    open spec fn view(&self) -> GenericNack {
        *self
    }
}

impl DoipPayload for GenericNack {
    open spec fn spec_payload_type() -> PayloadType {
        PayloadType::GenericNack
    }

    open spec fn spec_to_bytes(value: GenericNack) -> Seq<u8> {
        seq![value.nack_code.code()]
    }

    open spec fn spec_from_bytes(bytes: Seq<u8>) -> Result<GenericNack, DecodeError> {
        if bytes.len() < DOIP_GENERIC_NACK_LEN {
            Err(DecodeError::TooShort)
        } else {
            match NackCodes::from_code(bytes[0]) {
                None => Err(DecodeError::InvalidNackCode),
                Some(nack_code) => Ok(
                    GenericNack {
                        nack_code,
                    },
                ),
            }
        }
    }

    fn payload_type(&self) -> (kind: PayloadType) {
        PayloadType::GenericNack
    }

    fn to_bytes(&self) -> (bytes: Vec<u8>) {
        let mut bytes: Vec<u8> = Vec::new();
        let nack_code_bytes: Vec<u8> = self.nack_code.to_bytes();
        bytes.extend_from_slice(nack_code_bytes.as_slice());
        assert(bytes@ =~= Self::spec_to_bytes(self@));
        bytes
    }

    fn from_bytes(bytes: &[u8]) -> (r: Result<GenericNack, DecodeError>) {
        if bytes.len() < DOIP_GENERIC_NACK_LEN {
            return Err(DecodeError::TooShort);
        }
        let nack_code = match NackCodes::from_bytes(slice_subrange(bytes, 0, 1)) {
            Some(value) => value,
            None => {
                return Err(DecodeError::InvalidNackCode);
            },
        };
        Ok(GenericNack { nack_code })
    }

    proof fn lemma_round_trip(value: GenericNack) {
        NackCodes::lemma_code_bijection(value.nack_code, 0);
    }
}

/// Writes and reads generic negative acknowledgements.
#[derive(Clone, Copy, Debug)]
pub struct GenericNackCodec;

impl GenericNackCodec {
    /// The payload of a frame, header included, that holds nothing but the
    /// frame: what follows the header is read as the payload.
    pub open spec fn spec_decode(src: Seq<u8>) -> Result<GenericNack, DecodeError> {
        if src.len() < DOIP_HEADER_LEN + DOIP_GENERIC_NACK_LEN {
            Err(DecodeError::TooShort)
        } else {
            GenericNack::spec_from_bytes(src.skip(DOIP_HEADER_LEN as int))
        }
    }

    /// Appends the payload's bytes to `dst`. Never fails.
    pub fn to_bytes(&self, item: GenericNack, dst: &mut Vec<u8>) -> (r: Result<(), EncodeError>)
        ensures
            r is Ok,
            final(dst)@ == old(dst)@ + GenericNack::spec_to_bytes(item@),
    {
        let bytes: Vec<u8> = item.to_bytes();
        dst.extend_from_slice(bytes.as_slice());
        assert(dst@ =~= old(dst)@ + GenericNack::spec_to_bytes(item@));
        Ok(())
    }

    /// Reads the payload of the frame that `src` holds, header included. The
    /// header itself is not read. The result is never `Ok(None)`.
    pub fn decode_from_bytes(&self, src: &[u8]) -> (r: Result<Option<Payload>, DecodeError>)
        ensures
            match Self::spec_decode(src@) {
                Ok(value) => r matches Ok(Some(payload)) && payload@
                    == PayloadView::GenericNack(value),
                Err(e) => r == Err::<Option<Payload>, DecodeError>(e),
            },
    {
        if src.len() < DOIP_HEADER_LEN + DOIP_GENERIC_NACK_LEN {
            return Err(DecodeError::TooShort);
        }
        match GenericNack::from_bytes(slice_subrange(src, DOIP_HEADER_LEN, src.len())) {
            Ok(item) => Ok(Some(Payload::GenericNack(item))),
            Err(e) => Err(e),
        }
    }
}

} // verus!
