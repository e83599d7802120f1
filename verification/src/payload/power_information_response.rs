//! Diagnostic power mode information response.

use vstd::prelude::*;
use vstd::slice::slice_subrange;

use crate::definitions::{DOIP_HEADER_LEN, DOIP_POWER_MODE_LEN};
use crate::error::{DecodeError, EncodeError};
use crate::header::payload_type::PayloadType;
use crate::payload::Payload;
use crate::payload::PayloadView;
use crate::payload::doip_payload::DoipPayload;
use crate::payload::power_mode::PowerMode;

verus! {

/// Answers a power information request.
#[derive(Clone, Copy, Debug, PartialEq, Eq)]
pub struct PowerInformationResponse {
    /// The power mode.
    pub power_mode: PowerMode,
}

impl View for PowerInformationResponse {
    type V = PowerInformationResponse;

    open spec fn view(&self) -> PowerInformationResponse {
        *self
    }
}

impl DoipPayload for PowerInformationResponse {
    open spec fn spec_payload_type() -> PayloadType {
        PayloadType::PowerInformationResponse
    }

    open spec fn spec_to_bytes(value: PowerInformationResponse) -> Seq<u8> {
        seq![value.power_mode.code()]
    }

    open spec fn spec_from_bytes(bytes: Seq<u8>) -> Result<PowerInformationResponse, DecodeError> {
        if bytes.len() < DOIP_POWER_MODE_LEN {
            Err(DecodeError::TooShort)
        } else {
            match PowerMode::from_code(bytes[0]) {
                None => Err(DecodeError::InvalidPowerMode),
                Some(power_mode) => Ok(
                    PowerInformationResponse {
                        power_mode,
                    },
                ),
            }
        }
    }

    fn payload_type(&self) -> (kind: PayloadType) {
        PayloadType::PowerInformationResponse
    }

    fn to_bytes(&self) -> (bytes: Vec<u8>) {
        let mut bytes: Vec<u8> = Vec::new();
        let power_mode_bytes: Vec<u8> = self.power_mode.to_bytes();
        bytes.extend_from_slice(power_mode_bytes.as_slice());
        assert(bytes@ =~= Self::spec_to_bytes(self@));
        bytes
    }

    fn from_bytes(bytes: &[u8]) -> (r: Result<PowerInformationResponse, DecodeError>) {
        if bytes.len() < DOIP_POWER_MODE_LEN {
            return Err(DecodeError::TooShort);
        }
        let power_mode = match PowerMode::from_bytes(slice_subrange(bytes, 0, 1)) {
            Some(value) => value,
            None => {
                return Err(DecodeError::InvalidPowerMode);
            },
        };
        Ok(PowerInformationResponse { power_mode })
    }

    proof fn lemma_round_trip(value: PowerInformationResponse) {
        PowerMode::lemma_code_bijection(value.power_mode, 0);
    }
}

/// Writes and reads power information responses.
#[derive(Clone, Copy, Debug)]
pub struct PowerInformationResponseCodec;

impl PowerInformationResponseCodec {
    /// The payload of a frame, header included, that holds nothing but the
    /// frame: what follows the header is read as the payload.
    pub open spec fn spec_decode(src: Seq<u8>) -> Result<PowerInformationResponse, DecodeError> {
        if src.len() < DOIP_HEADER_LEN + DOIP_POWER_MODE_LEN {
            Err(DecodeError::TooShort)
        } else {
            PowerInformationResponse::spec_from_bytes(src.skip(DOIP_HEADER_LEN as int))
        }
    }

    /// Appends the payload's bytes to `dst`. Never fails.
    pub fn to_bytes(&self, item: PowerInformationResponse, dst: &mut Vec<u8>) -> (r: Result<
        (),
        EncodeError,
    >)
        ensures
            r is Ok,
            final(dst)@ == old(dst)@ + PowerInformationResponse::spec_to_bytes(item@),
    {
        let bytes: Vec<u8> = item.to_bytes();
        dst.extend_from_slice(bytes.as_slice());
        assert(dst@ =~= old(dst)@ + PowerInformationResponse::spec_to_bytes(item@));
        Ok(())
    }

    /// Reads the payload of the frame that `src` holds, header included. The
    /// header itself is not read. The result is never `Ok(None)`.
    pub fn decode_from_bytes(&self, src: &[u8]) -> (r: Result<Option<Payload>, DecodeError>)
        ensures
            match Self::spec_decode(src@) {
                Ok(value) => r matches Ok(Some(payload)) && payload@
                    == PayloadView::PowerInformationResponse(value),
                Err(e) => r == Err::<Option<Payload>, DecodeError>(e),
            },
    {
        if src.len() < DOIP_HEADER_LEN + DOIP_POWER_MODE_LEN {
            return Err(DecodeError::TooShort);
        }
        match PowerInformationResponse::from_bytes(
            slice_subrange(src, DOIP_HEADER_LEN, src.len()),
        ) {
            Ok(item) => Ok(Some(Payload::PowerInformationResponse(item))),
            Err(e) => Err(e),
        }
    }
}

} // verus!
