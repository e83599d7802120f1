//! Vehicle identification request by vehicle identification number.

use vstd::prelude::*;
use vstd::slice::slice_subrange;

use crate::definitions::{DOIP_COMMON_VIN_LEN, DOIP_HEADER_LEN};
use crate::error::{DecodeError, EncodeError};
use crate::header::payload_type::PayloadType;
use crate::payload::Payload;
use crate::payload::PayloadView;
use crate::payload::doip_payload::DoipPayload;

verus! {

/// Asks the vehicle with the given identification number to announce itself.
#[derive(Clone, Copy, Debug, PartialEq, Eq)]
pub struct VehicleIdentificationRequestVin {
    /// The vehicle identification number.
    pub vin: [u8; 17],
}

impl View for VehicleIdentificationRequestVin {
    type V = VehicleIdentificationRequestVin;

    open spec fn view(&self) -> VehicleIdentificationRequestVin {
        *self
    }
}

impl DoipPayload for VehicleIdentificationRequestVin {
    open spec fn spec_payload_type() -> PayloadType {
        PayloadType::VehicleIdentificationRequestVin
    }

    open spec fn spec_to_bytes(value: VehicleIdentificationRequestVin) -> Seq<u8> {
        value.vin@
    }

    open spec fn spec_from_bytes(bytes: Seq<u8>) -> Result<
        VehicleIdentificationRequestVin,
        DecodeError,
    > {
        if bytes.len() < DOIP_COMMON_VIN_LEN {
            Err(DecodeError::TooShort)
        } else {
            Ok(
                VehicleIdentificationRequestVin {
                    vin: [
                        bytes[0],
                        bytes[1],
                        bytes[2],
                        bytes[3],
                        bytes[4],
                        bytes[5],
                        bytes[6],
                        bytes[7],
                        bytes[8],
                        bytes[9],
                        bytes[10],
                        bytes[11],
                        bytes[12],
                        bytes[13],
                        bytes[14],
                        bytes[15],
                        bytes[16],
                    ],
                },
            )
        }
    }

    fn payload_type(&self) -> (kind: PayloadType) {
        PayloadType::VehicleIdentificationRequestVin
    }

    fn to_bytes(&self) -> (bytes: Vec<u8>) {
        let mut bytes: Vec<u8> = Vec::new();
        bytes.extend_from_slice(&self.vin);
        assert(bytes@ =~= Self::spec_to_bytes(self@));
        bytes
    }

    fn from_bytes(bytes: &[u8]) -> (r: Result<VehicleIdentificationRequestVin, DecodeError>) {
        if bytes.len() < DOIP_COMMON_VIN_LEN {
            return Err(DecodeError::TooShort);
        }
        let vin: [u8; 17] = [
            bytes[0],
            bytes[1],
            bytes[2],
            bytes[3],
            bytes[4],
            bytes[5],
            bytes[6],
            bytes[7],
            bytes[8],
            bytes[9],
            bytes[10],
            bytes[11],
            bytes[12],
            bytes[13],
            bytes[14],
            bytes[15],
            bytes[16],
        ];
        Ok(VehicleIdentificationRequestVin { vin })
    }

    proof fn lemma_round_trip(value: VehicleIdentificationRequestVin) {
        let decoded = Self::spec_from_bytes(Self::spec_to_bytes(value))->Ok_0;
        assert(decoded.vin =~= value.vin);
    }
}

/// Writes and reads vehicle identification requests by identification number.
#[derive(Clone, Copy, Debug)]
pub struct VehicleIdentificationRequestVinCodec;

impl VehicleIdentificationRequestVinCodec {
    /// The payload of a frame, header included, that holds nothing but the
    /// frame: what follows the header is read as the payload.
    pub open spec fn spec_decode(src: Seq<u8>) -> Result<
        VehicleIdentificationRequestVin,
        DecodeError,
    > {
        if src.len() < DOIP_HEADER_LEN + DOIP_COMMON_VIN_LEN {
            Err(DecodeError::TooShort)
        } else {
            VehicleIdentificationRequestVin::spec_from_bytes(src.skip(DOIP_HEADER_LEN as int))
        }
    }

    /// Appends the payload's bytes to `dst`. Never fails.
    pub fn to_bytes(&self, item: VehicleIdentificationRequestVin, dst: &mut Vec<u8>) -> (r: Result<
        (),
        EncodeError,
    >)
        ensures
            r is Ok,
            final(dst)@ == old(dst)@ + VehicleIdentificationRequestVin::spec_to_bytes(item@),
    {
        let bytes: Vec<u8> = item.to_bytes();
        dst.extend_from_slice(bytes.as_slice());
        assert(dst@ =~= old(dst)@ + VehicleIdentificationRequestVin::spec_to_bytes(item@));
        Ok(())
    }

    /// Reads the payload of the frame that `src` holds, header included. The
    /// header itself is not read. The result is never `Ok(None)`.
    pub fn decode_from_bytes(&self, src: &[u8]) -> (r: Result<Option<Payload>, DecodeError>)
        ensures
            match Self::spec_decode(src@) {
                Ok(value) => r matches Ok(Some(payload)) && payload@
                    == PayloadView::VehicleIdentificationRequestVin(value),
                Err(e) => r == Err::<Option<Payload>, DecodeError>(e),
            },
    {
        if src.len() < DOIP_HEADER_LEN + DOIP_COMMON_VIN_LEN {
            return Err(DecodeError::TooShort);
        }
        match VehicleIdentificationRequestVin::from_bytes(
            slice_subrange(src, DOIP_HEADER_LEN, src.len()),
        ) {
            Ok(item) => Ok(Some(Payload::VehicleIdentificationRequestVin(item))),
            Err(e) => Err(e),
        }
    }
}

} // verus!
