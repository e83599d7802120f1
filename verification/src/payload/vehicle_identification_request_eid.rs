//! Vehicle identification request by entity identifier.

use vstd::prelude::*;
use vstd::slice::slice_subrange;

use crate::definitions::{DOIP_COMMON_EID_LEN, DOIP_HEADER_LEN};
use crate::error::{DecodeError, EncodeError};
use crate::header::payload_type::PayloadType;
use crate::payload::Payload;
use crate::payload::PayloadView;
use crate::payload::doip_payload::DoipPayload;

verus! {

/// Asks the vehicle with the given entity identifier to announce itself.
#[derive(Clone, Copy, Debug, PartialEq, Eq)]
pub struct VehicleIdentificationRequestEid {
    /// The entity identifier.
    pub eid: [u8; 6],
}

impl View for VehicleIdentificationRequestEid {
    type V = VehicleIdentificationRequestEid;

    open spec fn view(&self) -> VehicleIdentificationRequestEid {
        *self
    }
}

impl DoipPayload for VehicleIdentificationRequestEid {
    open spec fn spec_payload_type() -> PayloadType {
        PayloadType::VehicleIdentificationRequestEid
    }

    open spec fn spec_to_bytes(value: VehicleIdentificationRequestEid) -> Seq<u8> {
        value.eid@
    }

    open spec fn spec_from_bytes(bytes: Seq<u8>) -> Result<
        VehicleIdentificationRequestEid,
        DecodeError,
    > {
        if bytes.len() < DOIP_COMMON_EID_LEN {
            Err(DecodeError::TooShort)
        } else {
            Ok(
                VehicleIdentificationRequestEid {
                    eid: [bytes[0], bytes[1], bytes[2], bytes[3], bytes[4], bytes[5]],
                },
            )
        }
    }

    fn payload_type(&self) -> (kind: PayloadType) {
        PayloadType::VehicleIdentificationRequestEid
    }

    fn to_bytes(&self) -> (bytes: Vec<u8>) {
        let mut bytes: Vec<u8> = Vec::new();
        bytes.extend_from_slice(&self.eid);
        assert(bytes@ =~= Self::spec_to_bytes(self@));
        bytes
    }

    fn from_bytes(bytes: &[u8]) -> (r: Result<VehicleIdentificationRequestEid, DecodeError>) {
        if bytes.len() < DOIP_COMMON_EID_LEN {
            return Err(DecodeError::TooShort);
        }
        let eid: [u8; 6] = [bytes[0], bytes[1], bytes[2], bytes[3], bytes[4], bytes[5]];
        Ok(VehicleIdentificationRequestEid { eid })
    }

    proof fn lemma_round_trip(value: VehicleIdentificationRequestEid) {
        let decoded = Self::spec_from_bytes(Self::spec_to_bytes(value))->Ok_0;
        assert(decoded.eid =~= value.eid);
    }
}

/// Writes and reads vehicle identification requests by entity identifier.
#[derive(Clone, Copy, Debug)]
pub struct VehicleIdentificationRequestEidCodec;

impl VehicleIdentificationRequestEidCodec {
    /// The payload of a frame, header included, that holds nothing but the
    /// frame: what follows the header is read as the payload.
    pub open spec fn spec_decode(src: Seq<u8>) -> Result<
        VehicleIdentificationRequestEid,
        DecodeError,
    > {
        if src.len() < DOIP_HEADER_LEN + DOIP_COMMON_EID_LEN {
            Err(DecodeError::TooShort)
        } else {
            VehicleIdentificationRequestEid::spec_from_bytes(src.skip(DOIP_HEADER_LEN as int))
        }
    }

    /// Appends the payload's bytes to `dst`. Never fails.
    pub fn to_bytes(&self, item: VehicleIdentificationRequestEid, dst: &mut Vec<u8>) -> (r: Result<
        (),
        EncodeError,
    >)
        ensures
            r is Ok,
            final(dst)@ == old(dst)@ + VehicleIdentificationRequestEid::spec_to_bytes(item@),
    {
        let bytes: Vec<u8> = item.to_bytes();
        dst.extend_from_slice(bytes.as_slice());
        assert(dst@ =~= old(dst)@ + VehicleIdentificationRequestEid::spec_to_bytes(item@));
        Ok(())
    }

    /// Reads the payload of the frame that `src` holds, header included. The
    /// header itself is not read. The result is never `Ok(None)`.
    pub fn decode_from_bytes(&self, src: &[u8]) -> (r: Result<Option<Payload>, DecodeError>)
        ensures
            match Self::spec_decode(src@) {
                Ok(value) => r matches Ok(Some(payload)) && payload@
                    == PayloadView::VehicleIdentificationRequestEid(value),
                Err(e) => r == Err::<Option<Payload>, DecodeError>(e),
            },
    {
        if src.len() < DOIP_HEADER_LEN + DOIP_COMMON_EID_LEN {
            return Err(DecodeError::TooShort);
        }
        match VehicleIdentificationRequestEid::from_bytes(
            slice_subrange(src, DOIP_HEADER_LEN, src.len()),
        ) {
            Ok(item) => Ok(Some(Payload::VehicleIdentificationRequestEid(item))),
            Err(e) => Err(e),
        }
    }
}

} // verus!
