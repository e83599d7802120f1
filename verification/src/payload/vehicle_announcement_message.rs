//! Vehicle announcement, also the vehicle identification response.

use vstd::prelude::*;
use vstd::slice::slice_subrange;

use crate::definitions::{
    DOIP_HEADER_LEN, DOIP_VEHICLE_ANNOUNCEMENT_LEN_LONG, DOIP_VEHICLE_ANNOUNCEMENT_LEN_SHORT,
};
use crate::error::{DecodeError, EncodeError};
use crate::header::doip_header::{DoipHeader, HeaderCodec};
use crate::header::payload_type::PayloadType;
use crate::payload::action_code::ActionCode;
use crate::payload::doip_payload::DoipPayload;
use crate::payload::sync_status::SyncStatus;
use crate::payload::Payload;
use crate::payload::PayloadView;

verus! {

/// Announces a vehicle. The synchronisation status at its end is optional, so
/// the payload has one of two lengths.
#[derive(Clone, Copy, Debug, PartialEq, Eq)]
pub struct VehicleAnnouncementMessage {
    /// The vehicle identification number.
    pub vin: [u8; 17],
    /// Address of the entity that announces.
    pub logical_address: [u8; 2],
    /// The entity identifier.
    pub eid: [u8; 6],
    /// The group identifier.
    pub gid: [u8; 6],
    /// What the tester has to do next.
    pub further_action: ActionCode,
    /// Whether the identifiers are synchronised, where the entity says so.
    pub vin_gid_sync: Option<SyncStatus>,
}

impl View for VehicleAnnouncementMessage {
    type V = VehicleAnnouncementMessage;

    open spec fn view(&self) -> VehicleAnnouncementMessage {
        *self
    }
}

impl DoipPayload for VehicleAnnouncementMessage {
    open spec fn spec_payload_type() -> PayloadType {
        PayloadType::VehicleAnnouncementMessage
    }

    open spec fn spec_to_bytes(value: VehicleAnnouncementMessage) -> Seq<u8> {
        value.vin@ + value.logical_address@ + value.eid@ + value.gid@
            + seq![value.further_action.code()] + match value.vin_gid_sync {
            Some(sync_status) => seq![sync_status.code()],
            None => Seq::empty(),
        }
    }

    /// The synchronisation status is read exactly where the payload has the
    /// long length; a payload of any other sufficient length has none.
    open spec fn spec_from_bytes(bytes: Seq<u8>) -> Result<
        VehicleAnnouncementMessage,
        DecodeError,
    > {
        if bytes.len() < DOIP_VEHICLE_ANNOUNCEMENT_LEN_SHORT {
            Err(DecodeError::TooShort)
        } else {
            match ActionCode::from_code(bytes[31]) {
                None => Err(DecodeError::InvalidActionCode),
                Some(further_action) => {
                    let vin: [u8; 17] = [
                        bytes[0],
                        bytes[1],
                        bytes[2],
                        bytes[3],
                        bytes[4],
                        bytes[5],
                        bytes[6],
                        bytes[7],
                        bytes[8],
                        bytes[9],
                        bytes[10],
                        bytes[11],
                        bytes[12],
                        bytes[13],
                        bytes[14],
                        bytes[15],
                        bytes[16],
                    ];
                    let logical_address: [u8; 2] = [bytes[17], bytes[18]];
                    let eid: [u8; 6] = [
                        bytes[19],
                        bytes[20],
                        bytes[21],
                        bytes[22],
                        bytes[23],
                        bytes[24],
                    ];
                    let gid: [u8; 6] = [
                        bytes[25],
                        bytes[26],
                        bytes[27],
                        bytes[28],
                        bytes[29],
                        bytes[30],
                    ];
                    if bytes.len() == DOIP_VEHICLE_ANNOUNCEMENT_LEN_LONG {
                        match SyncStatus::from_code(bytes[32]) {
                            None => Err(DecodeError::InvalidSyncStatus),
                            Some(sync_status) => Ok(
                                VehicleAnnouncementMessage {
                                    vin,
                                    logical_address,
                                    eid,
                                    gid,
                                    further_action,
                                    vin_gid_sync: Some(sync_status),
                                },
                            ),
                        }
                    } else {
                        Ok(
                            VehicleAnnouncementMessage {
                                vin,
                                logical_address,
                                eid,
                                gid,
                                further_action,
                                vin_gid_sync: None,
                            },
                        )
                    }
                },
            }
        }
    }

    fn payload_type(&self) -> (kind: PayloadType) {
        PayloadType::VehicleAnnouncementMessage
    }

    fn to_bytes(&self) -> (bytes: Vec<u8>) {
        let mut bytes: Vec<u8> = Vec::new();
        bytes.extend_from_slice(&self.vin);
        bytes.extend_from_slice(&self.logical_address);
        bytes.extend_from_slice(&self.eid);
        bytes.extend_from_slice(&self.gid);
        let further_action_bytes: Vec<u8> = self.further_action.to_bytes();
        bytes.extend_from_slice(further_action_bytes.as_slice());
        if let Some(sync_status) = self.vin_gid_sync {
            let sync_status_bytes: Vec<u8> = sync_status.to_bytes();
            bytes.extend_from_slice(sync_status_bytes.as_slice());
        }
        assert(bytes@ =~= Self::spec_to_bytes(self@));
        bytes
    }

    fn from_bytes(bytes: &[u8]) -> (r: Result<VehicleAnnouncementMessage, DecodeError>) {
        if bytes.len() < DOIP_VEHICLE_ANNOUNCEMENT_LEN_SHORT {
            return Err(DecodeError::TooShort);
        }
        let vin: [u8; 17] = [
            bytes[0],
            bytes[1],
            bytes[2],
            bytes[3],
            bytes[4],
            bytes[5],
            bytes[6],
            bytes[7],
            bytes[8],
            bytes[9],
            bytes[10],
            bytes[11],
            bytes[12],
            bytes[13],
            bytes[14],
            bytes[15],
            bytes[16],
        ];
        let logical_address: [u8; 2] = [bytes[17], bytes[18]];
        let eid: [u8; 6] = [bytes[19], bytes[20], bytes[21], bytes[22], bytes[23], bytes[24]];
        let gid: [u8; 6] = [bytes[25], bytes[26], bytes[27], bytes[28], bytes[29], bytes[30]];
        let further_action = match ActionCode::from_bytes(slice_subrange(bytes, 31, 32)) {
            Some(value) => value,
            None => {
                return Err(DecodeError::InvalidActionCode);
            },
        };
        let vin_gid_sync = if bytes.len() == DOIP_VEHICLE_ANNOUNCEMENT_LEN_LONG {
            match SyncStatus::from_bytes(slice_subrange(bytes, 32, 33)) {
                Some(value) => Some(value),
                None => {
                    return Err(DecodeError::InvalidSyncStatus);
                },
            }
        } else {
            None
        };
        Ok(
            VehicleAnnouncementMessage {
                vin,
                logical_address,
                eid,
                gid,
                further_action,
                vin_gid_sync,
            },
        )
    }

    proof fn lemma_round_trip(value: VehicleAnnouncementMessage) {
        ActionCode::lemma_code_bijection(value.further_action, 0);
        if let Some(sync_status) = value.vin_gid_sync {
            SyncStatus::lemma_code_bijection(sync_status, 0);
        }
        let bytes = Self::spec_to_bytes(value);
        assert(bytes.len() == if value.vin_gid_sync is Some {
            33int
        } else {
            32int
        });
        let decoded = Self::spec_from_bytes(bytes)->Ok_0;
        assert(decoded.vin =~= value.vin);
        assert(decoded.logical_address =~= value.logical_address);
        assert(decoded.eid =~= value.eid);
        assert(decoded.gid =~= value.gid);
    }
}

/// Writes and reads vehicle announcements.
#[derive(Clone, Copy, Debug)]
pub struct VehicleAnnouncementMessageCodec;

impl VehicleAnnouncementMessageCodec {
    /// The payload of the frame that `src` opens with. The header says how
    /// long the payload is, and with that whether it ends in a
    /// synchronisation status; what follows the frame is not read.
    pub open spec fn spec_decode(src: Seq<u8>) -> Result<
        VehicleAnnouncementMessage,
        DecodeError,
    > {
        if src.len() < DOIP_HEADER_LEN + DOIP_VEHICLE_ANNOUNCEMENT_LEN_SHORT {
            Err(DecodeError::TooShort)
        } else {
            match DoipHeader::spec_from_bytes(src) {
                Err(e) => Err(e),
                Ok(header) => if src.len() < DOIP_HEADER_LEN + header.payload_length {
                    Err(DecodeError::TooShort)
                } else {
                    VehicleAnnouncementMessage::spec_from_bytes(
                        src.subrange(
                            DOIP_HEADER_LEN as int,
                            DOIP_HEADER_LEN + header.payload_length,
                        ),
                    )
                },
            }
        }
    }

    /// Appends the payload's bytes to `dst`. Never fails.
    pub fn to_bytes(&self, item: VehicleAnnouncementMessage, dst: &mut Vec<u8>) -> (r: Result<
        (),
        EncodeError,
    >)
        ensures
            r is Ok,
            final(dst)@ == old(dst)@ + VehicleAnnouncementMessage::spec_to_bytes(item@),
    {
        let bytes: Vec<u8> = item.to_bytes();
        dst.extend_from_slice(bytes.as_slice());
        assert(dst@ =~= old(dst)@ + VehicleAnnouncementMessage::spec_to_bytes(item@));
        Ok(())
    }

    /// Reads the payload of the frame that `src` opens with. The header is
    /// read for the payload length. The result is never `Ok(None)`.
    pub fn decode_from_bytes(&self, src: &[u8]) -> (r: Result<Option<Payload>, DecodeError>)
        ensures
            match Self::spec_decode(src@) {
                Ok(value) => r matches Ok(Some(payload)) && payload@
                    == PayloadView::VehicleAnnouncementMessage(value),
                Err(e) => r == Err::<Option<Payload>, DecodeError>(e),
            },
    {
        if src.len() < DOIP_HEADER_LEN + DOIP_VEHICLE_ANNOUNCEMENT_LEN_SHORT {
            return Err(DecodeError::TooShort);
        }
        let header = match (HeaderCodec {  }).decode(src) {
            Ok(Some(header)) => header,
            Ok(None) => {
                return Err(DecodeError::TooShort);
            },
            Err(e) => {
                return Err(e);
            },
        };
        let payload_length: usize = header.payload_length as usize;
        if src.len() - DOIP_HEADER_LEN < payload_length {
            return Err(DecodeError::TooShort);
        }
        match VehicleAnnouncementMessage::from_bytes(
            slice_subrange(src, DOIP_HEADER_LEN, DOIP_HEADER_LEN + payload_length),
        ) {
            Ok(item) => Ok(Some(Payload::VehicleAnnouncementMessage(item))),
            Err(e) => Err(e),
        }
    }
}

} // verus!
