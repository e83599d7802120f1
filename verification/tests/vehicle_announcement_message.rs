use doip_codec::codec::DoipCodec;
use doip_codec::error::DecodeError;
use doip_codec::fixed_buffer::FixedBuffer;
use doip_codec::header::doip_header::DoipHeader;
use doip_codec::header::payload_type::PayloadType;
use doip_codec::header::version::ProtocolVersion;
use doip_codec::message::DoipMessage;
use doip_codec::payload::Payload;
use doip_codec::payload::action_code::ActionCode;
use doip_codec::payload::sync_status::SyncStatus;
use doip_codec::payload::vehicle_announcement_message::VehicleAnnouncementMessage;

fn vehicle_announcement_message_success_root_no_sync() -> DoipMessage {
    DoipMessage {
        header: DoipHeader {
            protocol_version: ProtocolVersion::Iso13400_2012,
            inverse_protocol_version: 0xfd,
            payload_type: PayloadType::VehicleAnnouncementMessage,
            payload_length: 32u32,
        },
        payload: Payload::VehicleAnnouncementMessage(VehicleAnnouncementMessage {
            vin: [0u8; 17],
            logical_address: [0u8; 2],
            eid: [0u8; 6],
            gid: [0u8; 6],
            further_action: ActionCode::NoFurtherActionRequired,
            vin_gid_sync: None,
        }),
    }
}

fn vehicle_announcement_message_success_root_with_sync() -> DoipMessage {
    DoipMessage {
        header: DoipHeader {
            protocol_version: ProtocolVersion::Iso13400_2012,
            inverse_protocol_version: 0xfd,
            payload_type: PayloadType::VehicleAnnouncementMessage,
            payload_length: 33u32,
        },
        payload: Payload::VehicleAnnouncementMessage(VehicleAnnouncementMessage {
            vin: [0u8; 17],
            logical_address: [0u8; 2],
            eid: [0u8; 6],
            gid: [0u8; 6],
            further_action: ActionCode::NoFurtherActionRequired,
            vin_gid_sync: Some(SyncStatus::VinGidSynchronized),
        }),
    }
}

#[test]
fn test_action_code_to_bytes() {
    let bytes = ActionCode::NoFurtherActionRequired.to_bytes();
    assert_eq!(bytes, &[0x0]);
    let bytes = ActionCode::ReservedByIso13400_01.to_bytes();
    assert_eq!(bytes, &[0x01]);
    let bytes = ActionCode::ReservedByIso13400_02.to_bytes();
    assert_eq!(bytes, &[0x02]);
    let bytes = ActionCode::ReservedByIso13400_03.to_bytes();
    assert_eq!(bytes, &[0x03]);
    let bytes = ActionCode::ReservedByIso13400_04.to_bytes();
    assert_eq!(bytes, &[0x04]);
    let bytes = ActionCode::ReservedByIso13400_05.to_bytes();
    assert_eq!(bytes, &[0x05]);
    let bytes = ActionCode::ReservedByIso13400_06.to_bytes();
    assert_eq!(bytes, &[0x06]);
    let bytes = ActionCode::ReservedByIso13400_07.to_bytes();
    assert_eq!(bytes, &[0x07]);
    let bytes = ActionCode::ReservedByIso13400_08.to_bytes();
    assert_eq!(bytes, &[0x08]);
    let bytes = ActionCode::ReservedByIso13400_09.to_bytes();
    assert_eq!(bytes, &[0x09]);
    let bytes = ActionCode::ReservedByIso13400_0A.to_bytes();
    assert_eq!(bytes, &[0x0a]);
    let bytes = ActionCode::ReservedByIso13400_0B.to_bytes();
    assert_eq!(bytes, &[0x0b]);
    let bytes = ActionCode::ReservedByIso13400_0C.to_bytes();
    assert_eq!(bytes, &[0x0c]);
    let bytes = ActionCode::ReservedByIso13400_0D.to_bytes();
    assert_eq!(bytes, &[0x0d]);
    let bytes = ActionCode::ReservedByIso13400_0E.to_bytes();
    assert_eq!(bytes, &[0x0e]);
    let bytes = ActionCode::ReservedByIso13400_0F.to_bytes();
    assert_eq!(bytes, &[0x0f]);
    let bytes = ActionCode::RoutingActivationRequired.to_bytes();
    assert_eq!(bytes, &[0x10]);
}

#[test]
fn test_sync_status_to_bytes() {
    let bytes = SyncStatus::VinGidSynchronized.to_bytes();
    assert_eq!(bytes, &[0x00]);
    let bytes = SyncStatus::ReservedByIso13400_01.to_bytes();
    assert_eq!(bytes, &[0x01]);
    let bytes = SyncStatus::ReservedByIso13400_02.to_bytes();
    assert_eq!(bytes, &[0x02]);
    let bytes = SyncStatus::ReservedByIso13400_03.to_bytes();
    assert_eq!(bytes, &[0x03]);
    let bytes = SyncStatus::ReservedByIso13400_04.to_bytes();
    assert_eq!(bytes, &[0x04]);
    let bytes = SyncStatus::ReservedByIso13400_05.to_bytes();
    assert_eq!(bytes, &[0x05]);
    let bytes = SyncStatus::ReservedByIso13400_06.to_bytes();
    assert_eq!(bytes, &[0x06]);
    let bytes = SyncStatus::ReservedByIso13400_07.to_bytes();
    assert_eq!(bytes, &[0x07]);
    let bytes = SyncStatus::ReservedByIso13400_08.to_bytes();
    assert_eq!(bytes, &[0x08]);
    let bytes = SyncStatus::ReservedByIso13400_09.to_bytes();
    assert_eq!(bytes, &[0x09]);
    let bytes = SyncStatus::ReservedByIso13400_0A.to_bytes();
    assert_eq!(bytes, &[0x0A]);
    let bytes = SyncStatus::ReservedByIso13400_0B.to_bytes();
    assert_eq!(bytes, &[0x0B]);
    let bytes = SyncStatus::ReservedByIso13400_0C.to_bytes();
    assert_eq!(bytes, &[0x0C]);
    let bytes = SyncStatus::ReservedByIso13400_0D.to_bytes();
    assert_eq!(bytes, &[0x0D]);
    let bytes = SyncStatus::ReservedByIso13400_0E.to_bytes();
    assert_eq!(bytes, &[0x0E]);
    let bytes = SyncStatus::ReservedByIso13400_0F.to_bytes();
    assert_eq!(bytes, &[0x0F]);
    let bytes = SyncStatus::VinGidNotSynchronised.to_bytes();
    assert_eq!(bytes, &[0x10]);
}

#[test]
fn test_action_code_from_bytes() {
    for a in u8::MIN..=u8::MAX {
        let bytes = &[a];
        let proto = ActionCode::from_bytes(bytes);

        match a {
            0x00 => {
                assert!(proto.is_some());
                assert_eq!(proto.unwrap(), ActionCode::NoFurtherActionRequired)
            }
            0x01 => {
                assert!(proto.is_some());
                assert_eq!(proto.unwrap(), ActionCode::ReservedByIso13400_01)
            }
            0x02 => {
                assert!(proto.is_some());
                assert_eq!(proto.unwrap(), ActionCode::ReservedByIso13400_02)
            }
            0x03 => {
                assert!(proto.is_some());
                assert_eq!(proto.unwrap(), ActionCode::ReservedByIso13400_03)
            }
            0x04 => {
                assert!(proto.is_some());
                assert_eq!(proto.unwrap(), ActionCode::ReservedByIso13400_04)
            }
            0x05 => {
                assert!(proto.is_some());
                assert_eq!(proto.unwrap(), ActionCode::ReservedByIso13400_05)
            }
            0x06 => {
                assert!(proto.is_some());
                assert_eq!(proto.unwrap(), ActionCode::ReservedByIso13400_06)
            }
            0x07 => {
                assert!(proto.is_some());
                assert_eq!(proto.unwrap(), ActionCode::ReservedByIso13400_07)
            }
            0x08 => {
                assert!(proto.is_some());
                assert_eq!(proto.unwrap(), ActionCode::ReservedByIso13400_08)
            }
            0x09 => {
                assert!(proto.is_some());
                assert_eq!(proto.unwrap(), ActionCode::ReservedByIso13400_09)
            }
            0x0a => {
                assert!(proto.is_some());
                assert_eq!(proto.unwrap(), ActionCode::ReservedByIso13400_0A)
            }
            0x0b => {
                assert!(proto.is_some());
                assert_eq!(proto.unwrap(), ActionCode::ReservedByIso13400_0B)
            }
            0x0c => {
                assert!(proto.is_some());
                assert_eq!(proto.unwrap(), ActionCode::ReservedByIso13400_0C)
            }
            0x0d => {
                assert!(proto.is_some());
                assert_eq!(proto.unwrap(), ActionCode::ReservedByIso13400_0D)
            }
            0x0e => {
                assert!(proto.is_some());
                assert_eq!(proto.unwrap(), ActionCode::ReservedByIso13400_0E)
            }
            0x0f => {
                assert!(proto.is_some());
                assert_eq!(proto.unwrap(), ActionCode::ReservedByIso13400_0F)
            }
            0x10 => {
                assert!(proto.is_some());
                assert_eq!(proto.unwrap(), ActionCode::RoutingActivationRequired)
            }
            _ => {
                assert!(proto.is_none())
            }
        }
    }
}

#[test]
fn test_sync_status_from_bytes() {
    for a in u8::MIN..=u8::MAX {
        let bytes = &[a];
        let proto = SyncStatus::from_bytes(bytes);

        match a {
            0x00 => {
                assert!(proto.is_some());
                assert_eq!(proto.unwrap(), SyncStatus::VinGidSynchronized)
            }
            0x01 => {
                assert!(proto.is_some());
                assert_eq!(proto.unwrap(), SyncStatus::ReservedByIso13400_01)
            }
            0x02 => {
                assert!(proto.is_some());
                assert_eq!(proto.unwrap(), SyncStatus::ReservedByIso13400_02)
            }
            0x03 => {
                assert!(proto.is_some());
                assert_eq!(proto.unwrap(), SyncStatus::ReservedByIso13400_03)
            }
            0x04 => {
                assert!(proto.is_some());
                assert_eq!(proto.unwrap(), SyncStatus::ReservedByIso13400_04)
            }
            0x05 => {
                assert!(proto.is_some());
                assert_eq!(proto.unwrap(), SyncStatus::ReservedByIso13400_05)
            }
            0x06 => {
                assert!(proto.is_some());
                assert_eq!(proto.unwrap(), SyncStatus::ReservedByIso13400_06)
            }
            0x07 => {
                assert!(proto.is_some());
                assert_eq!(proto.unwrap(), SyncStatus::ReservedByIso13400_07)
            }
            0x08 => {
                assert!(proto.is_some());
                assert_eq!(proto.unwrap(), SyncStatus::ReservedByIso13400_08)
            }
            0x09 => {
                assert!(proto.is_some());
                assert_eq!(proto.unwrap(), SyncStatus::ReservedByIso13400_09)
            }
            0x0a => {
                assert!(proto.is_some());
                assert_eq!(proto.unwrap(), SyncStatus::ReservedByIso13400_0A)
            }
            0x0b => {
                assert!(proto.is_some());
                assert_eq!(proto.unwrap(), SyncStatus::ReservedByIso13400_0B)
            }
            0x0c => {
                assert!(proto.is_some());
                assert_eq!(proto.unwrap(), SyncStatus::ReservedByIso13400_0C)
            }
            0x0d => {
                assert!(proto.is_some());
                assert_eq!(proto.unwrap(), SyncStatus::ReservedByIso13400_0D)
            }
            0x0e => {
                assert!(proto.is_some());
                assert_eq!(proto.unwrap(), SyncStatus::ReservedByIso13400_0E)
            }
            0x0f => {
                assert!(proto.is_some());
                assert_eq!(proto.unwrap(), SyncStatus::ReservedByIso13400_0F)
            }
            0x10 => {
                assert!(proto.is_some());
                assert_eq!(proto.unwrap(), SyncStatus::VinGidNotSynchronised)
            }
            _ => {
                assert!(proto.is_none())
            }
        }
    }
}

#[test]
fn test_encode_vehicle_announcement_message_vin_no_sync_success() {
    let mut encoder = DoipCodec {};
    let mut dst = FixedBuffer::<4095>::new();

    let bytes = encoder.encode_fixed(vehicle_announcement_message_success_root_no_sync(), &mut dst);

    assert!(bytes.is_ok(), "Expected bytes to be ok.");
    assert_eq!(
        *dst.as_slice(),
        [
            0x02, 0xfd, 0x00, 0x04, 0x00, 0x00, 0x00, 0x20, 0x00, 0x00, 0x00, 0x00, 0x00, 0x00,
            0x00, 0x00, 0x00, 0x00, 0x00, 0x00, 0x00, 0x00, 0x00, 0x00, 0x00, 0x00, 0x00, 0x00,
            0x00, 0x00, 0x00, 0x00, 0x00, 0x00, 0x00, 0x00, 0x00, 0x00, 0x00, 0x00
        ]
    );
}

#[test]
fn test_encode_vehicle_announcement_message_vin_with_sync_success() {
    let mut encoder = DoipCodec {};
    let mut dst = FixedBuffer::<4095>::new();

    let bytes = encoder.encode_fixed(vehicle_announcement_message_success_root_with_sync(), &mut dst);

    assert!(bytes.is_ok(), "Expected bytes to be ok.");
    assert_eq!(
        *dst.as_slice(),
        [
            0x02, 0xfd, 0x00, 0x04, 0x00, 0x00, 0x00, 0x21, 0x00, 0x00, 0x00, 0x00, 0x00, 0x00,
            0x00, 0x00, 0x00, 0x00, 0x00, 0x00, 0x00, 0x00, 0x00, 0x00, 0x00, 0x00, 0x00, 0x00,
            0x00, 0x00, 0x00, 0x00, 0x00, 0x00, 0x00, 0x00, 0x00, 0x00, 0x00, 0x00, 0x00
        ]
    );
}

#[test]
fn test_decode_vehicle_announcement_message_vin_no_sync_success() {
    let mut codec = DoipCodec {};
    let mut dst = FixedBuffer::<4095>::new();

    let _ = codec.encode_fixed(vehicle_announcement_message_success_root_no_sync(), &mut dst);
    let msg = codec.decode_from_bytes(dst.as_slice());

    assert!(msg.is_ok());
    let opt = msg.unwrap();

    assert!(opt.is_some());
    let res = opt.unwrap();

    assert_eq!(res, vehicle_announcement_message_success_root_no_sync())
}

#[test]
fn test_decode_vehicle_announcement_message_vin_with_sync_success() {
    let mut codec = DoipCodec {};
    let mut dst = FixedBuffer::<4095>::new();

    let _ = codec.encode_fixed(vehicle_announcement_message_success_root_with_sync(), &mut dst);
    let msg = codec.decode_from_bytes(dst.as_slice());

    assert!(msg.is_ok());
    let opt = msg.unwrap();

    assert!(opt.is_some());
    let res = opt.unwrap();

    assert_eq!(res, vehicle_announcement_message_success_root_with_sync())
}

#[test]
fn test_decode_vehicle_announcement_message_vin_with_sync_too_short() {
    let mut codec = DoipCodec {};
    let mut dst = FixedBuffer::<4095>::new();

    let bytes = &[0x02, 0xfd, 0x00, 0x04, 0x00, 0x00, 0x00, 0x06, 0xff];
    dst.extend_from_slice(bytes).unwrap();
    let msg = codec.decode_from_bytes(dst.as_slice());

    assert_eq!(msg.unwrap_err(), DecodeError::TooShort);
}

#[test]
fn test_decode_vehicle_announcement_message_vin_with_sync_invalid_action_code() {
    let mut codec = DoipCodec {};
    let mut dst = FixedBuffer::<4095>::new();

    let bytes = &[
        0x02, 0xfd, 0x00, 0x04, 0x00, 0x00, 0x00, 0x21, 0x00, 0x00, 0x00, 0x00, 0x00, 0x00,
        0x00, 0x00, 0x00, 0x00, 0x00, 0x00, 0x00, 0x00, 0x00, 0x00, 0x00, 0x00, 0x00, 0x00,
        0x00, 0x00, 0x00, 0x00, 0x00, 0x00, 0x00, 0x00, 0x00, 0x00, 0x00, 0x42, 0x00,
    ];
    dst.extend_from_slice(bytes).unwrap();
    let msg = codec.decode_from_bytes(dst.as_slice());

    assert_eq!(msg.unwrap_err(), DecodeError::InvalidActionCode);
}

#[test]
fn test_decode_vehicle_announcement_message_vin_with_sync_invalid_sync_status() {
    let mut codec = DoipCodec {};
    let mut dst = FixedBuffer::<4095>::new();

    let bytes = &[
        0x02, 0xfd, 0x00, 0x04, 0x00, 0x00, 0x00, 0x21, 0x00, 0x00, 0x00, 0x00, 0x00, 0x00,
        0x00, 0x00, 0x00, 0x00, 0x00, 0x00, 0x00, 0x00, 0x00, 0x00, 0x00, 0x00, 0x00, 0x00,
        0x00, 0x00, 0x00, 0x00, 0x00, 0x00, 0x00, 0x00, 0x00, 0x00, 0x00, 0x00, 0x42,
    ];
    dst.extend_from_slice(bytes).unwrap();
    let msg = codec.decode_from_bytes(dst.as_slice());

    assert_eq!(msg.unwrap_err(), DecodeError::InvalidSyncStatus);
}
