use doip_codec::codec::DoipCodec;
use doip_codec::header::doip_header::DoipHeader;
use doip_codec::header::payload_type::PayloadType;
use doip_codec::header::version::ProtocolVersion;
use doip_codec::message::DoipMessage;
use doip_codec::payload::Payload;
use doip_codec::payload::vehicle_identification_request::VehicleIdentificationRequest;
use doip_codec::payload::vehicle_identification_request::VehicleIdentificationRequestCodec;

fn vehicle_identification_request_success_root() -> DoipMessage {
    DoipMessage {
        header: DoipHeader {
            protocol_version: ProtocolVersion::Iso13400_2012,
            inverse_protocol_version: 0xfd,
            payload_type: PayloadType::VehicleIdentificationRequest,
            payload_length: 0u32,
        },
        payload: Payload::VehicleIdentificationRequest(VehicleIdentificationRequest {}),
    }
}

#[test]
fn test_encode_vehicle_identification_request_success() {
    let mut encoder = DoipCodec {};
    let mut dst = Vec::<u8>::new();

    let bytes = encoder.to_bytes(vehicle_identification_request_success_root(), &mut dst);

    assert!(bytes.is_ok(), "Expected bytes to be ok.");
    assert_eq!(*dst, [0x02, 0xfd, 0x00, 0x01, 0x00, 0x00, 0x00, 0x00]);
}

#[test]
fn test_decode_vehicle_identification_request_success() {
    let mut codec = DoipCodec {};
    let mut dst = Vec::<u8>::new();

    let _ = codec.to_bytes(vehicle_identification_request_success_root(), &mut dst);
    let msg = codec.decode_from_bytes(&mut dst);

    assert!(msg.is_ok());
    let opt = msg.unwrap();

    assert!(opt.is_some());
    let res = opt.unwrap();
    assert_eq!(res, vehicle_identification_request_success_root());
}

#[test]
fn test_decode_vehicle_identification_request_too_short() {
    let mut codec = VehicleIdentificationRequestCodec {};
    let mut dst = Vec::<u8>::new();

    let bytes = &[0x02, 0xfd, 0x00, 0x00];
    dst.extend_from_slice(bytes);
    let msg = codec.decode_from_bytes(&mut dst);

    assert!(msg.is_err());
}
