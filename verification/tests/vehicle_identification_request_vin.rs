use doip_codec::codec::DoipCodec;
use doip_codec::fixed_buffer::FixedBuffer;
use doip_codec::header::doip_header::DoipHeader;
use doip_codec::header::payload_type::PayloadType;
use doip_codec::header::version::ProtocolVersion;
use doip_codec::message::DoipMessage;
use doip_codec::payload::Payload;
use doip_codec::payload::vehicle_identification_request_vin::VehicleIdentificationRequestVin;

fn vehicle_identification_request_vin_success_root() -> DoipMessage {
    DoipMessage {
        header: DoipHeader {
            protocol_version: ProtocolVersion::Iso13400_2012,
            inverse_protocol_version: 0xfd,
            payload_type: PayloadType::VehicleIdentificationRequestVin,
            payload_length: 17u32,
        },
        payload: Payload::VehicleIdentificationRequestVin(VehicleIdentificationRequestVin {
            vin: [0u8; 17],
        }),
    }
}

#[test]
fn test_encode_vehicle_identification_request_vin_success() {
    let mut encoder = DoipCodec {};
    let mut dst = FixedBuffer::<4095>::new();

    let bytes = encoder.encode_fixed(vehicle_identification_request_vin_success_root(), &mut dst);

    assert!(bytes.is_ok(), "Expected bytes to be ok.");
    assert_eq!(
        *dst.as_slice(),
        [
            0x02, 0xfd, 0x00, 0x03, 0x00, 0x00, 0x00, 0x11, 0x00, 0x00, 0x00, 0x00, 0x00, 0x00,
            0x00, 0x00, 0x00, 0x00, 0x00, 0x00, 0x00, 0x00, 0x00, 0x00, 0x00
        ]
    );
}

#[test]
fn test_decode_vehicle_identification_request_vin_success() {
    let mut codec = DoipCodec {};
    let mut dst = FixedBuffer::<4095>::new();

    let _ = codec.encode_fixed(vehicle_identification_request_vin_success_root(), &mut dst);
    let msg = codec.decode_from_bytes(dst.as_slice());

    assert!(msg.is_ok());
    let opt = msg.unwrap();

    assert!(opt.is_some());
    let res = opt.unwrap();

    assert_eq!(res, vehicle_identification_request_vin_success_root());
}

#[test]
fn test_decode_vehicle_identification_request_vin_too_short() {
    let mut codec = DoipCodec {};
    let mut dst = FixedBuffer::<4095>::new();

    let bytes = &[0x02, 0xfd, 0x00, 0x03, 0x00, 0x00, 0x00, 0x06, 0xff];
    dst.extend_from_slice(bytes).unwrap();
    let msg = codec.decode_from_bytes(dst.as_slice());

    assert!(msg.is_err());
}
