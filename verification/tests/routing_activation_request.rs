use doip_codec::codec::DoipCodec;
use doip_codec::header::doip_header::DoipHeader;
use doip_codec::header::payload_type::PayloadType;
use doip_codec::header::version::ProtocolVersion;
use doip_codec::message::DoipMessage;
use doip_codec::payload::Payload;
use doip_codec::payload::activation_type::ActivationType;
use doip_codec::payload::routing_activation_request::RoutingActivationRequest;

fn routing_activation_request_success_root() -> DoipMessage {
    DoipMessage {
        header: DoipHeader {
            protocol_version: ProtocolVersion::Iso13400_2012,
            inverse_protocol_version: 0xfd,
            payload_type: PayloadType::RoutingActivationRequest,
            payload_length: 7u32,
        },
        payload: Payload::RoutingActivationRequest(RoutingActivationRequest {
            source_address: [0x00, 0x00],
            activation_type: ActivationType::Default,
            buffer: [0x00, 0x00, 0x00, 0x00],
        }),
    }
}

#[test]
fn test_activation_type_to_bytes() {
    let bytes = ActivationType::Default.to_bytes();
    assert_eq!(bytes, &[0x00]);
    let bytes = ActivationType::WwhObd.to_bytes();
    assert_eq!(bytes, &[0x01]);
    let bytes = ActivationType::CentralSecurity.to_bytes();
    assert_eq!(bytes, &[0x02]);
}
#[test]
fn routing_activation_request_test_activation_type_from_bytes() {
    for a in u8::MIN..=u8::MAX {
        let bytes = &[a];
        let proto = ActivationType::from_bytes(bytes);

        match a {
            0x00 => {
                assert!(proto.is_some());
                assert_eq!(proto.unwrap(), ActivationType::Default);
            }
            0x01 => {
                assert!(proto.is_some());
                assert_eq!(proto.unwrap(), ActivationType::WwhObd);
            }
            0x02 => {
                assert!(proto.is_some());
                assert_eq!(proto.unwrap(), ActivationType::CentralSecurity);
            }
            _ => {
                assert!(proto.is_none());
            }
        }
    }
}

#[test]
fn test_decode_routing_activation_request_success() {
    let mut codec = DoipCodec {};
    let mut dst = Vec::<u8>::new();

    let _ = codec.to_bytes(routing_activation_request_success_root(), &mut dst);
    let msg = codec.decode_from_bytes(&mut dst);

    assert!(msg.is_ok());
    let opt = msg.unwrap();

    assert!(opt.is_some());
    let res = opt.unwrap();

    assert_eq!(res, routing_activation_request_success_root());
}

#[test]
fn test_encode_routing_activation_request_success() {
    let mut encoder = DoipCodec {};
    let mut dst = Vec::<u8>::new();

    let bytes = encoder.to_bytes(routing_activation_request_success_root(), &mut dst);

    assert!(bytes.is_ok(), "Expected bytes to be ok.");
    assert_eq!(
        *dst,
        [
            0x02, 0xfd, 0x00, 0x05, 0x00, 0x00, 0x00, 0x07, 0x00, 0x00, 0x00, 0x00, 0x00, 0x00,
            0x00
        ]
    );
}

#[test]
fn test_decode_routing_activation_request_invalid_activation_type() {
    let mut codec = DoipCodec {};
    let mut dst = Vec::<u8>::new();

    let bytes = &[
        0x02, 0xfd, 0x00, 0x05, 0x00, 0x00, 0x00, 0x07, 0x00, 0x00, 0x42, 0x00, 0x00, 0x00,
        0x00,
    ];
    dst.extend_from_slice(bytes);
    let msg = codec.decode_from_bytes(&mut dst);

    assert!(msg.is_err());
}

#[test]
fn test_decode_routing_activation_request_too_short() {
    let mut codec = DoipCodec {};
    let mut dst = Vec::<u8>::new();

    let bytes = &[
        0x02, 0xfd, 0x00, 0x05, 0x00, 0x00, 0x00, 0x07, 0x00, 0x00, 0x42, 0x00, 0x00,
    ];
    dst.extend_from_slice(bytes);
    let msg = codec.decode_from_bytes(&mut dst);

    assert!(msg.is_err());
}
