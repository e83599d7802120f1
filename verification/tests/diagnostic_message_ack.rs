use doip_codec::codec::DoipCodec;
use doip_codec::header::doip_header::DoipHeader;
use doip_codec::header::payload_type::PayloadType;
use doip_codec::header::version::ProtocolVersion;
use doip_codec::message::DoipMessage;
use doip_codec::payload::Payload;
use doip_codec::payload::diagnostic_ack::DiagnosticAckCode;
use doip_codec::payload::diagnostic_message_ack::DiagnosticMessageAck;

fn diagnostic_message_ack_success_root() -> DoipMessage {
    DoipMessage {
        header: DoipHeader {
            protocol_version: ProtocolVersion::Iso13400_2012,
            inverse_protocol_version: 0xfd,
            payload_type: PayloadType::DiagnosticMessageAck,
            payload_length: 5u32,
        },
        payload: Payload::DiagnosticMessageAck(DiagnosticMessageAck {
            source_address: [0x00, 0x00],
            target_address: [0x00, 0x00],
            ack_code: DiagnosticAckCode::Acknowledged,
        }),
    }
}

#[test]
fn test_ack_code_to_bytes() {
    let bytes = DiagnosticAckCode::Acknowledged.to_bytes();
    assert_eq!(bytes, [0x00]);
}

#[test]
fn diagnostic_message_ack_test_node_type_from_bytes() {
    for a in u8::MIN..=u8::MAX {
        let bytes = &[a];
        let proto = DiagnosticAckCode::from_bytes(bytes);

        match a {
            0x00 => {
                assert!(proto.is_some());
                assert_eq!(proto.unwrap(), DiagnosticAckCode::Acknowledged);
            }
            _ => assert!(proto.is_none()),
        }
    }
}

#[test]
fn diagnostic_message_ack_test_encode_diagnostic_message_ack_success() {
    let mut encoder = DoipCodec {};
    let mut dst = Vec::<u8>::new();

    let bytes = encoder.to_bytes(diagnostic_message_ack_success_root(), &mut dst);

    assert!(bytes.is_ok(), "Expected bytes to be ok.");
    assert_eq!(
        *dst,
        [0x02, 0xfd, 0x80, 0x02, 0x00, 0x00, 0x00, 0x05, 0x00, 0x00, 0x00, 0x00, 0x00]
    );
}

#[test]
fn test_decode_diagnostic_message_ack_success() {
    let mut codec = DoipCodec {};
    let mut dst = Vec::<u8>::new();

    let _ = codec.to_bytes(diagnostic_message_ack_success_root(), &mut dst);
    let msg = codec.decode_from_bytes(&mut dst);

    assert!(msg.is_ok());
    let opt = msg.unwrap();

    assert!(opt.is_some());
    let res = opt.unwrap();

    assert_eq!(res, diagnostic_message_ack_success_root());
}

#[test]
fn test_decode_diagnostic_message_ack_invalid_diagnostic_ack_code() {
    let mut codec = DoipCodec {};
    let mut dst = Vec::<u8>::new();

    let bytes = &[
        0x02, 0xfd, 0x80, 0x02, 0x00, 0x00, 0x00, 0x05, 0x00, 0x00, 0x00, 0x00, 0x42,
    ];
    dst.extend_from_slice(bytes);
    let msg = codec.decode_from_bytes(&mut dst);

    assert!(msg.is_err());
}

#[test]
fn test_decode_diagnostic_message_ack_too_short() {
    let mut codec = DoipCodec {};
    let mut dst = Vec::<u8>::new();

    let bytes = &[
        0x02, 0xfd, 0x80, 0x02, 0x00, 0x00, 0x00, 0x05, 0x00, 0x00, 0x00, 0x00,
    ];
    dst.extend_from_slice(bytes);
    let msg = codec.decode_from_bytes(&mut dst);

    assert!(msg.is_err());
}
