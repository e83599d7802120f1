use doip_codec::codec::DoipCodec;
use doip_codec::fixed_buffer::FixedBuffer;
use doip_codec::header::doip_header::DoipHeader;
use doip_codec::header::payload_type::PayloadType;
use doip_codec::header::version::ProtocolVersion;
use doip_codec::message::DoipMessage;
use doip_codec::payload::Payload;
use doip_codec::payload::entity_status_response::EntityStatusResponse;
use doip_codec::payload::node_type::NodeType;

fn entity_status_response_success_root() -> DoipMessage {
    DoipMessage {
        header: DoipHeader {
            protocol_version: ProtocolVersion::Iso13400_2012,
            inverse_protocol_version: 0xfd,
            payload_type: PayloadType::EntityStatusResponse,
            payload_length: 7u32,
        },
        payload: Payload::EntityStatusResponse(EntityStatusResponse {
            node_type: NodeType::DoipGateway,
            max_concurrent_sockets: [0x00],
            currently_open_sockets: [0x00],
            max_data_size: [0x00, 0x00, 0x00, 0x00],
        }),
    }
}

#[test]
fn test_node_type_to_bytes() {
    let bytes = NodeType::DoipGateway.to_bytes();
    assert_eq!(bytes, &[0x00]);
    let bytes = NodeType::DoipNode.to_bytes();
    assert_eq!(bytes, &[0x01]);
}

#[test]
fn entity_status_response_test_node_type_from_bytes() {
    for a in u8::MIN..=u8::MAX {
        let bytes = &[a];
        let proto = NodeType::from_bytes(bytes);
        match a {
            0x00 => {
                assert!(proto.is_some());
                assert_eq!(proto.unwrap(), NodeType::DoipGateway)
            }
            0x01 => {
                assert!(proto.is_some());
                assert_eq!(proto.unwrap(), NodeType::DoipNode)
            }
            _ => {
                assert!(proto.is_none())
            }
        }
    }
}

#[test]
fn test_encode_entity_status_response_success() {
    let mut encoder = DoipCodec {};
    let mut dst = FixedBuffer::<4095>::new();

    let bytes = encoder.encode_fixed(entity_status_response_success_root(), &mut dst);

    assert!(bytes.is_ok(), "Expected bytes to be ok.");
    assert_eq!(
        *dst.as_slice(),
        [
            0x02, 0xfd, 0x40, 0x02, 0x00, 0x00, 0x00, 0x07, 0x00, 0x00, 0x00, 0x00, 0x00, 0x00,
            0x00
        ]
    );
}

#[test]
fn test_decode_entity_status_response_success() {
    let mut codec = DoipCodec {};
    let mut dst = FixedBuffer::<4095>::new();

    let _ = codec.encode_fixed(entity_status_response_success_root(), &mut dst);
    let msg = codec.decode_from_bytes(dst.as_slice());

    assert!(msg.is_ok());
    let opt = msg.unwrap();

    assert!(opt.is_some());
    let res = opt.unwrap();

    assert_eq!(res, entity_status_response_success_root())
}

#[test]
fn test_decode_entity_status_response_invalid_node_type() {
    let mut codec = DoipCodec {};
    let mut dst = FixedBuffer::<4095>::new();

    let bytes = &[
        0x02, 0xfd, 0x40, 0x02, 0x00, 0x00, 0x00, 0x07, 0x42, 0x00, 0x00, 0x00, 0x00, 0x00,
        0x00,
    ];
    dst.extend_from_slice(bytes).unwrap();
    let msg = codec.decode_from_bytes(dst.as_slice());

    assert!(msg.is_err());
}

#[test]
fn test_decode_entity_status_response_too_short() {
    let mut codec = DoipCodec {};
    let mut dst = FixedBuffer::<4095>::new();

    let bytes = &[
        0x02, 0xfd, 0x40, 0x02, 0x00, 0x00, 0x00, 0x07, 0x42, 0x00, 0x00, 0x00, 0x00, 0x00,
    ];
    dst.extend_from_slice(bytes).unwrap();
    let msg = codec.decode_from_bytes(dst.as_slice());

    assert!(msg.is_err());
}
