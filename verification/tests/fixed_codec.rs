use doip_codec::codec::DoipCodec;
use doip_codec::error::DecodeError;
use doip_codec::error::EncodeError;
use doip_codec::fixed_buffer::FixedBuffer;
use doip_codec::header::doip_header::DoipHeader;
use doip_codec::header::payload_type::PayloadType;
use doip_codec::header::version::ProtocolVersion;
use doip_codec::message::DoipMessage;
use doip_codec::payload::generic_nack::GenericNack;
use doip_codec::payload::nack_codes::NackCodes;
use doip_codec::payload::routing_activation_request::RoutingActivationRequest;
use doip_codec::payload::activation_type::ActivationType;
use doip_codec::payload::Payload;

fn fixed_nack_message() -> DoipMessage {
    DoipMessage {
        header: DoipHeader {
            protocol_version: ProtocolVersion::Iso13400_2012,
            inverse_protocol_version: 0xfd,
            payload_type: PayloadType::GenericNack,
            payload_length: 1,
        },
        payload: Payload::GenericNack(GenericNack { nack_code: NackCodes::OutOfMemory }),
    }
}

fn fixed_routing_message() -> DoipMessage {
    DoipMessage {
        header: DoipHeader {
            protocol_version: ProtocolVersion::Iso13400_2012,
            inverse_protocol_version: 0xfd,
            payload_type: PayloadType::RoutingActivationRequest,
            payload_length: 7,
        },
        payload: Payload::RoutingActivationRequest(RoutingActivationRequest {
            source_address: [0x0e, 0x80],
            activation_type: ActivationType::WwhObd,
            buffer: [1, 2, 3, 4],
        }),
    }
}

#[test]
fn fixed_buffer_holds_what_fits() {
    let mut buffer = FixedBuffer::<4>::new();
    assert_eq!(buffer.capacity(), 4);
    assert_eq!(buffer.len(), 0);
    assert_eq!(buffer.extend_from_slice(&[1, 2, 3]), Ok(()));
    assert_eq!(buffer.as_slice(), &[1, 2, 3]);
    assert_eq!(buffer.extend_from_slice(&[4, 5]), Err(()));
    assert_eq!(buffer.as_slice(), &[1, 2, 3]);
    assert_eq!(buffer.extend_from_slice(&[4]), Ok(()));
    assert_eq!(buffer.len(), 4);
    assert_eq!(buffer.extend_from_slice(&[]), Ok(()));
    assert_eq!(buffer.extend_from_slice(&[5]), Err(()));
    buffer.advance(3);
    assert_eq!(buffer.as_slice(), &[4]);
    buffer.advance(0);
    assert_eq!(buffer.as_slice(), &[4]);
    buffer.advance(1);
    assert_eq!(buffer.len(), 0);
}

#[test]
fn fixed_decode_takes_frames_one_by_one() {
    let codec = DoipCodec {};
    let mut buffer = FixedBuffer::<32>::new();
    buffer
        .extend_from_slice(&[0x02, 0xfd, 0x00, 0x00, 0x00, 0x00, 0x00, 0x01, 0x03])
        .unwrap();
    buffer
        .extend_from_slice(&[
            0x02, 0xfd, 0x00, 0x05, 0x00, 0x00, 0x00, 0x07, 0x0e, 0x80, 0x01, 0x01, 0x02, 0x03,
            0x04,
        ])
        .unwrap();
    buffer.extend_from_slice(&[0x02, 0xfd]).unwrap();

    assert_eq!(codec.decode_fixed(&mut buffer), Ok(Some(fixed_nack_message())));
    assert_eq!(buffer.len(), 17);
    assert_eq!(codec.decode_fixed(&mut buffer), Ok(Some(fixed_routing_message())));
    assert_eq!(buffer.as_slice(), &[0x02, 0xfd]);
    assert_eq!(codec.decode_fixed(&mut buffer), Ok(None));
    assert_eq!(buffer.as_slice(), &[0x02, 0xfd]);
}

#[test]
fn fixed_decode_waits_while_there_is_room() {
    let codec = DoipCodec {};
    let mut buffer = FixedBuffer::<16>::new();
    buffer
        .extend_from_slice(&[0x02, 0xfd, 0x00, 0x05, 0x00, 0x00, 0x00, 0x07, 0x0e, 0x80])
        .unwrap();
    assert_eq!(codec.decode_fixed(&mut buffer), Ok(None));
    assert_eq!(codec.decode_fixed(&mut buffer), Ok(None));
    assert_eq!(buffer.len(), 10);
}

#[test]
fn fixed_decode_gives_up_on_a_full_buffer() {
    let codec = DoipCodec {};
    // The frame needs 15 bytes and the buffer takes 12.
    let mut buffer = FixedBuffer::<12>::new();
    buffer
        .extend_from_slice(&[
            0x02, 0xfd, 0x00, 0x05, 0x00, 0x00, 0x00, 0x07, 0x0e, 0x80, 0x01, 0x01,
        ])
        .unwrap();
    assert_eq!(codec.decode_fixed(&mut buffer), Err(DecodeError::BufferTooSmall));
    assert_eq!(buffer.len(), 12);

    // A full buffer without even a header.
    let mut tiny = FixedBuffer::<4>::new();
    tiny.extend_from_slice(&[0x02, 0xfd, 0x00, 0x05]).unwrap();
    assert_eq!(codec.decode_fixed(&mut tiny), Err(DecodeError::BufferTooSmall));

    // A full buffer that holds exactly one frame.
    let mut exact = FixedBuffer::<9>::new();
    exact
        .extend_from_slice(&[0x02, 0xfd, 0x00, 0x00, 0x00, 0x00, 0x00, 0x01, 0x03])
        .unwrap();
    assert_eq!(codec.decode_fixed(&mut exact), Ok(Some(fixed_nack_message())));
    assert_eq!(exact.len(), 0);
}

#[test]
fn fixed_decode_reports_invalid_frames() {
    let codec = DoipCodec {};
    let mut buffer = FixedBuffer::<16>::new();
    buffer
        .extend_from_slice(&[0x02, 0xfd, 0x00, 0x00, 0x00, 0x00, 0x00, 0x01, 0x05])
        .unwrap();
    assert_eq!(codec.decode_fixed(&mut buffer), Err(DecodeError::InvalidNackCode));
    assert_eq!(buffer.len(), 9);
}

#[test]
fn fixed_encode_needs_room_for_the_whole_frame() {
    let codec = DoipCodec {};
    let mut buffer = FixedBuffer::<20>::new();
    assert_eq!(codec.encode_fixed(fixed_nack_message(), &mut buffer), Ok(()));
    assert_eq!(
        buffer.as_slice(),
        &[0x02, 0xfd, 0x00, 0x00, 0x00, 0x00, 0x00, 0x01, 0x03]
    );
    // 15 more bytes do not fit into the 11 that are left.
    assert_eq!(
        codec.encode_fixed(fixed_routing_message(), &mut buffer),
        Err(EncodeError::BufferTooSmall)
    );
    assert_eq!(buffer.len(), 9);
    assert_eq!(codec.encode_fixed(fixed_nack_message(), &mut buffer), Ok(()));
    assert_eq!(buffer.len(), 18);
}

#[test]
fn fixed_encode_checks_the_message_first() {
    let codec = DoipCodec {};
    let mut buffer = FixedBuffer::<4>::new();
    let mut message = fixed_routing_message();
    message.header.payload_length = 8;
    assert_eq!(
        codec.encode_fixed(message, &mut buffer),
        Err(EncodeError::PayloadLengthValidation)
    );
    let mut message = fixed_routing_message();
    message.header.payload_type = PayloadType::GenericNack;
    assert_eq!(
        codec.encode_fixed(message, &mut buffer),
        Err(EncodeError::PayloadTypeValidation)
    );
    assert_eq!(buffer.len(), 0);
}
