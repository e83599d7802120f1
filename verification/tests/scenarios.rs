use doip_codec::codec::DoipCodec;
use doip_codec::endian::u16_from_be_bytes;
use doip_codec::endian::u16_to_be_bytes;
use doip_codec::endian::u32_from_be_bytes;
use doip_codec::endian::u32_to_be_bytes;
use doip_codec::error::DecodeError;
use doip_codec::header::doip_header::validate_protocol;
use doip_codec::header::doip_header::DoipHeader;
use doip_codec::header::doip_header::HeaderCodec;
use doip_codec::header::payload_type::PayloadType;
use doip_codec::header::version::ProtocolVersion;
use doip_codec::message::DoipMessage;
use doip_codec::payload::action_code::ActionCode;
use doip_codec::payload::activation_code::ActivationCode;
use doip_codec::payload::activation_type::ActivationType;
use doip_codec::payload::diagnostic_ack::DiagnosticAckCode;
use doip_codec::payload::diagnostic_message::DiagnosticMessage;
use doip_codec::payload::diagnostic_message::DiagnosticMessageCodec;
use doip_codec::payload::diagnostic_message_ack::DiagnosticMessageAck;
use doip_codec::payload::diagnostic_nack::DiagnosticNackCode;
use doip_codec::payload::generic_nack::GenericNackCodec;
use doip_codec::payload::nack_codes::NackCodes;
use doip_codec::payload::node_type::NodeType;
use doip_codec::payload::payload_codec::PayloadCodec;
use doip_codec::payload::power_mode::PowerMode;
use doip_codec::payload::routing_activation_request::RoutingActivationRequest;
use doip_codec::payload::sync_status::SyncStatus;
use doip_codec::payload::vehicle_announcement_message::VehicleAnnouncementMessage;
use doip_codec::payload::vehicle_announcement_message::VehicleAnnouncementMessageCodec;
use doip_codec::payload::vehicle_identification_request::VehicleIdentificationRequest;
use doip_codec::payload::Payload;

#[test]
fn vehicle_identification_request_frame_decodes() {
    let codec = DoipCodec {};
    let frame = [0x02, 0xfd, 0x00, 0x01, 0x00, 0x00, 0x00, 0x00];
    assert_eq!(
        codec.decode_from_bytes(&frame),
        Ok(Some(DoipMessage {
            header: DoipHeader {
                protocol_version: ProtocolVersion::Iso13400_2012,
                inverse_protocol_version: 0xfd,
                payload_type: PayloadType::VehicleIdentificationRequest,
                payload_length: 0,
            },
            payload: Payload::VehicleIdentificationRequest(VehicleIdentificationRequest {}),
        }))
    );
}

#[test]
fn seven_bytes_need_more_data() {
    let codec = DoipCodec {};
    let bytes = [0x02, 0xfd, 0x00, 0x01, 0x00, 0x00, 0x00];
    assert_eq!(codec.decode_from_bytes(&bytes), Ok(None));
    assert_eq!(codec.decode_step(&bytes), Ok(None));
    assert_eq!(codec.frame_length(&bytes), Ok(None));
    assert_eq!(codec.decode_from_bytes(&[]), Ok(None));
}

#[test]
fn diagnostic_message_ack_code_is_checked() {
    let codec = DoipCodec {};
    let good = [0x02, 0xfd, 0x80, 0x02, 0x00, 0x00, 0x00, 0x05, 0, 0, 0, 0, 0x00];
    assert_eq!(
        codec.decode_from_bytes(&good),
        Ok(Some(DoipMessage {
            header: DoipHeader {
                protocol_version: ProtocolVersion::Iso13400_2012,
                inverse_protocol_version: 0xfd,
                payload_type: PayloadType::DiagnosticMessageAck,
                payload_length: 5,
            },
            payload: Payload::DiagnosticMessageAck(DiagnosticMessageAck {
                source_address: [0, 0],
                target_address: [0, 0],
                ack_code: DiagnosticAckCode::Acknowledged,
            }),
        }))
    );
    let bad = [0x02, 0xfd, 0x80, 0x02, 0x00, 0x00, 0x00, 0x05, 0, 0, 0, 0, 0x42];
    assert_eq!(codec.decode_from_bytes(&bad), Err(DecodeError::InvalidDiagnosticAckCode));
}

#[test]
fn routing_activation_request_encodes() {
    let codec = DoipCodec {};
    let message = DoipMessage::new(
        ProtocolVersion::Iso13400_2012,
        Payload::RoutingActivationRequest(RoutingActivationRequest {
            source_address: [0, 0],
            activation_type: ActivationType::Default,
            buffer: [0, 0, 0, 0],
        }),
    );
    let mut dst = Vec::new();
    assert_eq!(codec.to_bytes(message, &mut dst), Ok(()));
    assert_eq!(
        dst,
        vec![0x02, 0xfd, 0x00, 0x05, 0x00, 0x00, 0x00, 0x07, 0, 0, 0, 0, 0, 0, 0]
    );
}

#[test]
fn vehicle_announcement_has_two_lengths() {
    let codec = DoipCodec {};
    let mut short = vec![0x02, 0xfd, 0x00, 0x04, 0x00, 0x00, 0x00, 0x20];
    short.extend_from_slice(&[0u8; 32]);
    let decoded = codec.decode_from_bytes(&short).unwrap().unwrap();
    assert_eq!(decoded.header.payload_length, 32);
    assert_eq!(
        decoded.payload,
        Payload::VehicleAnnouncementMessage(VehicleAnnouncementMessage {
            vin: [0; 17],
            logical_address: [0; 2],
            eid: [0; 6],
            gid: [0; 6],
            further_action: ActionCode::NoFurtherActionRequired,
            vin_gid_sync: None,
        })
    );

    let mut long = vec![0x02, 0xfd, 0x00, 0x04, 0x00, 0x00, 0x00, 0x21];
    long.extend_from_slice(&[0u8; 32]);
    long.push(0x10);
    let decoded = codec.decode_from_bytes(&long).unwrap().unwrap();
    assert_eq!(decoded.header.payload_length, 33);
    assert_eq!(
        decoded.payload,
        Payload::VehicleAnnouncementMessage(VehicleAnnouncementMessage {
            vin: [0; 17],
            logical_address: [0; 2],
            eid: [0; 6],
            gid: [0; 6],
            further_action: ActionCode::NoFurtherActionRequired,
            vin_gid_sync: Some(SyncStatus::VinGidNotSynchronised),
        })
    );

    // The header decides: with a declared length of 32 the byte behind the
    // payload belongs to whatever comes next.
    let mut followed = short.clone();
    followed.push(0x42);
    let step = codec.decode_step(&followed).unwrap().unwrap();
    assert_eq!(step.1, 40);
    assert!(matches!(
        step.0.payload,
        Payload::VehicleAnnouncementMessage(VehicleAnnouncementMessage { vin_gid_sync: None, .. })
    ));
    assert!(matches!(
        (VehicleAnnouncementMessageCodec {}).decode_from_bytes(&followed),
        Ok(Some(Payload::VehicleAnnouncementMessage(VehicleAnnouncementMessage {
            vin_gid_sync: None,
            ..
        })))
    ));
}

#[test]
fn mismatched_check_byte_fails_validation() {
    let codec = HeaderCodec {};
    assert_eq!(
        codec.decode(&[0x02, 0xff, 0x00, 0x01, 0x00, 0x00, 0x00, 0x00]),
        Err(DecodeError::FailedProtocolValidation)
    );
    assert_eq!(validate_protocol(0x02, 0xff), None);
    assert_eq!(validate_protocol(0x02, 0xfd), Some(()));
    for version in 0..=255u8 {
        for inverse in 0..=255u8 {
            assert_eq!(validate_protocol(version, inverse).is_some(), inverse == !version);
        }
    }
}

#[test]
fn header_errors_come_in_order() {
    let codec = HeaderCodec {};
    assert_eq!(codec.decode(&[0x42, 0x00, 0x90, 0x42, 0, 0, 0]), Err(DecodeError::TooShort));
    assert_eq!(
        codec.decode(&[0x42, 0x00, 0x90, 0x42, 0, 0, 0, 0]),
        Err(DecodeError::InvalidProtocolVersion)
    );
    assert_eq!(
        codec.decode(&[0x04, 0x00, 0x90, 0x42, 0, 0, 0, 0]),
        Err(DecodeError::FailedProtocolValidation)
    );
    assert_eq!(
        codec.decode(&[0x04, 0xfb, 0x90, 0x42, 0, 0, 0, 0]),
        Err(DecodeError::InvalidPayloadType)
    );
    assert_eq!(
        codec.decode(&[0x04, 0xfb, 0x40, 0x02, 0x12, 0x34, 0x56, 0x78, 0xff]),
        Ok(Some(DoipHeader {
            protocol_version: ProtocolVersion::Iso13400_2019Amd1,
            inverse_protocol_version: 0xfb,
            payload_type: PayloadType::EntityStatusResponse,
            payload_length: 0x1234_5678,
        }))
    );
}

#[test]
fn decode_from_bytes_reads_exactly_the_declared_payload() {
    let codec = DoipCodec {};
    // Two payload bytes are declared; the third byte is not part of the message.
    let bytes = [0x02, 0xfd, 0x80, 0x01, 0x00, 0x00, 0x00, 0x06, 1, 2, 3, 4, 5, 6, 7];
    let message = codec.decode_from_bytes(&bytes).unwrap().unwrap();
    assert_eq!(
        message.payload,
        Payload::DiagnosticMessage(DiagnosticMessage {
            source_address: [1, 2],
            target_address: [3, 4],
            message: vec![5, 6],
        })
    );
    assert_eq!(
        (DiagnosticMessageCodec {}).decode_from_bytes(&bytes),
        Ok(Some(message.payload.clone()))
    );
    assert_eq!(
        (PayloadCodec {}).decode_from_bytes(PayloadType::DiagnosticMessage, &bytes),
        Ok(Some(message.payload))
    );
    // Fewer payload bytes than declared.
    assert_eq!(codec.decode_from_bytes(&bytes[..13]), Err(DecodeError::TooShort));
    assert_eq!(
        (DiagnosticMessageCodec {}).decode_from_bytes(&bytes[..13]),
        Err(DecodeError::TooShort)
    );
    // A declared length below what the payload kind needs.
    let stunted = [0x02, 0xfd, 0x80, 0x01, 0x00, 0x00, 0x00, 0x03, 1, 2, 3, 4, 5];
    assert_eq!(codec.decode_from_bytes(&stunted), Err(DecodeError::TooShort));
    assert_eq!(
        (DiagnosticMessageCodec {}).decode_from_bytes(&stunted),
        Err(DecodeError::TooShort)
    );
    // The codec of the payload reads the header, and reports what is wrong with it.
    let broken = [0x02, 0xfe, 0x80, 0x01, 0x00, 0x00, 0x00, 0x04, 1, 2, 3, 4];
    assert_eq!(
        (DiagnosticMessageCodec {}).decode_from_bytes(&broken),
        Err(DecodeError::FailedProtocolValidation)
    );
}

#[test]
fn payload_codecs_write_behind_what_is_there() {
    let mut dst = vec![0xaa];
    let written = (PayloadCodec {}).to_bytes(
        Payload::DiagnosticMessage(DiagnosticMessage {
            source_address: [1, 2],
            target_address: [3, 4],
            message: vec![5],
        }),
        &mut dst,
    );
    assert_eq!(written, Ok(()));
    assert_eq!(dst, vec![0xaa, 1, 2, 3, 4, 5]);
    let codec = GenericNackCodec {};
    assert_eq!(
        codec.to_bytes(
            doip_codec::payload::generic_nack::GenericNack { nack_code: NackCodes::OutOfMemory },
            &mut dst
        ),
        Ok(())
    );
    assert_eq!(dst, vec![0xaa, 1, 2, 3, 4, 5, 3]);
}

#[test]
fn coded_fields_are_bijections() {
    let mut known = 0;
    for code in 0..=255u8 {
        if let Some(value) = ProtocolVersion::from_bytes(&[code]) {
            assert_eq!(value.to_bytes(), vec![code]);
            known += 1;
        }
        if let Some(value) = NackCodes::from_bytes(&[code]) {
            assert_eq!(value.to_bytes(), vec![code]);
            known += 1;
        }
        if let Some(value) = ActivationType::from_bytes(&[code]) {
            assert_eq!(value.to_bytes(), vec![code]);
            known += 1;
        }
        if let Some(value) = ActivationCode::from_bytes(&[code]) {
            assert_eq!(value.to_bytes(), vec![code]);
            known += 1;
        }
        if let Some(value) = ActionCode::from_bytes(&[code]) {
            assert_eq!(value.to_bytes(), vec![code]);
            known += 1;
        }
        if let Some(value) = SyncStatus::from_bytes(&[code]) {
            assert_eq!(value.to_bytes(), vec![code]);
            known += 1;
        }
        if let Some(value) = NodeType::from_bytes(&[code]) {
            assert_eq!(value.to_bytes(), vec![code]);
            known += 1;
        }
        if let Some(value) = PowerMode::from_bytes(&[code]) {
            assert_eq!(value.to_bytes(), vec![code]);
            known += 1;
        }
        if let Some(value) = DiagnosticAckCode::from_bytes(&[code]) {
            assert_eq!(value.to_bytes(), vec![code]);
            known += 1;
        }
        if let Some(value) = DiagnosticNackCode::from_bytes(&[code]) {
            assert_eq!(value.to_bytes(), vec![code]);
            known += 1;
        }
    }
    assert_eq!(known, 6 + 5 + 3 + 18 + 17 + 17 + 2 + 3 + 1 + 9);
    let mut kinds = 0;
    for code in 0..=u16::MAX {
        let bytes = code.to_be_bytes();
        if let Some(kind) = PayloadType::from_bytes(&bytes) {
            assert_eq!(kind.to_bytes(), bytes.to_vec());
            kinds += 1;
        }
    }
    assert_eq!(kinds, 16);
}

#[test]
fn coded_fields_read_only_the_first_byte() {
    assert_eq!(NackCodes::from_bytes(&[]), None);
    assert_eq!(NackCodes::from_bytes(&[0x02, 0xff]), Some(NackCodes::MessageTooLarge));
    assert_eq!(PayloadType::from_bytes(&[0x80]), None);
    assert_eq!(
        PayloadType::from_bytes(&[0x80, 0x03, 0xff]),
        Some(PayloadType::DiagnosticMessageNack)
    );
    assert_eq!(ProtocolVersion::from_bytes(&[0xff, 0x00]), Some(ProtocolVersion::DefaultValue));
}

#[test]
fn nack_codes_describe_themselves() {
    assert_eq!(NackCodes::IncorrectPatternFormat.description(), "Incorrect pattern format");
    assert_eq!(NackCodes::UnknownPayloadType.description(), "Unknown payload type");
    assert_eq!(NackCodes::MessageTooLarge.description(), "Message too large");
    assert_eq!(NackCodes::OutOfMemory.description(), "Out of memory");
    assert_eq!(NackCodes::InvalidPayloadLength.description(), "Invalid payload length");
}

#[test]
fn big_endian_numbers() {
    assert_eq!(u16_to_be_bytes(0x8003), [0x80, 0x03]);
    assert_eq!(u16_from_be_bytes(0x40, 0x01), 0x4001);
    assert_eq!(u32_to_be_bytes(0x0102_0304), [1, 2, 3, 4]);
    assert_eq!(u32_to_be_bytes(u32::MAX), [0xff; 4]);
    assert_eq!(u32_from_be_bytes(0xde, 0xad, 0xbe, 0xef), 0xdead_beef);
    for value in [0u32, 1, 255, 256, 65_535, 65_536, 0x00ff_ffff, 0x0100_0000, u32::MAX] {
        let bytes = u32_to_be_bytes(value);
        assert_eq!(bytes, value.to_be_bytes());
        assert_eq!(u32_from_be_bytes(bytes[0], bytes[1], bytes[2], bytes[3]), value);
    }
    for value in 0..=u16::MAX {
        let bytes = u16_to_be_bytes(value);
        assert_eq!(bytes, value.to_be_bytes());
        assert_eq!(u16_from_be_bytes(bytes[0], bytes[1]), value);
    }
}
