use phi_recorder::protocol::{
    decode_protocol_version, encode_error, encode_protocol_version, read_frame, write_frame,
    ControlCommand, Frame, IoError, MessageType, ProtocolError, RenderRequestPayload,
    ResourceRootsPayload, FRAME_HEADER_SIZE, FRAME_MAGIC, JSON_SCHEMA_VERSION, MAX_PAYLOAD_SIZE,
    PROTOCOL_VERSION,
};

#[test]
fn frame_round_trip_preserves_header_and_payload() {
    let frame = Frame::new(MessageType::Event, 42, 7, b"payload".to_vec()).unwrap();
    let mut encoded = Vec::new();
    write_frame(&mut encoded, &frame).unwrap();

    let decoded = read_frame(encoded.as_slice()).unwrap().unwrap();
    assert_eq!(decoded, frame);
}

#[test]
fn eof_before_a_frame_is_not_an_error() {
    let decoded = read_frame(&[][..]).unwrap();
    assert_eq!(decoded, None);
}

#[test]
fn truncated_frame_is_an_error() {
    let result = read_frame(&FRAME_MAGIC[..]).unwrap_err();
    assert!(matches!(result, ProtocolError::Io(_)));
}

#[test]
fn oversized_payload_is_rejected_before_allocation() {
    let mut encoded = [0u8; FRAME_HEADER_SIZE];
    encoded[0..4].copy_from_slice(&FRAME_MAGIC);
    encoded[4..6].copy_from_slice(&PROTOCOL_VERSION.to_le_bytes());
    encoded[6..8].copy_from_slice(&(MessageType::Event.as_u16()).to_le_bytes());
    encoded[16..20].copy_from_slice(&((MAX_PAYLOAD_SIZE as u32) + 1).to_le_bytes());

    let result = read_frame(encoded.as_slice()).unwrap_err();
    assert!(matches!(result, ProtocolError::PayloadTooLarge(_)));
}

#[test]
fn capability_messages_have_stable_numeric_values() {
    assert_eq!(MessageType::CapabilityProbe.as_u16(), 9);
    assert_eq!(MessageType::CapabilityResult.as_u16(), 10);
}

#[test]
fn frame_bytes_follow_the_documented_layout() {
    let frame = Frame::new(MessageType::Control, 0x0102030405060708, 0xA0B0C0D0, vec![9, 8]).unwrap();
    let mut encoded = vec![0xEE];
    write_frame(&mut encoded, &frame).unwrap();
    assert_eq!(
        encoded,
        vec![
            0xEE, b'P', b'H', b'I', b'R', 1, 0, 4, 0, 8, 7, 6, 5, 4, 3, 2, 1, 2, 0, 0, 0, 0xD0,
            0xC0, 0xB0, 0xA0, 9, 8
        ]
    );
}

#[test]
fn trailing_bytes_after_a_frame_are_left_unread() {
    let frame = Frame::new(MessageType::Hello, 1, 0, encode_protocol_version()).unwrap();
    let mut encoded = Vec::new();
    write_frame(&mut encoded, &frame).unwrap();
    encoded.extend_from_slice(b"next");
    assert_eq!(read_frame(&encoded).unwrap(), Some(frame));
}

#[test]
fn every_message_type_survives_its_wire_number() {
    for raw in 1u16..=10 {
        assert_eq!(MessageType::from_raw(raw).unwrap().as_u16(), raw);
    }
    assert!(matches!(MessageType::from_raw(0), Err(ProtocolError::UnknownMessageType(0))));
    assert!(matches!(MessageType::from_raw(11), Err(ProtocolError::UnknownMessageType(11))));
}

#[test]
fn header_checks_report_the_first_fault() {
    let frame = Frame::new(MessageType::Event, 5, 0, vec![1, 2, 3]).unwrap();
    let mut good = Vec::new();
    write_frame(&mut good, &frame).unwrap();

    let mut bad_magic = good.clone();
    bad_magic[0] = b'X';
    assert!(matches!(
        read_frame(&bad_magic),
        Err(ProtocolError::InvalidMagic([b'X', b'H', b'I', b'R']))
    ));

    let mut bad_version = good.clone();
    bad_version[4] = 2;
    assert!(matches!(read_frame(&bad_version), Err(ProtocolError::UnsupportedVersion(2))));

    let mut bad_type = good.clone();
    bad_type[6] = 0x2A;
    assert!(matches!(read_frame(&bad_type), Err(ProtocolError::UnknownMessageType(0x2A))));

    let truncated_payload = &good[..good.len() - 1];
    assert!(matches!(
        read_frame(truncated_payload),
        Err(ProtocolError::Io(IoError::UnexpectedEof))
    ));
}

#[test]
fn oversized_frames_are_refused_on_both_sides() {
    let payload = vec![0u8; MAX_PAYLOAD_SIZE + 1];
    assert!(matches!(
        Frame::new(MessageType::Event, 1, 0, payload.clone()),
        Err(ProtocolError::PayloadTooLarge(n)) if n == MAX_PAYLOAD_SIZE + 1
    ));
    let frame = Frame { message_type: MessageType::Event, request_id: 1, flags: 0, payload };
    let mut out = vec![1, 2];
    assert!(matches!(write_frame(&mut out, &frame), Err(ProtocolError::PayloadTooLarge(_))));
    assert_eq!(out, vec![1, 2]);
}

#[test]
fn protocol_version_payload_is_two_little_endian_bytes() {
    assert_eq!(encode_protocol_version(), vec![1, 0]);
    assert_eq!(decode_protocol_version(&[1, 0]).unwrap(), 1);
    assert_eq!(decode_protocol_version(&[0x34, 0x12]).unwrap(), 0x1234);
    let error = decode_protocol_version(&[1]).unwrap_err();
    assert!(matches!(error, ProtocolError::InvalidPayload("protocol version must be two bytes")));
}

#[test]
fn error_payload_is_utf8_text() {
    assert_eq!(encode_error("bad"), b"bad".to_vec());
    assert_eq!(encode_error("谱面"), "谱面".as_bytes().to_vec());
}

fn request() -> RenderRequestPayload {
    RenderRequestPayload {
        schema_version: JSON_SCHEMA_VERSION,
        chart_path: "chart.pez".to_owned(),
        output_path: "output.mp4".to_owned(),
        resource_roots: ResourceRootsPayload {
            assets_dir: "assets".to_owned(),
            fonts_dir: "fonts".to_owned(),
            resource_pack_dir: "respacks".to_owned(),
            ffmpeg_path: "ffmpeg".to_owned(),
            temp_dir: "temp".to_owned(),
            renderer_host_path: "renderer-host".to_owned(),
        },
        render_config_json: "{}".to_owned(),
        chart_info_json: None,
    }
}

#[test]
fn render_request_validation_reports_each_fault() {
    assert!(request().validate().is_ok());

    let mut wrong_schema = request();
    wrong_schema.schema_version = 2;
    assert!(matches!(
        wrong_schema.validate(),
        Err(ProtocolError::InvalidPayload("unsupported render request schema"))
    ));

    let mut no_output = request();
    no_output.output_path.clear();
    assert!(matches!(
        no_output.validate(),
        Err(ProtocolError::InvalidPayload("render request paths cannot be empty"))
    ));

    let mut no_config = request();
    no_config.render_config_json.clear();
    assert!(matches!(
        no_config.validate(),
        Err(ProtocolError::InvalidPayload("render config cannot be empty"))
    ));
}

#[test]
fn protocol_errors_print_as_text() {
    assert_eq!(
        ProtocolError::InvalidMagic([80, 72, 73, 0]).to_string(),
        "invalid frame magic: [80, 72, 73, 0]"
    );
    assert_eq!(
        ProtocolError::UnsupportedVersion(3).to_string(),
        "unsupported protocol version: 3"
    );
    assert_eq!(ProtocolError::UnknownMessageType(42).to_string(), "unknown message type: 42");
    assert_eq!(
        ProtocolError::PayloadTooLarge(67108865).to_string(),
        "payload is too large: 67108865"
    );
    assert_eq!(
        ProtocolError::InvalidPayload("missing hello message").to_string(),
        "invalid payload: missing hello message"
    );
    assert_eq!(
        ProtocolError::Json("expected value".to_owned()).to_string(),
        "JSON payload error: expected value"
    );
    assert_eq!(
        ProtocolError::Io(IoError::UnexpectedEof).to_string(),
        "I/O error: failed to fill whole buffer"
    );
    let _ = ControlCommand::Pause;
}
