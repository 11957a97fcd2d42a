use phi_recorder::encoder::{
    encoder_probe_args, ffmpeg_writer_args, hardware_candidates, is_vaapi, needs_hardware_probe,
    plan_video_encoder, software_encoder, EncoderOptions,
};
use phi_recorder::graphics::{is_software_renderer, probe_reports_software};
use phi_recorder::host::{
    check_hello_ack, check_shutdown_ack, classify_host_frame, hello_frame, shutdown_frame,
    HostFrameKind,
};
use phi_recorder::protocol::{
    ControlCommand, ControlPayload, Frame, MessageType, ProtocolError, RenderRequestPayload,
    ResourceRootsPayload, JSON_SCHEMA_VERSION,
};
use phi_recorder::session::{HelloOutcome, HostSession, SessionAction, SessionPhase};

fn options() -> EncoderOptions {
    EncoderOptions {
        hevc: false,
        mpeg4: false,
        hardware_accel: true,
        dynamic_bitrate_control: true,
        custom_encoder: None,
    }
}

#[test]
fn encoder_choice_prefers_custom_then_mpeg4_then_hardware() {
    let mut custom = options();
    custom.custom_encoder = Some("h264_vaapi".to_owned());
    assert!(!needs_hardware_probe(&custom));
    let plan = plan_video_encoder(&custom, None);
    assert_eq!(plan.encoder, "h264_vaapi");
    assert_eq!(plan.bitrate_control, "-q");
    assert_eq!(plan.device_args, vec!["-vaapi_device", "/dev/dri/renderD128"]);
    assert_eq!(plan.output_video_filter.as_deref(), Some("format=nv12,hwupload"));

    let mut blank = options();
    blank.custom_encoder = Some("  ".to_owned());
    assert!(needs_hardware_probe(&blank));

    let mut mpeg4 = options();
    mpeg4.mpeg4 = true;
    let plan = plan_video_encoder(&mpeg4, None);
    assert_eq!(plan.encoder, "mpeg4");
    assert_eq!(plan.bitrate_control, "-q");

    let plan = plan_video_encoder(&options(), Some(0));
    assert_eq!(plan.encoder, "h264_nvenc");
    assert_eq!(plan.bitrate_control, "-cq");
    assert_eq!(plan.hardware_encoder_hint(), "h264_nvenc");
    assert!(plan.device_args.is_empty());

    let mut hevc = options();
    hevc.hevc = true;
    let plan = plan_video_encoder(&hevc, None);
    assert_eq!(plan.encoder, "libx265");
    assert_eq!(plan.bitrate_control, "-crf");
    assert_eq!(plan.hardware_encoder_hint(), "");
    assert_eq!(hardware_candidates(&hevc), ["hevc_nvenc", "hevc_qsv", "hevc_amf", "hevc_vaapi"]);

    let mut software = options();
    software.hardware_accel = false;
    software.dynamic_bitrate_control = false;
    assert!(!needs_hardware_probe(&software));
    let plan = plan_video_encoder(&software, Some(1));
    assert_eq!(plan.encoder, "libx264");
    assert_eq!(plan.bitrate_control, "-b:v");
    assert_eq!(software_encoder(true), "libx265");
    assert!(is_vaapi("hevc_vaapi"));
    assert!(!is_vaapi("libx264"));
}

#[test]
fn probe_and_writer_arguments_are_exact() {
    assert_eq!(
        encoder_probe_args("h264_qsv"),
        vec![
            "-f", "lavfi", "-i", "testsrc=size=128x128:rate=5:duration=1", "-pix_fmt", "yuv420p",
            "-c:v", "h264_qsv", "-f", "null", "-", "-loglevel", "error"
        ]
    );
    assert_eq!(
        encoder_probe_args("h264_vaapi"),
        vec![
            "-vaapi_device", "/dev/dri/renderD128", "-f", "lavfi", "-i",
            "testsrc=size=128x128:rate=5:duration=1", "-pix_fmt", "yuv420p", "-vf",
            "format=nv12,hwupload", "-c:v", "h264_vaapi", "-f", "null", "-", "-loglevel", "error"
        ]
    );
    let writer = ffmpeg_writer_args(16, 16, 60, "one-frame.mp4");
    assert_eq!(
        &writer[writer.len() - 9..],
        &["-an", "-c:v", "libx264", "-preset", "ultrafast", "-y", "-loglevel", "error", "one-frame.mp4"]
    );
    assert!(writer.windows(2).any(|pair| pair[0] == "-s" && pair[1] == "16x16"));
}

#[test]
fn software_renderers_are_recognised() {
    assert!(is_software_renderer("llvmpipe (LLVM 15.0.7, 256 bits)"));
    assert!(is_software_renderer("Google SwiftShader"));
    assert!(is_software_renderer("Software Rasterizer"));
    assert!(!is_software_renderer("NVIDIA GeForce RTX 5070 Laptop GPU/PCIe/SSE2"));
    assert!(probe_reports_software("Microsoft Basic Render Driver (software)"));
    assert!(!probe_reports_software("swrast"));
}

fn request(chart: &str) -> RenderRequestPayload {
    RenderRequestPayload {
        schema_version: JSON_SCHEMA_VERSION,
        chart_path: chart.to_owned(),
        output_path: "out.mp4".to_owned(),
        resource_roots: ResourceRootsPayload {
            assets_dir: "assets".to_owned(),
            fonts_dir: "fonts".to_owned(),
            resource_pack_dir: "respacks".to_owned(),
            ffmpeg_path: "ffmpeg".to_owned(),
            temp_dir: "temp".to_owned(),
            renderer_host_path: "renderer-host".to_owned(),
        },
        render_config_json: "{}".to_owned(),
        chart_info_json: None,
    }
}

fn error_text(action: Result<SessionAction, ProtocolError>) -> String {
    match action {
        Ok(SessionAction::Send(frame)) => {
            assert_eq!(frame.message_type, MessageType::Error);
            String::from_utf8(frame.payload).unwrap()
        }
        other => panic!("expected an error frame, got {other:?}"),
    }
}

#[test]
fn handshake_is_acknowledged_and_checked() {
    let mut session = HostSession::new();
    let hello = hello_frame(3);
    let ack = match session.accept_hello(Some(&hello)) {
        HelloOutcome::Accepted(ack) => ack,
        other => panic!("{other:?}"),
    };
    assert_eq!(session.phase, SessionPhase::Running);
    assert_eq!(ack.message_type, MessageType::HelloAck);
    assert_eq!(ack.request_id, 3);
    assert!(check_hello_ack(Some(&ack)).is_ok());
    assert!(matches!(
        check_hello_ack(None),
        Err(ProtocolError::InvalidPayload("missing hello ack"))
    ));
    assert!(matches!(
        check_hello_ack(Some(&hello)),
        Err(ProtocolError::InvalidPayload("unexpected hello ack"))
    ));

    let mut refused = HostSession::new();
    let wrong = Frame::new(MessageType::Hello, 4, 0, vec![2, 0]).unwrap();
    match refused.accept_hello(Some(&wrong)) {
        HelloOutcome::Refused { reply: Some(reply), error: ProtocolError::UnsupportedVersion(2) } => {
            assert_eq!(reply.payload, b"protocol version mismatch".to_vec());
        }
        other => panic!("{other:?}"),
    }
    assert_eq!(refused.phase, SessionPhase::Stopped);

    let mut not_hello = HostSession::new();
    match not_hello.accept_hello(Some(&shutdown_frame(5))) {
        HelloOutcome::Refused { reply: Some(reply), error } => {
            assert_eq!(reply.payload, b"the first message must be hello".to_vec());
            assert!(matches!(error, ProtocolError::InvalidPayload("missing hello message")));
        }
        other => panic!("{other:?}"),
    }
    assert!(matches!(
        HostSession::new().accept_hello(None),
        HelloOutcome::Refused { reply: None, .. }
    ));
}

#[test]
fn one_render_job_at_a_time_and_controls_reach_only_it() {
    let mut session = HostSession::new();
    let _ = session.accept_hello(Some(&hello_frame(1)));

    match session.on_render_request(10, Ok(request("chart.pez"))) {
        Ok(SessionAction::StartRender { job_id, request: started }) => {
            assert_eq!(job_id, 10);
            assert_eq!(started, request("chart.pez"));
        }
        other => panic!("{other:?}"),
    }
    assert_eq!(
        error_text(session.on_render_request(11, Ok(request("other.pez")))),
        "another render job is active"
    );
    assert_eq!(
        error_text(session.on_render_request(12, Ok(request("")))),
        "invalid payload: render request paths cannot be empty"
    );
    assert_eq!(
        error_text(session.on_render_request(13, Err(ProtocolError::Json("eof".to_owned())))),
        "JSON payload error: eof"
    );

    let control = |job_id, schema_version| ControlPayload {
        schema_version,
        job_id,
        command: ControlCommand::Pause,
    };
    assert!(matches!(
        session.on_control(20, Ok(control(10, JSON_SCHEMA_VERSION))),
        Ok(SessionAction::Control(ControlCommand::Pause))
    ));
    assert_eq!(
        error_text(session.on_control(21, Ok(control(99, JSON_SCHEMA_VERSION)))),
        "unknown render job"
    );
    assert_eq!(error_text(session.on_control(22, Ok(control(10, 2)))), "unsupported control schema");

    session.on_job_finished();
    assert_eq!(
        error_text(session.on_control(23, Ok(control(10, JSON_SCHEMA_VERSION)))),
        "unknown render job"
    );
    assert!(matches!(
        session.on_render_request(30, Ok(request("next.pez"))),
        Ok(SessionAction::StartRender { job_id: 30, .. })
    ));
    assert!(matches!(
        session.on_message(MessageType::CapabilityProbe, 31),
        Ok(SessionAction::StartProbe { request_id: 31 })
    ));
    assert_eq!(
        error_text(session.on_message(MessageType::HelloAck, 32)),
        "unexpected message type"
    );
    match session.on_message(MessageType::Shutdown, 33) {
        Ok(SessionAction::Shutdown { cancel_active: true, ack }) => {
            assert_eq!(ack.message_type, MessageType::ShutdownAck);
            assert_eq!(ack.request_id, 33);
            assert!(check_shutdown_ack(Some(&ack)).is_ok());
        }
        other => panic!("{other:?}"),
    }
    assert_eq!(session.phase, SessionPhase::Stopped);
}

#[test]
fn host_frames_are_events_errors_or_ignored() {
    assert_eq!(classify_host_frame(MessageType::Event), HostFrameKind::Event);
    assert_eq!(classify_host_frame(MessageType::Error), HostFrameKind::Error);
    assert_eq!(classify_host_frame(MessageType::CapabilityResult), HostFrameKind::Ignored);
    assert!(matches!(
        check_shutdown_ack(Some(&hello_frame(1))),
        Err(ProtocolError::InvalidPayload("unexpected shutdown ack"))
    ));
}
