use phi_recorder::abi::{
    check_tag_list, chart_path_from_view, copy_tags, copy_utf8, format_value,
    optional_flagged_string, optional_string, parse_format, phi_abi_version,
    phi_job_state_t, phi_struct_header_t, validate_header, write_bytes, BufferWrite, ChartFormat,
    MAX_TAG_COUNT, PHI_ABI_VERSION, PHI_STATUS_ABI_MISMATCH, PHI_STATUS_BUFFER_TOO_SMALL,
    PHI_STATUS_BUSY, PHI_STATUS_INVALID_ARGUMENT, PHI_STATUS_INVALID_CONFIG,
    PHI_STATUS_INVALID_UTF8, PHI_STATUS_OK,
};
use phi_recorder::context::{phi_context, resource_roots_from_ffi};
use phi_recorder::job::{
    build_request_payload, check_submission, dispatch_step, dispatch_stops, event_to_state,
    is_terminal, render_events, DispatchOutcome, JobEventTag, RenderOutcome,
};
use phi_recorder::protocol::{ControlCommand, JSON_SCHEMA_VERSION};

fn options_roots(ffmpeg: Option<&[u8]>) -> Result<phi_recorder::request::ResourceRoots, i32> {
    resource_roots_from_ffi(
        Some(b"assets"),
        Some(b"fonts"),
        Some(b"respacks"),
        ffmpeg,
        Some(b"temp"),
        Some(b"renderer-host"),
    )
}

#[test]
fn context_owns_explicit_resource_roots() {
    let roots = options_roots(Some(b"ffmpeg")).unwrap();

    assert_eq!(roots.assets_dir, "assets");
    assert_eq!(roots.ffmpeg_path, "ffmpeg");
}

#[test]
fn context_rejects_missing_resource_roots() {
    assert_eq!(options_roots(Some(b"")), Err(PHI_STATUS_INVALID_CONFIG));
    let missing_temp = resource_roots_from_ffi(
        Some(b"assets"),
        Some(b"fonts"),
        Some(b"respacks"),
        Some(b"ffmpeg"),
        Some(b""),
        Some(b"renderer-host"),
    );
    assert_eq!(missing_temp, Err(PHI_STATUS_INVALID_CONFIG));
    assert_eq!(options_roots(None), Err(PHI_STATUS_INVALID_ARGUMENT));
    assert_eq!(options_roots(Some(&[0xFF, 0xFE])), Err(PHI_STATUS_INVALID_UTF8));
}

#[test]
fn string_views_copy_as_utf8() {
    assert_eq!(copy_utf8(Some(b"")), Ok(String::new()));
    assert_eq!(copy_utf8(Some("谱面".as_bytes())), Ok("谱面".to_owned()));
    assert_eq!(copy_utf8(None), Err(PHI_STATUS_INVALID_ARGUMENT));
    assert_eq!(copy_utf8(Some(&[0xC3])), Err(PHI_STATUS_INVALID_UTF8));
    assert_eq!(optional_string(Some(b"")), Ok(None));
    assert_eq!(optional_string(Some(b"x")), Ok(Some("x".to_owned())));
    assert_eq!(optional_flagged_string(Some(b"x"), 0), Ok(None));
    assert_eq!(optional_flagged_string(Some(b""), 1), Ok(Some(String::new())));
    assert_eq!(optional_flagged_string(None, 1), Err(PHI_STATUS_INVALID_CONFIG));
    assert_eq!(optional_flagged_string(Some(&[0xFF]), 1), Err(PHI_STATUS_INVALID_UTF8));
}

#[test]
fn headers_must_match_the_abi() {
    assert_eq!(phi_abi_version(), PHI_ABI_VERSION);
    assert_eq!(validate_header(64, PHI_ABI_VERSION, 64), PHI_STATUS_OK);
    assert_eq!(validate_header(80, PHI_ABI_VERSION, 64), PHI_STATUS_OK);
    assert_eq!(validate_header(63, PHI_ABI_VERSION, 64), PHI_STATUS_ABI_MISMATCH);
    assert_eq!(validate_header(64, 2, 64), PHI_STATUS_ABI_MISMATCH);
}

#[test]
fn chart_formats_have_stable_numbers() {
    for (format, number) in [
        (ChartFormat::Rpe, 0),
        (ChartFormat::Pec, 1),
        (ChartFormat::Pgr, 2),
        (ChartFormat::Pbc, 3),
    ] {
        assert_eq!(format_value(format), number);
        assert_eq!(parse_format(number), Ok(format));
    }
    assert_eq!(parse_format(4), Err(PHI_STATUS_INVALID_CONFIG));
    assert_eq!(parse_format(-1), Err(PHI_STATUS_INVALID_CONFIG));
}

#[test]
fn job_states_have_stable_numbers() {
    assert_eq!(phi_job_state_t::Pending.as_i32(), 0);
    assert_eq!(phi_job_state_t::Done.as_i32(), 5);
    assert_eq!(phi_job_state_t::Failed.as_i32(), 7);
}

#[test]
fn output_buffers_get_the_required_length_and_no_overflow() {
    let ok = BufferWrite { status: PHI_STATUS_OK, required: Some(5), copy_len: 5 };
    assert_eq!(write_bytes(5, true, 8, true), ok);
    assert_eq!(
        write_bytes(5, true, 4, true),
        BufferWrite { status: PHI_STATUS_BUFFER_TOO_SMALL, required: Some(5), copy_len: 0 }
    );
    assert_eq!(
        write_bytes(5, false, 0, true),
        BufferWrite { status: PHI_STATUS_INVALID_ARGUMENT, required: Some(5), copy_len: 0 }
    );
    assert_eq!(
        write_bytes(0, false, 0, true),
        BufferWrite { status: PHI_STATUS_OK, required: Some(0), copy_len: 0 }
    );
    assert_eq!(
        write_bytes(5, true, 8, false),
        BufferWrite { status: PHI_STATUS_INVALID_ARGUMENT, required: None, copy_len: 0 }
    );
}

#[test]
fn context_keeps_errors_and_one_job() {
    let header = phi_struct_header_t { struct_size: 104, abi_version: PHI_ABI_VERSION };
    let roots = options_roots(Some(b"ffmpeg"));
    assert!(matches!(
        phi_context::create(phi_struct_header_t { struct_size: 8, ..header }, 104, roots.clone()),
        Err(PHI_STATUS_ABI_MISMATCH)
    ));
    assert!(matches!(
        phi_context::create(header, 104, Err(PHI_STATUS_INVALID_UTF8)),
        Err(PHI_STATUS_INVALID_UTF8)
    ));
    let mut context = phi_context::create(header, 104, roots.clone()).unwrap();
    assert_eq!(context.resource_roots(), &roots.unwrap());
    assert_eq!(context.last_error(), "");
    context.set_error("load failed".to_owned());
    assert_eq!(context.last_error(), "load failed");
    assert_eq!(
        context.get_last_error(true, 4, true),
        BufferWrite { status: PHI_STATUS_BUFFER_TOO_SMALL, required: Some(11), copy_len: 0 }
    );
    assert_eq!(context.clear_error(), PHI_STATUS_OK);
    assert_eq!(context.last_error(), "");

    assert_eq!(context.begin_job(1), PHI_STATUS_OK);
    assert!(context.is_busy());
    assert_eq!(context.begin_job(2), PHI_STATUS_BUSY);
    context.end_job(2);
    assert!(context.is_busy());
    context.end_job(1);
    assert!(!context.is_busy());
    assert_eq!(context.begin_job(2), PHI_STATUS_OK);
}

#[test]
fn tags_and_chart_paths_copy_or_refuse() {
    assert_eq!(check_tag_list(0, false), Ok(0));
    assert_eq!(check_tag_list(3, false), Err(PHI_STATUS_INVALID_CONFIG));
    assert_eq!(check_tag_list(MAX_TAG_COUNT + 1, true), Err(PHI_STATUS_INVALID_CONFIG));
    assert_eq!(check_tag_list(2, true), Ok(2));
    let good: Vec<Option<&[u8]>> = vec![Some(b"hard"), Some(b"")];
    assert_eq!(copy_tags(&good), Ok(vec!["hard".to_owned(), String::new()]));
    let bad: Vec<Option<&[u8]>> = vec![Some(b"hard"), None];
    assert_eq!(copy_tags(&bad), Err(PHI_STATUS_INVALID_CONFIG));
    assert_eq!(chart_path_from_view(Some(b"chart.pez")), Ok("chart.pez".to_owned()));
    assert_eq!(chart_path_from_view(Some(b"")), Err(PHI_STATUS_INVALID_CONFIG));
    assert_eq!(chart_path_from_view(None), Err(PHI_STATUS_INVALID_ARGUMENT));
}

#[test]
fn events_move_jobs_through_states() {
    assert_eq!(event_to_state(JobEventTag::Started), phi_job_state_t::Loading);
    assert_eq!(event_to_state(JobEventTag::ResourcesReady), phi_job_state_t::Mixing);
    assert_eq!(event_to_state(JobEventTag::FrameReady), phi_job_state_t::Rendering);
    assert_eq!(event_to_state(JobEventTag::Resumed), phi_job_state_t::Rendering);
    assert_eq!(event_to_state(JobEventTag::Paused), phi_job_state_t::Paused);
    assert_eq!(event_to_state(JobEventTag::Failed), phi_job_state_t::Failed);
    assert!(is_terminal(JobEventTag::Done));
    assert!(is_terminal(JobEventTag::Canceled));
    assert!(!is_terminal(JobEventTag::Rendering));
}

#[test]
fn submissions_are_checked_in_order() {
    let header = phi_struct_header_t { struct_size: 64, abi_version: PHI_ABI_VERSION };
    assert_eq!(check_submission(false, header, 64, true), PHI_STATUS_INVALID_ARGUMENT);
    assert_eq!(
        check_submission(true, phi_struct_header_t { abi_version: 9, ..header }, 64, true),
        PHI_STATUS_ABI_MISMATCH
    );
    assert_eq!(check_submission(true, header, 64, true), PHI_STATUS_BUSY);
    assert_eq!(check_submission(true, header, 64, false), PHI_STATUS_OK);
}

#[test]
fn request_payload_carries_roots_paths_and_config() {
    let roots = options_roots(Some(b"ffmpeg")).unwrap();
    let payload = build_request_payload(
        &roots,
        Some(b"missing.pez"),
        Some(b"out.mp4"),
        "{}".to_owned(),
        None,
    )
    .unwrap();
    assert_eq!(payload.schema_version, JSON_SCHEMA_VERSION);
    assert_eq!(payload.chart_path, "missing.pez");
    assert_eq!(payload.output_path, "out.mp4");
    assert_eq!(payload.resource_roots.renderer_host_path, "renderer-host");
    assert!(payload.validate().is_ok());
    assert_eq!(
        build_request_payload(&roots, None, Some(b"out.mp4"), "{}".to_owned(), None),
        Err(PHI_STATUS_INVALID_ARGUMENT)
    );
}

#[test]
fn dispatcher_relays_requests_and_stops_on_final_states() {
    let step = dispatch_step(false, false, true, None, false);
    assert_eq!(step.control, Some(ControlCommand::Pause));
    assert_eq!(step.outcome, DispatchOutcome::Idle);
    assert!(step.pause_sent);
    assert!(!dispatch_stops(step.outcome));

    let step = dispatch_step(true, false, true, Some(JobEventTag::Paused), false);
    assert_eq!(step.control, None);
    assert_eq!(
        step.outcome,
        DispatchOutcome::Event { state: phi_job_state_t::Paused, terminal: false }
    );

    let step = dispatch_step(true, false, false, Some(JobEventTag::Done), true);
    assert_eq!(step.control, Some(ControlCommand::Resume));
    assert!(dispatch_stops(step.outcome));

    let step = dispatch_step(false, false, false, None, true);
    assert_eq!(step.outcome, DispatchOutcome::HostExited);
    assert!(dispatch_stops(step.outcome));

    let step = dispatch_step(false, true, true, Some(JobEventTag::Rendering), false);
    assert_eq!(step.control, None);
    assert_eq!(step.outcome, DispatchOutcome::Canceled);
}

#[test]
fn host_reports_one_terminal_event_last() {
    assert_eq!(
        render_events(RenderOutcome::Rendered { ok: true }),
        vec![JobEventTag::Started, JobEventTag::Loading, JobEventTag::ResourcesReady, JobEventTag::FrameReady, JobEventTag::Done]
    );
    assert_eq!(
        render_events(RenderOutcome::Rendered { ok: false }),
        vec![JobEventTag::Started, JobEventTag::Loading, JobEventTag::ResourcesReady, JobEventTag::Failed]
    );
    assert_eq!(
        render_events(RenderOutcome::CanceledAfterPrepare),
        vec![JobEventTag::Started, JobEventTag::Loading, JobEventTag::Canceled]
    );
    assert_eq!(
        render_events(RenderOutcome::PrepareFailed { canceled: true }),
        vec![JobEventTag::Started, JobEventTag::Loading, JobEventTag::Canceled]
    );
    assert_eq!(
        render_events(RenderOutcome::PrepareFailed { canceled: false }),
        vec![JobEventTag::Started, JobEventTag::Loading, JobEventTag::Failed]
    );
}
