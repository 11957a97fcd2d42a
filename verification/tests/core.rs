use phi_recorder::audio::{place_music_samples, tile_ending_pcm};
use phi_recorder::config::{
    validate_max_particles, validate_video_geometry, AudioMixMode, ChallengeColor, Resolution,
};
use phi_recorder::control::{ControlError, ControlRequest, JobControl};
use phi_recorder::decimal::{i64_to_decimal, u64_to_decimal};
use phi_recorder::readback::yuv_readback_layout;
use phi_recorder::request::{validate_request_paths, ResourceRoots};
use phi_recorder::text::{str_ends_with, str_eq, str_is_blank};
use phi_recorder::validation::ValidationError;

#[test]
fn ending_tiles_until_output_is_full() {
    let output = tile_ending_pcm(&[1.0f32, 2.0], 10, 0.0);
    assert_eq!(output, vec![1.0, 2.0, 1.0, 2.0, 1.0, 2.0, 1.0, 2.0, 1.0, 2.0]);
}

#[test]
fn ending_tiling_handles_partial_repeats_and_no_ending() {
    assert_eq!(tile_ending_pcm(&[1, 2, 3], 7, 0), vec![1, 2, 3, 1, 2, 3, 1]);
    assert_eq!(tile_ending_pcm::<i32>(&[], 3, 0), vec![0, 0, 0]);
    assert_eq!(tile_ending_pcm(&[5], 0, 0), Vec::<i32>::new());
}

#[test]
fn music_mix_respects_offset_and_silence_bounds() {
    // Music of 8 samples at 2 Hz, offset 1 s, no lead-in, chart music of 1 s, output of 8:
    // writing starts at sample 0, reading at ceil(1 * 2) * 2 = 4, and the chart covers
    // ceil(1 * 2) * 2 = 4 samples.
    let music = [0.0f32, 1.0, 2.0, 3.0, 4.0, 5.0, 6.0, 7.0];
    let output = place_music_samples(&music, 0, 4, 4, 8, 0.0);
    assert_eq!(&output[..4], &[4.0, 5.0, 6.0, 7.0]);
    assert_eq!(&output[4..8], &[0.0, 0.0, 0.0, 0.0]);
}

#[test]
fn music_window_is_bounded_by_music_output_and_chart() {
    let music = [1, 2, 3, 4, 5];
    assert_eq!(place_music_samples(&music, 2, 1, 10, 6, 0), vec![0, 0, 2, 3, 4, 5]);
    assert_eq!(place_music_samples(&music, 2, 0, 4, 8, 0), vec![0, 0, 1, 2, 0, 0, 0, 0]);
    assert_eq!(place_music_samples(&music, 3, 0, 2, 8, 0), vec![0; 8]);
    assert_eq!(place_music_samples(&music, 0, 5, 9, 3, 0), vec![0; 3]);
}

#[test]
fn decimal_text_matches_to_string() {
    for value in [0u64, 7, 10, 99, 1920, 44100, u64::MAX] {
        assert_eq!(u64_to_decimal(value), value.to_string());
    }
    for value in [0i64, -1, 99, -99, i64::MIN, i64::MAX] {
        assert_eq!(i64_to_decimal(value), value.to_string());
    }
}

#[test]
fn string_helpers_match_std() {
    assert!(str_eq("h264_nvenc", "h264_nvenc"));
    assert!(!str_eq("h264_nvenc", "h264_nvenc "));
    assert!(str_ends_with("hevc_vaapi", "_vaapi"));
    assert!(!str_ends_with("vaapi", "_vaapi"));
    assert!(str_is_blank(" \t\u{3000}\n"));
    assert!(str_is_blank(""));
    assert!(!str_is_blank(" x "));
}

#[test]
fn enum_numbers_map_to_variants_and_refuse_others() {
    assert_eq!(ChallengeColor::try_from(0), Ok(ChallengeColor::White));
    assert_eq!(ChallengeColor::try_from(5), Ok(ChallengeColor::Rainbow));
    assert_eq!(
        ChallengeColor::try_from(-3),
        Err(ValidationError::InvalidEnum { field: "challenge_color", value: "-3".to_owned() })
    );
    assert_eq!(AudioMixMode::try_from(1), Ok(AudioMixMode::Optimized));
    assert_eq!(
        AudioMixMode::try_from(99),
        Err(ValidationError::InvalidEnum { field: "audio_mix_mode", value: "99".to_owned() })
    );
}

#[test]
fn odd_resolution_geometry_is_rejected_for_yuv420() {
    let hd = Resolution { width: 1920, height: 1080 };
    assert_eq!(validate_video_geometry(hd, 60), Ok(()));
    assert_eq!(
        validate_video_geometry(Resolution { width: 1919, height: 1080 }, 60),
        Err(ValidationError::EvenResolution)
    );
    assert_eq!(
        validate_video_geometry(Resolution { width: 0, height: 1080 }, 60),
        Err(ValidationError::NonPositive("resolution"))
    );
    assert_eq!(validate_video_geometry(hd, 0), Err(ValidationError::NonPositive("fps")));
    assert_eq!(validate_max_particles(0), Err(ValidationError::NonPositive("max_particles")));
    assert_eq!(validate_max_particles(5000), Ok(()));
}

#[test]
fn request_paths_are_required_in_order() {
    assert_eq!(validate_request_paths("", ""), Err(ValidationError::MissingPath("chart_path")));
    assert_eq!(
        validate_request_paths("chart.pez", ""),
        Err(ValidationError::MissingPath("output_path"))
    );
    assert_eq!(validate_request_paths("chart.pez", "out.mp4"), Ok(()));
}

#[test]
fn validation_errors_print_as_text() {
    assert_eq!(ValidationError::MissingPath("chart_path").to_string(), "missing path: chart_path");
    assert_eq!(ValidationError::NonPositive("fps").to_string(), "value must be positive: fps");
    assert_eq!(
        ValidationError::NonNegative("volume_sfx").to_string(),
        "value must be non-negative: volume_sfx"
    );
    assert_eq!(
        ValidationError::Positive("speed").to_string(),
        "value must be greater than zero: speed"
    );
    assert_eq!(
        ValidationError::EvenResolution.to_string(),
        "resolution must have even width and height"
    );
    assert_eq!(
        ValidationError::GreaterThan { field: "play_end_time", other: "play_start_time" }
            .to_string(),
        "play_end_time must be greater than play_start_time"
    );
    assert_eq!(
        ValidationError::InvalidEnum { field: "audio_mix_mode", value: "99".to_owned() }
            .to_string(),
        "invalid audio_mix_mode: 99"
    );
}

fn roots() -> ResourceRoots {
    ResourceRoots {
        assets_dir: "assets".to_owned(),
        fonts_dir: "fonts".to_owned(),
        resource_pack_dir: String::new(),
        ffmpeg_path: "ffmpeg".to_owned(),
        temp_dir: "temp".to_owned(),
        renderer_host_path: "renderer-host".to_owned(),
    }
}

#[test]
fn resource_roots_require_assets_fonts_temp_host_then_ffmpeg() {
    assert_eq!(roots().validate(), Ok(()));
    let mut missing_fonts = roots();
    missing_fonts.fonts_dir.clear();
    missing_fonts.temp_dir.clear();
    assert_eq!(missing_fonts.validate(), Err(ValidationError::MissingPath("fonts_dir")));
    let mut missing_ffmpeg = roots();
    missing_ffmpeg.ffmpeg_path.clear();
    missing_ffmpeg.temp_dir.clear();
    assert_eq!(missing_ffmpeg.validate(), Err(ValidationError::MissingPath("temp_dir")));
    missing_ffmpeg.temp_dir.push_str("temp");
    missing_ffmpeg.renderer_host_path.clear();
    assert_eq!(
        missing_ffmpeg.validate(),
        Err(ValidationError::MissingPath("renderer_host_path"))
    );
    missing_ffmpeg.renderer_host_path.push_str("renderer-host");
    assert_eq!(missing_ffmpeg.validate(), Err(ValidationError::MissingPath("ffmpeg_path")));
    missing_ffmpeg.resource_pack_dir.clear();
    missing_ffmpeg.ffmpeg_path.push_str("ffmpeg");
    assert_eq!(missing_ffmpeg.validate(), Ok(()));
    let mut missing_host = roots();
    missing_host.renderer_host_path.clear();
    assert_eq!(missing_host.validate(), Err(ValidationError::MissingPath("renderer_host_path")));
    let payload = roots().to_payload();
    assert_eq!(ResourceRoots::from_payload(&payload), roots());
}

#[test]
fn cancel_is_final_and_clears_pause() {
    let mut control = JobControl::default();
    assert_eq!(control.wait_if_paused(), Some(Ok(())));
    control.pause();
    assert!(control.is_pause_requested());
    assert_eq!(control.wait_if_paused(), None);
    control.resume();
    assert_eq!(control.wait_if_paused(), Some(Ok(())));
    control.pause();
    control.cancel();
    assert!(control.is_cancel_requested());
    assert!(!control.is_pause_requested());
    for request in [ControlRequest::Pause, ControlRequest::Resume, ControlRequest::Pause] {
        control.request(request);
        assert!(control.is_cancel_requested());
        assert!(!control.is_pause_requested());
        assert_eq!(control.wait_if_paused(), Some(Err(ControlError::Canceled)));
    }
}

#[test]
fn readback_layout_packs_yuv420_into_rgba_rows() {
    let layout = yuv_readback_layout(1920, 1080).unwrap();
    assert_eq!(layout.width, 1920);
    assert_eq!(layout.yuv_height, 405);
    assert_eq!(layout.output_byte_size, 1920 * 1080 * 3 / 2);
    assert_eq!(layout.packed_byte_size, 1920 * 405 * 4);
    assert!(layout.packed_byte_size >= layout.output_byte_size);
    assert_eq!(yuv_readback_layout(16, 10).unwrap().yuv_height, 4);
    assert_eq!(
        yuv_readback_layout(1919, 1080).unwrap_err(),
        "YUV420 readback requires even dimensions"
    );
}
