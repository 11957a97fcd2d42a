use phi_recorder::abi::{
    phi_struct_header_t, ChartFormat, PHI_ABI_VERSION, PHI_STATUS_ABI_MISMATCH,
    PHI_STATUS_INVALID_ARGUMENT, PHI_STATUS_INVALID_CONFIG, PHI_STATUS_INVALID_UTF8,
};
use phi_recorder::config::{AudioMixMode, ChallengeColor};
use phi_recorder::view_fields::{
    chart_texts_from_views, config_texts_from_views, optional_instant, ChartViews, ConfigViews,
};

fn config_views() -> ConfigViews<'static> {
    ConfigViews {
        custom_encoder: Some(b""),
        bitrate: Some(b"28"),
        challenge_color: 5,
        player_avatar: Some(b""),
        player_name: Some(b"HLMC"),
        resource_pack_path: Some(b"packs/default"),
        audio_mix_mode: 1,
        watermark: Some(b""),
        combo: Some(b"AUTOPLAY"),
        difficulty: Some(b""),
        file_name_format: Some(b"%date% %time% %info.name%_%level_prefix%"),
    }
}

#[test]
fn config_fields_copy_with_empty_optionals_unset() {
    let texts = config_texts_from_views(&config_views()).unwrap();
    assert_eq!(texts.custom_encoder, None);
    assert_eq!(texts.bitrate, "28");
    assert_eq!(texts.challenge_color, ChallengeColor::Rainbow);
    assert_eq!(texts.player_avatar, None);
    assert_eq!(texts.player_name, "HLMC");
    assert_eq!(texts.resource_pack_path.as_deref(), Some("packs/default"));
    assert_eq!(texts.audio_mix_mode, AudioMixMode::Optimized);
    assert_eq!(texts.combo, "AUTOPLAY");
    assert_eq!(texts.file_name_format, "%date% %time% %info.name%_%level_prefix%");
}

#[test]
fn config_fields_report_the_first_failure() {
    let mut views = config_views();
    views.audio_mix_mode = 99;
    assert_eq!(
        config_texts_from_views(&views).unwrap_err(),
        PHI_STATUS_INVALID_CONFIG
    );

    views.player_name = Some(b"\xff");
    assert_eq!(config_texts_from_views(&views).unwrap_err(), PHI_STATUS_INVALID_UTF8);

    views.bitrate = None;
    assert_eq!(
        config_texts_from_views(&views).unwrap_err(),
        PHI_STATUS_INVALID_ARGUMENT
    );

    let mut views = config_views();
    views.challenge_color = -1;
    views.watermark = None;
    assert_eq!(
        config_texts_from_views(&views).unwrap_err(),
        PHI_STATUS_INVALID_CONFIG
    );
}

fn chart_views<'a>(tags: &'a Vec<Option<&'a [u8]>>) -> ChartViews<'a> {
    ChartViews {
        header: phi_struct_header_t {
            struct_size: 400,
            abi_version: PHI_ABI_VERSION,
        },
        expected_size: 400,
        guid: Some(b""),
        has_guid: 0,
        name: Some(b"UK"),
        level: Some(b"SP Lv.?"),
        charter: Some(b"someone"),
        composer: Some(b""),
        illustrator: Some(b""),
        chart: Some(b"chart.json"),
        format: 0,
        has_format: 1,
        music: Some(b"music.ogg"),
        illustration: Some(b"bg.png"),
        unlock_video: Some(b""),
        has_unlock_video: 0,
        tip: Some(b"good luck"),
        has_tip: 1,
        tag_count: tags.len(),
        tags_present: true,
        tags,
        intro: Some(b""),
    }
}

#[test]
fn chart_fields_copy_with_flags_formats_and_tags() {
    let tags: Vec<Option<&[u8]>> = vec![Some(b"hard"), Some(b"")];
    let texts = chart_texts_from_views(&chart_views(&tags)).unwrap();
    assert_eq!(texts.guid, None);
    assert_eq!(texts.name, "UK");
    assert_eq!(texts.level, "SP Lv.?");
    assert_eq!(texts.chart, "chart.json");
    assert_eq!(texts.format, Some(ChartFormat::Rpe));
    assert_eq!(texts.unlock_video, None);
    assert_eq!(texts.tip.as_deref(), Some("good luck"));
    assert_eq!(texts.tags, vec!["hard".to_owned(), String::new()]);
    assert_eq!(texts.intro, "");
}

#[test]
fn chart_fields_report_the_first_failure() {
    let tags: Vec<Option<&[u8]>> = vec![Some(b"\xff")];
    let mut views = chart_views(&tags);
    assert_eq!(
        chart_texts_from_views(&views).unwrap_err(),
        PHI_STATUS_INVALID_CONFIG
    );

    views.has_tip = 1;
    views.tip = Some(b"\xc3");
    assert_eq!(chart_texts_from_views(&views).unwrap_err(), PHI_STATUS_INVALID_UTF8);

    views.format = 7;
    assert_eq!(
        chart_texts_from_views(&views).unwrap_err(),
        PHI_STATUS_INVALID_CONFIG
    );

    views.header.abi_version = PHI_ABI_VERSION + 1;
    assert_eq!(
        chart_texts_from_views(&views).unwrap_err(),
        PHI_STATUS_ABI_MISMATCH
    );

    let empty: Vec<Option<&[u8]>> = Vec::new();
    let mut views = chart_views(&empty);
    views.tag_count = 3;
    views.tags_present = false;
    assert_eq!(
        chart_texts_from_views(&views).unwrap_err(),
        PHI_STATUS_INVALID_CONFIG
    );
    views.has_guid = 1;
    views.guid = None;
    assert_eq!(
        chart_texts_from_views(&views).unwrap_err(),
        PHI_STATUS_INVALID_CONFIG
    );
}

#[test]
fn chart_timestamps_parse_as_rfc3339_instants() {
    assert_eq!(
        optional_instant(Some(b"2024-01-02T03:04:05Z"), 1),
        Ok(Some((1_704_164_645, 0)))
    );
    assert_eq!(
        optional_instant(Some(b"2024-01-02T03:04:05.5+08:00"), 1),
        Ok(Some((1_704_164_645 - 8 * 3600, 500_000_000)))
    );
    assert_eq!(optional_instant(Some(b"2024-01-02"), 1), Err(PHI_STATUS_INVALID_CONFIG));
    assert_eq!(optional_instant(Some(b"garbage"), 0), Ok(None));
    assert_eq!(optional_instant(None, 1), Err(PHI_STATUS_INVALID_CONFIG));
    assert_eq!(optional_instant(Some(b"\xff"), 1), Err(PHI_STATUS_INVALID_UTF8));
}
