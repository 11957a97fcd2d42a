//! The text and enumeration fields of the C render configuration and chart-information
//! structs, copied from the caller's views in the order in which the structs are read. The
//! first field that cannot be copied decides the status.
use vstd::prelude::*;

use crate::abi::{
    bytes_view, check_tag_list, copied_utf8, copy_tags, copy_utf8,
    format_of, header_ok, optional_flagged_string, optional_string, parse_format,
    phi_status_t, phi_struct_header_t, validate_header, ChartFormat, MAX_TAG_COUNT,
    PHI_STATUS_ABI_MISMATCH, PHI_STATUS_INVALID_ARGUMENT, PHI_STATUS_INVALID_CONFIG,
    PHI_STATUS_INVALID_UTF8, PHI_STATUS_OK,
};
use crate::config::{AudioMixMode, ChallengeColor};

verus! {

/// The status of the first step that failed, given the outcome of each step in order.
pub open spec fn first_error(outcomes: Seq<Option<phi_status_t>>) -> Option<phi_status_t>
    decreases outcomes.len(),
{
    if outcomes.len() == 0 {
        None
    } else {
        match outcomes[0] {
            Some(s) => Some(s),
            None => first_error(outcomes.drop_first()),
        }
    }
}

proof fn lemma_first_error_step(outcomes: Seq<Option<phi_status_t>>)
    requires
        outcomes.len() > 0,
    ensures
        outcomes[0] is Some ==> first_error(outcomes) == outcomes[0],
        outcomes[0] is None ==> first_error(outcomes) == first_error(outcomes.drop_first()),
{
}

/// How copying a view ends: `None` when it copies, else its status.
pub open spec fn copy_outcome(view: Option<Seq<u8>>) -> Option<phi_status_t> {
    match copied_utf8(view) {
        Err(s) => Some(s),
        Ok(_) => None,
    }
}

/// The text that a view copies to (empty when it does not copy).
pub open spec fn copied_text(view: Option<Seq<u8>>) -> Seq<char> {
    match copied_utf8(view) {
        Ok(t) => t,
        Err(_) => Seq::empty(),
    }
}

/// An optional text: a view that copies to the empty string is "not set".
pub open spec fn optional_text(view: Option<Seq<u8>>) -> Option<Seq<char>> {
    if copied_text(view).len() == 0 {
        None
    } else {
        Some(copied_text(view))
    }
}

/// The views of an optional string.
pub open spec fn string_view_opt(s: Option<String>) -> Option<Seq<char>> {
    match s {
        Some(t) => Some(t@),
        None => None,
    }
}

/// How parsing an enumeration number ends: known numbers parse, others are an invalid
/// configuration.
pub open spec fn enum_outcome(known: bool) -> Option<phi_status_t> {
    if known {
        None
    } else {
        Some(PHI_STATUS_INVALID_CONFIG)
    }
}

/// The text and enumeration fields of a render configuration.
#[derive(Debug)]
pub struct ConfigTexts {
    pub custom_encoder: Option<String>,
    pub bitrate: String,
    pub challenge_color: ChallengeColor,
    pub player_avatar: Option<String>,
    pub player_name: String,
    pub resource_pack_path: Option<String>,
    pub audio_mix_mode: AudioMixMode,
    pub watermark: String,
    pub combo: String,
    pub difficulty: String,
    pub file_name_format: String,
}

/// The caller's views of those fields, and the two enumeration numbers.
pub struct ConfigViews<'a> {
    pub custom_encoder: Option<&'a [u8]>,
    pub bitrate: Option<&'a [u8]>,
    pub challenge_color: i32,
    pub player_avatar: Option<&'a [u8]>,
    pub player_name: Option<&'a [u8]>,
    pub resource_pack_path: Option<&'a [u8]>,
    pub audio_mix_mode: i32,
    pub watermark: Option<&'a [u8]>,
    pub combo: Option<&'a [u8]>,
    pub difficulty: Option<&'a [u8]>,
    pub file_name_format: Option<&'a [u8]>,
}

/// The outcome of each field of a configuration, in the order in which they are read.
pub open spec fn config_outcomes(v: ConfigViews) -> Seq<Option<phi_status_t>> {
    seq![
        copy_outcome(bytes_view(v.custom_encoder)),
        copy_outcome(bytes_view(v.bitrate)),
        enum_outcome(ChallengeColor::spec_from_raw(v.challenge_color) is Some),
        copy_outcome(bytes_view(v.player_avatar)),
        copy_outcome(bytes_view(v.player_name)),
        copy_outcome(bytes_view(v.resource_pack_path)),
        enum_outcome(AudioMixMode::spec_from_raw(v.audio_mix_mode) is Some),
        copy_outcome(bytes_view(v.watermark)),
        copy_outcome(bytes_view(v.combo)),
        copy_outcome(bytes_view(v.difficulty)),
        copy_outcome(bytes_view(v.file_name_format)),
    ]
}

/// The fields hold what their views copy to: the optional ones are unset when empty, and the
/// enumerations are the variants that their numbers name.
pub open spec fn config_texts_agree(t: ConfigTexts, v: ConfigViews) -> bool {
    &&& string_view_opt(t.custom_encoder) == optional_text(bytes_view(v.custom_encoder))
    &&& t.bitrate@ == copied_text(bytes_view(v.bitrate))
    &&& ChallengeColor::spec_from_raw(v.challenge_color) == Some(t.challenge_color)
    &&& string_view_opt(t.player_avatar) == optional_text(bytes_view(v.player_avatar))
    &&& t.player_name@ == copied_text(bytes_view(v.player_name))
    &&& string_view_opt(t.resource_pack_path) == optional_text(bytes_view(v.resource_pack_path))
    &&& AudioMixMode::spec_from_raw(v.audio_mix_mode) == Some(t.audio_mix_mode)
    &&& t.watermark@ == copied_text(bytes_view(v.watermark))
    &&& t.combo@ == copied_text(bytes_view(v.combo))
    &&& t.difficulty@ == copied_text(bytes_view(v.difficulty))
    &&& t.file_name_format@ == copied_text(bytes_view(v.file_name_format))
}

fn copy_field(view: Option<&[u8]>) -> (r: Result<String, phi_status_t>)
    ensures
        match copy_outcome(bytes_view(view)) {
            Some(s) => r == Err::<String, phi_status_t>(s),
            None => r matches Ok(t) && t@ == copied_text(bytes_view(view)),
        },
{
    copy_utf8(view)
}

fn optional_field(view: Option<&[u8]>) -> (r: Result<Option<String>, phi_status_t>)
    ensures
        match copy_outcome(bytes_view(view)) {
            Some(s) => r == Err::<Option<String>, phi_status_t>(s),
            None => r matches Ok(t) && string_view_opt(t) == optional_text(bytes_view(view)),
        },
{
    optional_string(view)
}

/// Copies the text and enumeration fields of a render configuration; the first field that
/// does not copy or parse decides the status.
pub fn config_texts_from_views(v: &ConfigViews) -> (r: Result<ConfigTexts, phi_status_t>)
    ensures
        match first_error(config_outcomes(*v)) {
            Some(s) => r matches Err(e) && e == s,
            None => r matches Ok(t) && config_texts_agree(t, *v),
        },
{
    let ghost all = config_outcomes(*v);
    let ghost mut rest = all;
    proof {
        lemma_first_error_step(rest);
    }
    let custom_encoder = match optional_field(v.custom_encoder) {
        Ok(x) => x,
        Err(s) => return Err(s),
    };
    proof {
        rest = rest.drop_first();
        lemma_first_error_step(rest);
    }
    let bitrate = match copy_field(v.bitrate) {
        Ok(x) => x,
        Err(s) => return Err(s),
    };
    proof {
        rest = rest.drop_first();
        lemma_first_error_step(rest);
    }
    let challenge_color = match ChallengeColor::try_from(v.challenge_color) {
        Ok(x) => x,
        Err(_) => return Err(PHI_STATUS_INVALID_CONFIG),
    };
    proof {
        rest = rest.drop_first();
        lemma_first_error_step(rest);
    }
    let player_avatar = match optional_field(v.player_avatar) {
        Ok(x) => x,
        Err(s) => return Err(s),
    };
    proof {
        rest = rest.drop_first();
        lemma_first_error_step(rest);
    }
    let player_name = match copy_field(v.player_name) {
        Ok(x) => x,
        Err(s) => return Err(s),
    };
    proof {
        rest = rest.drop_first();
        lemma_first_error_step(rest);
    }
    let resource_pack_path = match optional_field(v.resource_pack_path) {
        Ok(x) => x,
        Err(s) => return Err(s),
    };
    proof {
        rest = rest.drop_first();
        lemma_first_error_step(rest);
    }
    let audio_mix_mode = match AudioMixMode::try_from(v.audio_mix_mode) {
        Ok(x) => x,
        Err(_) => return Err(PHI_STATUS_INVALID_CONFIG),
    };
    proof {
        rest = rest.drop_first();
        lemma_first_error_step(rest);
    }
    let watermark = match copy_field(v.watermark) {
        Ok(x) => x,
        Err(s) => return Err(s),
    };
    proof {
        rest = rest.drop_first();
        lemma_first_error_step(rest);
    }
    let combo = match copy_field(v.combo) {
        Ok(x) => x,
        Err(s) => return Err(s),
    };
    proof {
        rest = rest.drop_first();
        lemma_first_error_step(rest);
    }
    let difficulty = match copy_field(v.difficulty) {
        Ok(x) => x,
        Err(s) => return Err(s),
    };
    proof {
        rest = rest.drop_first();
        lemma_first_error_step(rest);
    }
    let file_name_format = match copy_field(v.file_name_format) {
        Ok(x) => x,
        Err(s) => return Err(s),
    };
    proof {
        rest = rest.drop_first();
        assert(rest.len() == 0);
    }
    Ok(
        ConfigTexts {
            custom_encoder,
            bitrate,
            challenge_color,
            player_avatar,
            player_name,
            resource_pack_path,
            audio_mix_mode,
            watermark,
            combo,
            difficulty,
            file_name_format,
        },
    )
}

/// The text, format and tag fields of a chart information view.
#[derive(Debug)]
pub struct ChartTexts {
    pub guid: Option<String>,
    pub name: String,
    pub level: String,
    pub charter: String,
    pub composer: String,
    pub illustrator: String,
    pub chart: String,
    pub format: Option<ChartFormat>,
    pub music: String,
    pub illustration: String,
    pub unlock_video: Option<String>,
    pub tip: Option<String>,
    pub tags: Vec<String>,
    pub intro: String,
}

/// The caller's chart information view: its header, the views of those fields with their
/// presence flags, the format number, and the tag list. `tags` holds the views of the tags
/// when the list is usable (see `check_tag_list`), and is empty otherwise.
pub struct ChartViews<'a> {
    pub header: phi_struct_header_t,
    pub expected_size: usize,
    pub guid: Option<&'a [u8]>,
    pub has_guid: u8,
    pub name: Option<&'a [u8]>,
    pub level: Option<&'a [u8]>,
    pub charter: Option<&'a [u8]>,
    pub composer: Option<&'a [u8]>,
    pub illustrator: Option<&'a [u8]>,
    pub chart: Option<&'a [u8]>,
    pub format: i32,
    pub has_format: u8,
    pub music: Option<&'a [u8]>,
    pub illustration: Option<&'a [u8]>,
    pub unlock_video: Option<&'a [u8]>,
    pub has_unlock_video: u8,
    pub tip: Option<&'a [u8]>,
    pub has_tip: u8,
    pub tag_count: usize,
    pub tags_present: bool,
    pub tags: &'a Vec<Option<&'a [u8]>>,
    pub intro: Option<&'a [u8]>,
}

/// A required text of a chart view: any failed copy is an invalid configuration.
pub open spec fn required_outcome(view: Option<Seq<u8>>) -> Option<phi_status_t> {
    match copied_utf8(view) {
        Err(_) => Some(PHI_STATUS_INVALID_CONFIG),
        Ok(_) => None,
    }
}

/// An optional text of a chart view, present when its flag is set: a missing data pointer is
/// an invalid configuration and text that is not UTF-8 is reported as such.
pub open spec fn flagged_outcome(view: Option<Seq<u8>>, present: u8) -> Option<phi_status_t> {
    if present == 0 {
        None
    } else {
        match copied_utf8(view) {
            Err(s) => Some(
                if s == PHI_STATUS_INVALID_ARGUMENT {
                    PHI_STATUS_INVALID_CONFIG
                } else {
                    PHI_STATUS_INVALID_UTF8
                },
            ),
            Ok(_) => None,
        }
    }
}

/// The value of an optional text of a chart view.
pub open spec fn flagged_text(view: Option<Seq<u8>>, present: u8) -> Option<Seq<char>> {
    if present == 0 {
        None
    } else {
        Some(copied_text(view))
    }
}

/// The tag list is usable: within the limit, and with an array when it is not empty.
pub open spec fn tag_list_usable(count: usize, present: bool) -> bool {
    count <= MAX_TAG_COUNT && (count == 0 || present)
}

/// The tag list fails when it is not usable or one of its tags does not copy.
pub open spec fn tags_outcome(count: usize, present: bool, views: Seq<Option<&[u8]>>) -> Option<
    phi_status_t,
> {
    if !tag_list_usable(count, present) {
        Some(PHI_STATUS_INVALID_CONFIG)
    } else if exists|i: int| 0 <= i < views.len() && #[trigger] copied_utf8(bytes_view(views[i])) is Err {
        Some(PHI_STATUS_INVALID_CONFIG)
    } else {
        None
    }
}

/// The outcome of each field of a chart view, in the order in which they are read: the
/// header first.
pub open spec fn chart_outcomes(v: ChartViews) -> Seq<Option<phi_status_t>> {
    seq![
        if header_ok(v.header.struct_size, v.header.abi_version, v.expected_size) {
            None
        } else {
            Some(PHI_STATUS_ABI_MISMATCH)
        },
        flagged_outcome(bytes_view(v.guid), v.has_guid),
        required_outcome(bytes_view(v.name)),
        required_outcome(bytes_view(v.level)),
        required_outcome(bytes_view(v.charter)),
        required_outcome(bytes_view(v.composer)),
        required_outcome(bytes_view(v.illustrator)),
        required_outcome(bytes_view(v.chart)),
        if v.has_format != 0 {
            enum_outcome(format_of(v.format) is Some)
        } else {
            None
        },
        required_outcome(bytes_view(v.music)),
        required_outcome(bytes_view(v.illustration)),
        flagged_outcome(bytes_view(v.unlock_video), v.has_unlock_video),
        flagged_outcome(bytes_view(v.tip), v.has_tip),
        tags_outcome(v.tag_count, v.tags_present, v.tags@),
        required_outcome(bytes_view(v.intro)),
    ]
}

/// The fields hold what their views copy to.
pub open spec fn chart_texts_agree(t: ChartTexts, v: ChartViews) -> bool {
    &&& string_view_opt(t.guid) == flagged_text(bytes_view(v.guid), v.has_guid)
    &&& t.name@ == copied_text(bytes_view(v.name))
    &&& t.level@ == copied_text(bytes_view(v.level))
    &&& t.charter@ == copied_text(bytes_view(v.charter))
    &&& t.composer@ == copied_text(bytes_view(v.composer))
    &&& t.illustrator@ == copied_text(bytes_view(v.illustrator))
    &&& t.chart@ == copied_text(bytes_view(v.chart))
    &&& t.format == (if v.has_format != 0 {
        format_of(v.format)
    } else {
        None
    })
    &&& t.music@ == copied_text(bytes_view(v.music))
    &&& t.illustration@ == copied_text(bytes_view(v.illustration))
    &&& string_view_opt(t.unlock_video) == flagged_text(bytes_view(v.unlock_video), v.has_unlock_video)
    &&& string_view_opt(t.tip) == flagged_text(bytes_view(v.tip), v.has_tip)
    &&& t.tags@.len() == v.tags@.len()
    &&& forall|i: int| 0 <= i < v.tags@.len() ==> #[trigger] t.tags@[i]@ == copied_text(bytes_view(v.tags@[i]))
    &&& t.intro@ == copied_text(bytes_view(v.intro))
}

fn required_field(view: Option<&[u8]>) -> (r: Result<String, phi_status_t>)
    ensures
        match required_outcome(bytes_view(view)) {
            Some(s) => r == Err::<String, phi_status_t>(s),
            None => r matches Ok(t) && t@ == copied_text(bytes_view(view)),
        },
{
    match copy_utf8(view) {
        Ok(t) => Ok(t),
        Err(_) => Err(PHI_STATUS_INVALID_CONFIG),
    }
}

fn flagged_field(view: Option<&[u8]>, present: u8) -> (r: Result<Option<String>, phi_status_t>)
    ensures
        match flagged_outcome(bytes_view(view), present) {
            Some(s) => r == Err::<Option<String>, phi_status_t>(s),
            None => r matches Ok(t) && string_view_opt(t) == flagged_text(bytes_view(view), present),
        },
{
    optional_flagged_string(view, present)
}

fn tags_field(count: usize, present: bool, views: &Vec<Option<&[u8]>>) -> (r: Result<
    Vec<String>,
    phi_status_t,
>)
    requires
        tag_list_usable(count, present) ==> views@.len() == count,
    ensures
        match tags_outcome(count, present, views@) {
            Some(s) => r == Err::<Vec<String>, phi_status_t>(s),
            None => r matches Ok(tags) && tags@.len() == views@.len() && forall|i: int|
                0 <= i < views@.len() ==> #[trigger] tags@[i]@ == copied_text(bytes_view(views@[i])),
        },
{
    match check_tag_list(count, present) {
        Err(s) => Err(s),
        Ok(n) => if n == 0 {
            Ok(Vec::new())
        } else {
            copy_tags(views)
        },
    }
}

/// Checks the header of a chart information view and copies its text, format and tag
/// fields; the first check that fails decides the status.
pub fn chart_texts_from_views(v: &ChartViews) -> (r: Result<ChartTexts, phi_status_t>)
    requires
        tag_list_usable(v.tag_count, v.tags_present) ==> v.tags@.len() == v.tag_count,
    ensures
        match first_error(chart_outcomes(*v)) {
            Some(s) => r matches Err(e) && e == s,
            None => r matches Ok(t) && chart_texts_agree(t, *v),
        },
{
    let ghost mut rest = chart_outcomes(*v);
    proof {
        lemma_first_error_step(rest);
    }
    if validate_header(v.header.struct_size, v.header.abi_version, v.expected_size) != PHI_STATUS_OK {
        return Err(PHI_STATUS_ABI_MISMATCH);
    }
    proof {
        rest = rest.drop_first();
        lemma_first_error_step(rest);
    }
    let guid = match flagged_field(v.guid, v.has_guid) {
        Ok(x) => x,
        Err(s) => return Err(s),
    };
    proof {
        rest = rest.drop_first();
        lemma_first_error_step(rest);
    }
    let name = match required_field(v.name) {
        Ok(x) => x,
        Err(s) => return Err(s),
    };
    proof {
        rest = rest.drop_first();
        lemma_first_error_step(rest);
    }
    let level = match required_field(v.level) {
        Ok(x) => x,
        Err(s) => return Err(s),
    };
    proof {
        rest = rest.drop_first();
        lemma_first_error_step(rest);
    }
    let charter = match required_field(v.charter) {
        Ok(x) => x,
        Err(s) => return Err(s),
    };
    proof {
        rest = rest.drop_first();
        lemma_first_error_step(rest);
    }
    let composer = match required_field(v.composer) {
        Ok(x) => x,
        Err(s) => return Err(s),
    };
    proof {
        rest = rest.drop_first();
        lemma_first_error_step(rest);
    }
    let illustrator = match required_field(v.illustrator) {
        Ok(x) => x,
        Err(s) => return Err(s),
    };
    proof {
        rest = rest.drop_first();
        lemma_first_error_step(rest);
    }
    let chart = match required_field(v.chart) {
        Ok(x) => x,
        Err(s) => return Err(s),
    };
    proof {
        rest = rest.drop_first();
        lemma_first_error_step(rest);
    }
    let format = if v.has_format != 0 {
        match parse_format(v.format) {
            Ok(f) => Some(f),
            Err(s) => return Err(s),
        }
    } else {
        None
    };
    proof {
        rest = rest.drop_first();
        lemma_first_error_step(rest);
    }
    let music = match required_field(v.music) {
        Ok(x) => x,
        Err(s) => return Err(s),
    };
    proof {
        rest = rest.drop_first();
        lemma_first_error_step(rest);
    }
    let illustration = match required_field(v.illustration) {
        Ok(x) => x,
        Err(s) => return Err(s),
    };
    proof {
        rest = rest.drop_first();
        lemma_first_error_step(rest);
    }
    let unlock_video = match flagged_field(v.unlock_video, v.has_unlock_video) {
        Ok(x) => x,
        Err(s) => return Err(s),
    };
    proof {
        rest = rest.drop_first();
        lemma_first_error_step(rest);
    }
    let tip = match flagged_field(v.tip, v.has_tip) {
        Ok(x) => x,
        Err(s) => return Err(s),
    };
    proof {
        rest = rest.drop_first();
        lemma_first_error_step(rest);
    }
    let tags = match tags_field(v.tag_count, v.tags_present, v.tags) {
        Ok(x) => x,
        Err(s) => return Err(s),
    };
    proof {
        rest = rest.drop_first();
        lemma_first_error_step(rest);
    }
    let intro = match required_field(v.intro) {
        Ok(x) => x,
        Err(s) => return Err(s),
    };
    proof {
        rest = rest.drop_first();
        assert(rest.len() == 0);
    }
    Ok(
        ChartTexts {
            guid,
            name,
            level,
            charter,
            composer,
            illustrator,
            chart,
            format,
            music,
            illustration,
            unlock_video,
            tip,
            tags,
            intro,
        },
    )
}

/// The instant that an RFC 3339 text names, as whole seconds since the Unix epoch (UTC) and
/// the nanoseconds past them; `None` for a text that is not RFC 3339.
pub uninterp spec fn rfc3339_instant(text: Seq<char>) -> Option<(i64, u32)>;

/// Calls `chrono::DateTime::parse_from_rfc3339` and gives the parsed instant as its Unix
/// seconds and sub-second nanoseconds. Trusted to depend on the text alone (the parse uses
/// the offset written in the text, not the machine's time zone); what it accepts is left to
/// the name `rfc3339_instant`.
#[verifier::external_body]
fn parse_rfc3339(text: &str) -> (r: Option<(i64, u32)>)
    ensures
        r == rfc3339_instant(text@),
{
    match chrono::DateTime::parse_from_rfc3339(text) {
        Ok(t) => Some((t.timestamp(), t.timestamp_subsec_nanos())),
        Err(_) => None,
    }
}

/// An optional timestamp of a chart view, present when its flag is set: it copies as an
/// optional text does, and a text that is not RFC 3339 is an invalid configuration.
pub fn optional_instant(view: Option<&[u8]>, present: u8) -> (r: Result<
    Option<(i64, u32)>,
    phi_status_t,
>)
    ensures
        match flagged_outcome(bytes_view(view), present) {
            Some(s) => r == Err::<Option<(i64, u32)>, phi_status_t>(s),
            None => if present == 0 {
                r == Ok::<Option<(i64, u32)>, phi_status_t>(None)
            } else {
                match rfc3339_instant(copied_text(bytes_view(view))) {
                    Some(t) => r == Ok::<Option<(i64, u32)>, phi_status_t>(Some(t)),
                    None => r == Err::<Option<(i64, u32)>, phi_status_t>(PHI_STATUS_INVALID_CONFIG),
                }
            },
        },
{
    let text = match flagged_field(view, present) {
        Ok(Some(t)) => t,
        Ok(None) => return Ok(None),
        Err(s) => return Err(s),
    };
    match parse_rfc3339(text.as_str()) {
        Some(t) => Ok(Some(t)),
        None => Err(PHI_STATUS_INVALID_CONFIG),
    }
}

} // verus!
