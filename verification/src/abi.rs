//! The plain-value side of the C interface: status codes, versioned struct headers, enum
//! numbers, string copies from caller views, and output-buffer writes.
use vstd::prelude::*;
use vstd::utf8::{decode_utf8, encode_utf8, encode_utf8_decode_utf8, valid_utf8};
use vstd::string::StringSliceAdditionalSpecFns;

use crate::validation::ValidationError;

verus! {

pub const PHI_ABI_VERSION: u32 = 1;

pub type phi_status_t = i32;

pub const PHI_STATUS_OK: phi_status_t = 0;
pub const PHI_STATUS_INVALID_ARGUMENT: phi_status_t = 1;
pub const PHI_STATUS_ABI_MISMATCH: phi_status_t = 2;
pub const PHI_STATUS_BUFFER_TOO_SMALL: phi_status_t = 3;
pub const PHI_STATUS_INVALID_UTF8: phi_status_t = 4;
pub const PHI_STATUS_OUT_OF_MEMORY: phi_status_t = 5;
pub const PHI_STATUS_NOT_IMPLEMENTED: phi_status_t = 6;
pub const PHI_STATUS_BUSY: phi_status_t = 7;
pub const PHI_STATUS_GRAPHICS_UNAVAILABLE: phi_status_t = 8;
pub const PHI_STATUS_FFMPEG_UNAVAILABLE: phi_status_t = 9;
pub const PHI_STATUS_INVALID_STATE: phi_status_t = 10;
pub const PHI_STATUS_INTERNAL_ERROR: phi_status_t = 11;
pub const PHI_STATUS_PANIC: phi_status_t = 12;
pub const PHI_STATUS_CANCELED: phi_status_t = 13;
pub const PHI_STATUS_INVALID_CONFIG: phi_status_t = 14;

pub const PHI_CHALLENGE_COLOR_RAINBOW: i32 = 5;
pub const PHI_AUDIO_MIX_MODE_OPTIMIZED: i32 = 1;
pub const PHI_CHART_FORMAT_RPE: i32 = 0;
pub const PHI_CHART_FORMAT_PEC: i32 = 1;
pub const PHI_CHART_FORMAT_PGR: i32 = 2;
pub const PHI_CHART_FORMAT_PBC: i32 = 3;

/// The ABI version that this library implements.
pub fn phi_abi_version() -> (v: u32)
    ensures
        v == PHI_ABI_VERSION,
{
    PHI_ABI_VERSION
}

#[derive(Debug, Clone, Copy, PartialEq, Eq, Structural)]
pub struct phi_struct_header_t {
    pub struct_size: u32,
    pub abi_version: u32,
}

#[derive(Debug, Clone, Copy, PartialEq, Eq, Structural)]
pub struct phi_resolution_t {
    pub width: u32,
    pub height: u32,
}

/// A caller's struct is accepted when it carries this ABI version and is at least as large as
/// the struct that this library knows (a newer caller may append fields).
pub open spec fn header_ok(struct_size: u32, abi_version: u32, expected_size: usize) -> bool {
    abi_version == PHI_ABI_VERSION && struct_size >= expected_size
}

pub fn validate_header(struct_size: u32, abi_version: u32, expected_size: usize) -> (s:
    phi_status_t)
    ensures
        header_ok(struct_size, abi_version, expected_size) ==> s == PHI_STATUS_OK,
        !header_ok(struct_size, abi_version, expected_size) ==> s == PHI_STATUS_ABI_MISMATCH,
{
    if abi_version != PHI_ABI_VERSION || (struct_size as usize) < expected_size {
        PHI_STATUS_ABI_MISMATCH
    } else {
        PHI_STATUS_OK
    }
}

#[derive(Debug, Clone, Copy, PartialEq, Eq, Structural)]
pub enum phi_job_state_t {
    Pending,
    Loading,
    Mixing,
    Rendering,
    Paused,
    Done,
    Canceled,
    Failed,
}

impl phi_job_state_t {
    pub open spec fn spec_raw(self) -> i32 {
        match self {
            phi_job_state_t::Pending => 0,
            phi_job_state_t::Loading => 1,
            phi_job_state_t::Mixing => 2,
            phi_job_state_t::Rendering => 3,
            phi_job_state_t::Paused => 4,
            phi_job_state_t::Done => 5,
            phi_job_state_t::Canceled => 6,
            phi_job_state_t::Failed => 7,
        }
    }

    /// The number that stands for this state in the C interface.
    pub fn as_i32(self) -> (r: i32)
        ensures
            r == self.spec_raw(),
    {
        match self {
            phi_job_state_t::Pending => 0,
            phi_job_state_t::Loading => 1,
            phi_job_state_t::Mixing => 2,
            phi_job_state_t::Rendering => 3,
            phi_job_state_t::Paused => 4,
            phi_job_state_t::Done => 5,
            phi_job_state_t::Canceled => 6,
            phi_job_state_t::Failed => 7,
        }
    }

    /// A job in a final state does not change any more.
    pub open spec fn is_final(self) -> bool {
        self == phi_job_state_t::Done || self == phi_job_state_t::Canceled || self
            == phi_job_state_t::Failed
    }
}

#[derive(Debug, Clone, Copy, PartialEq, Eq, Structural)]
pub enum ChartFormat {
    Rpe,
    Pec,
    Pgr,
    Pbc,
}

pub open spec fn format_number(value: ChartFormat) -> i32 {
    match value {
        ChartFormat::Rpe => PHI_CHART_FORMAT_RPE,
        ChartFormat::Pec => PHI_CHART_FORMAT_PEC,
        ChartFormat::Pgr => PHI_CHART_FORMAT_PGR,
        ChartFormat::Pbc => PHI_CHART_FORMAT_PBC,
    }
}

/// The number of a chart format in the C interface.
pub fn format_value(value: ChartFormat) -> (r: i32)
    ensures
        r == format_number(value),
{
    match value {
        ChartFormat::Rpe => PHI_CHART_FORMAT_RPE,
        ChartFormat::Pec => PHI_CHART_FORMAT_PEC,
        ChartFormat::Pgr => PHI_CHART_FORMAT_PGR,
        ChartFormat::Pbc => PHI_CHART_FORMAT_PBC,
    }
}

/// The chart format that a number stands for, if any.
pub open spec fn format_of(value: i32) -> Option<ChartFormat> {
    if value == PHI_CHART_FORMAT_RPE {
        Some(ChartFormat::Rpe)
    } else if value == PHI_CHART_FORMAT_PEC {
        Some(ChartFormat::Pec)
    } else if value == PHI_CHART_FORMAT_PGR {
        Some(ChartFormat::Pgr)
    } else if value == PHI_CHART_FORMAT_PBC {
        Some(ChartFormat::Pbc)
    } else {
        None
    }
}

/// The chart format of a number; an unknown number is an invalid configuration.
pub fn parse_format(value: i32) -> (r: Result<ChartFormat, phi_status_t>)
    ensures
        match format_of(value) {
            Some(f) => r == Ok::<ChartFormat, phi_status_t>(f),
            None => r == Err::<ChartFormat, phi_status_t>(PHI_STATUS_INVALID_CONFIG),
        },
{
    if value == PHI_CHART_FORMAT_RPE {
        Ok(ChartFormat::Rpe)
    } else if value == PHI_CHART_FORMAT_PEC {
        Ok(ChartFormat::Pec)
    } else if value == PHI_CHART_FORMAT_PGR {
        Ok(ChartFormat::Pgr)
    } else if value == PHI_CHART_FORMAT_PBC {
        Ok(ChartFormat::Pbc)
    } else {
        Err(PHI_STATUS_INVALID_CONFIG)
    }
}

/// A chart format survives the trip to its number and back, the numbers in use are exactly
/// those from 0 to 3, and each names one format.
pub proof fn lemma_format_round_trip(f: ChartFormat, value: i32)
    ensures
        format_of(format_number(f)) == Some(f),
        format_of(value) is Some <==> 0 <= value <= 3,
        format_of(value) matches Some(g) ==> format_number(g) == value,
{
}

/// Every refused configuration is reported as an invalid configuration.
pub fn map_validation_error(_error: ValidationError) -> (s: phi_status_t)
    ensures
        s == PHI_STATUS_INVALID_CONFIG,
{
    PHI_STATUS_INVALID_CONFIG
}

/// Calls `std::str::from_utf8`. Trusted to return the text exactly when the bytes are valid
/// UTF-8, and a text whose UTF-8 encoding is those bytes.
#[verifier::external_body]
fn str_from_utf8(bytes: &[u8]) -> (r: Option<&str>)
    ensures
        r is Some <==> valid_utf8(bytes@),
        r matches Some(s) ==> s.spec_bytes() == bytes@,
{
    std::str::from_utf8(bytes).ok()
}

/// What copying a caller's string view yields. `None` stands for a view with a length but no
/// data pointer; an empty view is the empty string whatever its pointer.
pub open spec fn copied_utf8(view: Option<Seq<u8>>) -> Result<Seq<char>, phi_status_t> {
    match view {
        None => Err(PHI_STATUS_INVALID_ARGUMENT),
        Some(bytes) => if bytes.len() == 0 {
            Ok(Seq::empty())
        } else if valid_utf8(bytes) {
            Ok(decode_utf8(bytes))
        } else {
            Err(PHI_STATUS_INVALID_UTF8)
        },
    }
}

/// The views of an optional byte slice.
pub open spec fn bytes_view(view: Option<&[u8]>) -> Option<Seq<u8>> {
    match view {
        Some(b) => Some(b@),
        None => None,
    }
}

/// A copy agrees with the specified result.
pub open spec fn copy_agrees(r: Result<String, phi_status_t>, s: Result<Seq<char>, phi_status_t>) -> bool {
    match (r, s) {
        (Ok(a), Ok(b)) => a@ == b,
        (Err(x), Err(y)) => x == y,
        _ => false,
    }
}

/// Copies a caller's UTF-8 string view into an owned string.
pub fn copy_utf8(view: Option<&[u8]>) -> (r: Result<String, phi_status_t>)
    ensures
        copy_agrees(r, copied_utf8(bytes_view(view))),
{
    match view {
        None => Err(PHI_STATUS_INVALID_ARGUMENT),
        Some(bytes) => {
            if bytes.len() == 0 {
                return Ok(String::new());
            }
            match str_from_utf8(bytes) {
                Some(s) => {
                    proof {
                        encode_utf8_decode_utf8(s@);
                    }
                    Ok(s.to_owned())
                },
                None => Err(PHI_STATUS_INVALID_UTF8),
            }
        },
    }
}

/// A copied string, with the empty string standing for "not set".
pub fn optional_string(view: Option<&[u8]>) -> (r: Result<Option<String>, phi_status_t>)
    ensures
        match copied_utf8(bytes_view(view)) {
            Err(s) => r == Err::<Option<String>, phi_status_t>(s),
            Ok(text) => if text.len() == 0 {
                r == Ok::<Option<String>, phi_status_t>(None)
            } else {
                r matches Ok(Some(v)) && v@ == text
            },
        },
{
    let value = match copy_utf8(view) {
        Ok(v) => v,
        Err(s) => return Err(s),
    };
    if value.as_str().is_empty() {
        Ok(None)
    } else {
        Ok(Some(value))
    }
}

/// A copied string that is present only when its flag is set. A missing data pointer is then
/// an invalid configuration, and text that is not UTF-8 is reported as such.
pub fn optional_flagged_string(view: Option<&[u8]>, present: u8) -> (r: Result<
    Option<String>,
    phi_status_t,
>)
    ensures
        present == 0 ==> r == Ok::<Option<String>, phi_status_t>(None),
        present != 0 ==> match copied_utf8(bytes_view(view)) {
            Ok(text) => r matches Ok(Some(v)) && v@ == text,
            Err(s) => r == Err::<Option<String>, phi_status_t>(
                if s == PHI_STATUS_INVALID_ARGUMENT {
                    PHI_STATUS_INVALID_CONFIG
                } else {
                    PHI_STATUS_INVALID_UTF8
                },
            ),
        },
{
    if present == 0 {
        return Ok(None);
    }
    match copy_utf8(view) {
        Ok(v) => Ok(Some(v)),
        Err(s) => Err(
            if s == PHI_STATUS_INVALID_ARGUMENT {
                PHI_STATUS_INVALID_CONFIG
            } else {
                PHI_STATUS_INVALID_UTF8
            },
        ),
    }
}

/// The outcome of writing a value into a caller's output buffer: the status, the length to
/// store through the caller's `required` pointer (if any), and how many bytes to copy.
#[derive(Debug, Clone, Copy, PartialEq, Eq, Structural)]
pub struct BufferWrite {
    pub status: phi_status_t,
    pub required: Option<usize>,
    pub copy_len: usize,
}

/// Writing a value of `value_len` bytes: the required length is always reported when there is
/// somewhere to report it; the bytes are copied only into a buffer that is present and large
/// enough.
pub open spec fn buffer_write(
    value_len: usize,
    buffer_present: bool,
    capacity: usize,
    required_present: bool,
) -> BufferWrite {
    if !required_present {
        BufferWrite { status: PHI_STATUS_INVALID_ARGUMENT, required: None, copy_len: 0 }
    } else if value_len == 0 {
        BufferWrite { status: PHI_STATUS_OK, required: Some(value_len), copy_len: 0 }
    } else if !buffer_present {
        BufferWrite { status: PHI_STATUS_INVALID_ARGUMENT, required: Some(value_len), copy_len: 0 }
    } else if capacity < value_len {
        BufferWrite { status: PHI_STATUS_BUFFER_TOO_SMALL, required: Some(value_len), copy_len: 0 }
    } else {
        BufferWrite { status: PHI_STATUS_OK, required: Some(value_len), copy_len: value_len }
    }
}

pub fn write_bytes(value_len: usize, buffer_present: bool, capacity: usize, required_present: bool) -> (w:
    BufferWrite)
    ensures
        w == buffer_write(value_len, buffer_present, capacity, required_present),
{
    if !required_present {
        return BufferWrite { status: PHI_STATUS_INVALID_ARGUMENT, required: None, copy_len: 0 };
    }
    if value_len == 0 {
        return BufferWrite { status: PHI_STATUS_OK, required: Some(value_len), copy_len: 0 };
    }
    if !buffer_present {
        return BufferWrite {
            status: PHI_STATUS_INVALID_ARGUMENT,
            required: Some(value_len),
            copy_len: 0,
        };
    }
    if capacity < value_len {
        return BufferWrite {
            status: PHI_STATUS_BUFFER_TOO_SMALL,
            required: Some(value_len),
            copy_len: 0,
        };
    }
    BufferWrite { status: PHI_STATUS_OK, required: Some(value_len), copy_len: value_len }
}

/// A write never copies past the caller's buffer, copies the whole value or nothing, and
/// succeeds exactly when the value fits.
pub proof fn lemma_buffer_write_is_safe(
    value_len: usize,
    buffer_present: bool,
    capacity: usize,
    required_present: bool,
)
    ensures
        ({
            let w = buffer_write(value_len, buffer_present, capacity, required_present);
            &&& w.copy_len > 0 ==> buffer_present && w.copy_len <= capacity
            &&& w.copy_len == 0 || w.copy_len == value_len
            &&& w.status == PHI_STATUS_OK <==> required_present && (value_len == 0 || (
                buffer_present && value_len <= capacity))
        }),
{
}

/// The most tags that a chart information view may carry.
pub const MAX_TAG_COUNT: usize = 1_000_000;

/// How many tags to copy from a chart information view: none when the count is zero; an
/// invalid configuration when the count is over the limit, or positive with no array.
pub fn check_tag_list(count: usize, tags_present: bool) -> (r: Result<usize, phi_status_t>)
    ensures
        count > MAX_TAG_COUNT ==> r == Err::<usize, phi_status_t>(PHI_STATUS_INVALID_CONFIG),
        count <= MAX_TAG_COUNT && count == 0 ==> r == Ok::<usize, phi_status_t>(0),
        count <= MAX_TAG_COUNT && count > 0 && !tags_present ==> r == Err::<usize, phi_status_t>(
            PHI_STATUS_INVALID_CONFIG,
        ),
        count <= MAX_TAG_COUNT && count > 0 && tags_present ==> r == Ok::<usize, phi_status_t>(
            count,
        ),
{
    if count > MAX_TAG_COUNT {
        return Err(PHI_STATUS_INVALID_CONFIG);
    }
    if count == 0 {
        return Ok(0);
    }
    if !tags_present {
        return Err(PHI_STATUS_INVALID_CONFIG);
    }
    Ok(count)
}

/// Copies the tags of a chart information view; any tag that does not copy makes the view an
/// invalid configuration.
pub fn copy_tags(views: &Vec<Option<&[u8]>>) -> (r: Result<Vec<String>, phi_status_t>)
    ensures
        (forall|i: int| 0 <= i < views@.len() ==> #[trigger] copied_utf8(bytes_view(views@[i])) is Ok)
            ==> (r matches Ok(tags) && tags@.len() == views@.len() && forall|i: int|
            0 <= i < views@.len() ==> copied_utf8(bytes_view(views@[i])) == Ok::<
                Seq<char>,
                phi_status_t,
            >(#[trigger] tags@[i]@)),
        (exists|i: int| 0 <= i < views@.len() && #[trigger] copied_utf8(bytes_view(views@[i])) is Err)
            ==> r == Err::<Vec<String>, phi_status_t>(PHI_STATUS_INVALID_CONFIG),
{
    let mut tags: Vec<String> = Vec::new();
    let mut i: usize = 0;
    while i < views.len()
        invariant
            i <= views@.len(),
            tags@.len() == i,
            forall|k: int| 0 <= k < i ==> copied_utf8(bytes_view(views@[k])) == Ok::<
                Seq<char>,
                phi_status_t,
            >(#[trigger] tags@[k]@),
        decreases views@.len() - i,
    {
        match copy_utf8(views[i]) {
            Ok(t) => tags.push(t),
            Err(_) => return Err(PHI_STATUS_INVALID_CONFIG),
        }
        i = i + 1;
    }
    assert forall|k: int| 0 <= k < views@.len() implies #[trigger] copied_utf8(
        bytes_view(views@[k]),
    ) is Ok by {
        assert(copied_utf8(bytes_view(views@[k])) == Ok::<Seq<char>, phi_status_t>(tags@[k]@));
    }
    Ok(tags)
}

/// The chart path of a load request: it must copy and must not be empty.
pub fn chart_path_from_view(view: Option<&[u8]>) -> (r: Result<String, phi_status_t>)
    ensures
        match copied_utf8(bytes_view(view)) {
            Err(s) => r == Err::<String, phi_status_t>(s),
            Ok(text) => if text.len() == 0 {
                r == Err::<String, phi_status_t>(PHI_STATUS_INVALID_CONFIG)
            } else {
                r matches Ok(p) && p@ == text
            },
        },
{
    match copy_utf8(view) {
        Ok(path) => if path.as_str().is_empty() {
            Err(PHI_STATUS_INVALID_CONFIG)
        } else {
            Ok(path)
        },
        Err(s) => Err(s),
    }
}

/// The job states have the numbers 0 to 7 in declaration order, and each number names one
/// state.
pub proof fn lemma_job_state_numbers(s: phi_job_state_t, t: phi_job_state_t)
    ensures
        phi_job_state_t::Pending.spec_raw() == 0,
        phi_job_state_t::Loading.spec_raw() == 1,
        phi_job_state_t::Mixing.spec_raw() == 2,
        phi_job_state_t::Rendering.spec_raw() == 3,
        phi_job_state_t::Paused.spec_raw() == 4,
        phi_job_state_t::Done.spec_raw() == 5,
        phi_job_state_t::Canceled.spec_raw() == 6,
        phi_job_state_t::Failed.spec_raw() == 7,
        s.spec_raw() == t.spec_raw() ==> s == t,
{
}

} // verus!
