//! The FFmpeg command-line arguments that a render passes: raw video in, encoded file out.
use vstd::prelude::*;
use vstd::string::StringExecFns;

use crate::decimal::{decimal, push_decimal};
use crate::text::{push_str, push_string, str_eq, string_views};

verus! {

#[derive(Debug, Clone, Copy, PartialEq, Eq, Structural)]
pub enum VideoEncoderKind {
    AvcHardware,
    HevcHardware,
    Mpeg4,
    Software,
    Custom,
}

#[derive(Debug, Clone, PartialEq)]
pub struct AudioFilterPlan {
    pub filter_complex: String,
}

#[derive(Debug, Clone, PartialEq)]
pub struct FfmpegPlan {
    pub video_input_args: Vec<String>,
    pub audio_input_specs: Vec<Vec<String>>,
    pub output_args: Vec<String>,
    pub audio_filter: AudioFilterPlan,
}

/// The rate-control flag for an encoder. With dynamic control, each hardware encoder family
/// has its own quality flag (NVENC `-cq`, QSV, VAAPI, MPEG-4 and custom encoders `-q`, AMF
/// `-qp_p`) and software encoders use `-crf`; otherwise the bitrate is fixed with `-b:v`.
pub open spec fn bitrate_control(
    dynamic: bool,
    encoder: Seq<char>,
    list: Seq<Seq<char>>,
    mpeg4: bool,
    custom: Option<Seq<char>>,
) -> Seq<char> {
    if !dynamic {
        "-b:v"@
    } else if encoder == list[0] && !mpeg4 {
        "-cq"@
    } else if encoder == list[1] || mpeg4 || encoder == list[3] {
        "-q"@
    } else if encoder == list[2] {
        "-qp_p"@
    } else if custom == Some(encoder) {
        "-q"@
    } else {
        "-crf"@
    }
}

pub fn select_bitrate_control(
    dynamic: bool,
    encoder: &str,
    encoder_list: [&str; 4],
    mpeg4: bool,
    custom_encoder: Option<&str>,
) -> (r: &'static str)
    ensures
        r@ == bitrate_control(
            dynamic,
            encoder@,
            seq![encoder_list[0]@, encoder_list[1]@, encoder_list[2]@, encoder_list[3]@],
            mpeg4,
            match custom_encoder {
                Some(c) => Some(c@),
                None => None,
            },
        ),
{
    if !dynamic {
        return "-b:v";
    }
    if str_eq(encoder, encoder_list[0]) && !mpeg4 {
        "-cq"
    } else if str_eq(encoder, encoder_list[1]) || mpeg4 || str_eq(encoder, encoder_list[3]) {
        "-q"
    } else if str_eq(encoder, encoder_list[2]) {
        "-qp_p"
    } else if match custom_encoder {
        Some(c) => str_eq(c, encoder),
        None => false,
    } {
        "-q"
    } else {
        "-crf"
    }
}

/// The output arguments: audio and video codecs, YUV 4:2:0 pixels, the rate control, the
/// audio filter graph and the container. A high-resolution render keeps 32-bit float PCM
/// audio in a MOV file; otherwise the audio is 320 kb/s AAC in an MP4 file.
pub open spec fn output_args(
    encoder: Seq<char>,
    bitrate_control: Seq<char>,
    bitrate: Seq<char>,
    filter_complex: Seq<char>,
    hires: bool,
) -> Seq<Seq<char>> {
    seq![
        "-c:a"@,
        if hires { "pcm_f32le"@ } else { "aac"@ },
        "-c:v"@,
        encoder,
        "-movflags"@,
        "+faststart"@,
        "-pix_fmt"@,
        "yuv420p"@,
        bitrate_control,
        bitrate,
    ] + (if hires { Seq::empty() } else { seq!["-b:a"@, "320k"@] }) + seq![
        "-filter_complex"@,
        filter_complex,
        "-map"@,
        "0:v:0"@,
        "-map"@,
        "[a]"@,
        "-f"@,
        if hires { "mov"@ } else { "mp4"@ },
    ]
}

pub fn build_output_args(
    encoder: &str,
    bitrate_control: &str,
    bitrate: &str,
    filter_complex: &str,
    hires: bool,
) -> (args: Vec<String>)
    ensures
        string_views(args@) == output_args(
            encoder@,
            bitrate_control@,
            bitrate@,
            filter_complex@,
            hires,
        ),
{
    let mut args: Vec<String> = Vec::new();
    push_str(&mut args, "-c:a");
    push_str(&mut args, if hires { "pcm_f32le" } else { "aac" });
    push_str(&mut args, "-c:v");
    push_str(&mut args, encoder);
    push_str(&mut args, "-movflags");
    push_str(&mut args, "+faststart");
    push_str(&mut args, "-pix_fmt");
    push_str(&mut args, "yuv420p");
    push_str(&mut args, bitrate_control);
    push_str(&mut args, bitrate);
    if !hires {
        push_str(&mut args, "-b:a");
        push_str(&mut args, "320k");
    }
    push_str(&mut args, "-filter_complex");
    push_str(&mut args, filter_complex);
    push_str(&mut args, "-map");
    push_str(&mut args, "0:v:0");
    push_str(&mut args, "-map");
    push_str(&mut args, "[a]");
    push_str(&mut args, "-f");
    push_str(&mut args, if hires { "mov" } else { "mp4" });
    assert(string_views(args@) =~= output_args(
        encoder@,
        bitrate_control@,
        bitrate@,
        filter_complex@,
        hires,
    ));
    args
}

/// The video input arguments: raw full-range YUV 4:2:0 frames of the given size and rate,
/// read from standard input. The NVENC encoder also gets a CUDA output-format hint.
pub open spec fn video_input_args(
    width: u32,
    height: u32,
    fps: u32,
    encoder: Seq<char>,
    hardware_encoder: Seq<char>,
) -> Seq<Seq<char>> {
    seq![
        "-probesize"@,
        "50M"@,
        "-y"@,
        "-f"@,
        "rawvideo"@,
        "-c:v"@,
        "rawvideo"@,
        "-color_range"@,
        "full"@,
    ] + (if encoder == hardware_encoder {
        seq!["-hwaccel_output_format"@, "cuda"@]
    } else {
        Seq::empty()
    }) + seq![
        "-s"@,
        decimal(width as nat) + "x"@ + decimal(height as nat),
        "-r"@,
        decimal(fps as nat),
        "-pix_fmt"@,
        "yuv420p"@,
        "-thread_queue_size"@,
        "1024"@,
        "-i"@,
        "pipe:0"@,
    ]
}

pub fn build_video_input_args(
    width: u32,
    height: u32,
    fps: u32,
    encoder: &str,
    hardware_encoder: &str,
) -> (args: Vec<String>)
    ensures
        string_views(args@) == video_input_args(width, height, fps, encoder@, hardware_encoder@),
{
    let mut args: Vec<String> = Vec::new();
    push_str(&mut args, "-probesize");
    push_str(&mut args, "50M");
    push_str(&mut args, "-y");
    push_str(&mut args, "-f");
    push_str(&mut args, "rawvideo");
    push_str(&mut args, "-c:v");
    push_str(&mut args, "rawvideo");
    push_str(&mut args, "-color_range");
    push_str(&mut args, "full");
    if str_eq(encoder, hardware_encoder) {
        push_str(&mut args, "-hwaccel_output_format");
        push_str(&mut args, "cuda");
    }
    push_str(&mut args, "-s");
    let mut size = String::new();
    push_decimal(&mut size, width as u64);
    size.append("x");
    push_decimal(&mut size, height as u64);
    push_string(&mut args, size);
    push_str(&mut args, "-r");
    let mut rate = String::new();
    push_decimal(&mut rate, fps as u64);
    push_string(&mut args, rate);
    push_str(&mut args, "-pix_fmt");
    push_str(&mut args, "yuv420p");
    push_str(&mut args, "-thread_queue_size");
    push_str(&mut args, "1024");
    push_str(&mut args, "-i");
    push_str(&mut args, "pipe:0");
    assert(string_views(args@) =~= video_input_args(
        width,
        height,
        fps,
        encoder@,
        hardware_encoder@,
    ));
    args
}

} // verus!
