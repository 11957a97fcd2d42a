//! The choice of video encoder: a custom encoder, MPEG-4, the first hardware encoder that
//! works on this machine, or the software encoder, in that order of preference.
use vstd::prelude::*;

use crate::ffmpeg::{bitrate_control, select_bitrate_control, video_input_args, build_video_input_args};
use crate::text::{
    is_blank, push_str, seq_ends_with, str_ends_with, str_is_blank, string_views,
};

verus! {

/// The hardware HEVC encoders, in the order in which they are tried.
pub fn encoder_list_hevc() -> (l: [&'static str; 4])
    ensures
        l[0]@ == "hevc_nvenc"@,
        l[1]@ == "hevc_qsv"@,
        l[2]@ == "hevc_amf"@,
        l[3]@ == "hevc_vaapi"@,
{
    ["hevc_nvenc", "hevc_qsv", "hevc_amf", "hevc_vaapi"]
}

/// The hardware H.264 encoders, in the order in which they are tried.
pub fn encoder_list_avc() -> (l: [&'static str; 4])
    ensures
        l[0]@ == "h264_nvenc"@,
        l[1]@ == "h264_qsv"@,
        l[2]@ == "h264_amf"@,
        l[3]@ == "h264_vaapi"@,
{
    ["h264_nvenc", "h264_qsv", "h264_amf", "h264_vaapi"]
}

/// The parts of a render configuration that decide the video encoder.
#[derive(Debug, Clone, PartialEq, Eq)]
pub struct EncoderOptions {
    pub hevc: bool,
    pub mpeg4: bool,
    pub hardware_accel: bool,
    pub dynamic_bitrate_control: bool,
    pub custom_encoder: Option<String>,
}

pub struct VideoEncoderPlan {
    pub encoder: String,
    pub encoder_list: [&'static str; 4],
    pub bitrate_control: &'static str,
    pub device_args: Vec<String>,
    pub output_video_filter: Option<String>,
}

/// The views of an encoder list.
pub open spec fn list_views(l: [&'static str; 4]) -> Seq<Seq<char>> {
    seq![l[0]@, l[1]@, l[2]@, l[3]@]
}

/// The hardware encoders for the configured codec.
pub open spec fn hardware_encoders(hevc: bool) -> Seq<Seq<char>> {
    if hevc {
        seq!["hevc_nvenc"@, "hevc_qsv"@, "hevc_amf"@, "hevc_vaapi"@]
    } else {
        seq!["h264_nvenc"@, "h264_qsv"@, "h264_amf"@, "h264_vaapi"@]
    }
}

/// The software encoder for the configured codec.
pub open spec fn software_encoder_name(hevc: bool) -> Seq<char> {
    if hevc {
        "libx265"@
    } else {
        "libx264"@
    }
}

/// A custom encoder is used when it is set and not blank.
pub open spec fn custom_choice(options: EncoderOptions) -> Option<Seq<char>> {
    match options.custom_encoder {
        Some(c) => if is_blank(c@) {
            None
        } else {
            Some(c@)
        },
        None => None,
    }
}

/// Hardware encoders are probed only when neither a custom encoder nor MPEG-4 is chosen and
/// hardware acceleration is on.
pub open spec fn probes_hardware(options: EncoderOptions) -> bool {
    custom_choice(options) is None && !options.mpeg4 && options.hardware_accel
}

/// The encoder chosen, given the index of the first hardware encoder that passed its probe.
pub open spec fn chosen_encoder(options: EncoderOptions, working: Option<usize>) -> Seq<char> {
    match custom_choice(options) {
        Some(c) => c,
        None => if options.mpeg4 {
            "mpeg4"@
        } else if options.hardware_accel {
            match working {
                Some(i) => hardware_encoders(options.hevc)[i as int],
                None => software_encoder_name(options.hevc),
            }
        } else {
            software_encoder_name(options.hevc)
        },
    }
}

/// VAAPI encoders are recognised by their name.
pub open spec fn is_vaapi_name(encoder: Seq<char>) -> bool {
    seq_ends_with(encoder, "_vaapi"@)
}

pub fn is_vaapi(encoder: &str) -> (r: bool)
    ensures
        r == is_vaapi_name(encoder@),
{
    str_ends_with(encoder, "_vaapi")
}

pub fn software_encoder(hevc: bool) -> (s: String)
    ensures
        s@ == software_encoder_name(hevc),
{
    if hevc {
        "libx265".to_owned()
    } else {
        "libx264".to_owned()
    }
}

/// Whether the hardware encoders must be probed before the plan can be made.
pub fn needs_hardware_probe(options: &EncoderOptions) -> (r: bool)
    ensures
        r == probes_hardware(*options),
{
    let custom = match &options.custom_encoder {
        Some(c) => !str_is_blank(c.as_str()),
        None => false,
    };
    !custom && !options.mpeg4 && options.hardware_accel
}

/// The encoder list that hardware probing walks through, in order.
pub fn hardware_candidates(options: &EncoderOptions) -> (l: [&'static str; 4])
    ensures
        list_views(l) == hardware_encoders(options.hevc),
{
    let l = if options.hevc {
        encoder_list_hevc()
    } else {
        encoder_list_avc()
    };
    assert(list_views(l) =~= hardware_encoders(options.hevc));
    l
}

/// The encoder plan. `working` is the index of the first hardware encoder that passed its
/// probe, or `None` when none did or none was probed.
pub fn plan_video_encoder(options: &EncoderOptions, working: Option<usize>) -> (plan:
    VideoEncoderPlan)
    requires
        working matches Some(i) ==> i < 4,
    ensures
        plan.encoder@ == chosen_encoder(*options, working),
        list_views(plan.encoder_list) == hardware_encoders(options.hevc),
        plan.bitrate_control@ == bitrate_control(
            options.dynamic_bitrate_control,
            plan.encoder@,
            hardware_encoders(options.hevc),
            options.mpeg4,
            match options.custom_encoder {
                Some(c) => Some(c@),
                None => None,
            },
        ),
        is_vaapi_name(plan.encoder@) ==> string_views(plan.device_args@) == seq![
            "-vaapi_device"@,
            "/dev/dri/renderD128"@,
        ] && (plan.output_video_filter matches Some(f) && f@ == "format=nv12,hwupload"@),
        !is_vaapi_name(plan.encoder@) ==> plan.device_args@.len() == 0
            && plan.output_video_filter is None,
{
    let encoder_list = hardware_candidates(options);
    let custom = match &options.custom_encoder {
        Some(c) => if str_is_blank(c.as_str()) {
            None
        } else {
            Some(c.as_str())
        },
        None => None,
    };
    let encoder: String = match custom {
        Some(c) => c.to_owned(),
        None => if options.mpeg4 {
            "mpeg4".to_owned()
        } else if options.hardware_accel {
            match working {
                Some(i) => encoder_list[i].to_owned(),
                None => software_encoder(options.hevc),
            }
        } else {
            software_encoder(options.hevc)
        },
    };
    let vaapi = is_vaapi(encoder.as_str());
    let mut device_args: Vec<String> = Vec::new();
    let output_video_filter = if vaapi {
        push_str(&mut device_args, "-vaapi_device");
        push_str(&mut device_args, "/dev/dri/renderD128");
        Some("format=nv12,hwupload".to_owned())
    } else {
        None
    };
    let custom_encoder = match &options.custom_encoder {
        Some(c) => Some(c.as_str()),
        None => None,
    };
    let bitrate_control = select_bitrate_control(
        options.dynamic_bitrate_control,
        encoder.as_str(),
        encoder_list,
        options.mpeg4,
        custom_encoder,
    );
    assert(string_views(device_args@) =~= if vaapi {
        seq!["-vaapi_device"@, "/dev/dri/renderD128"@]
    } else {
        Seq::empty()
    });
    VideoEncoderPlan { encoder, encoder_list, bitrate_control, device_args, output_video_filter }
}

impl VideoEncoderPlan {
    /// Only NVENC needs the CUDA output-format hint on its input: its name then, else nothing.
    pub fn hardware_encoder_hint(&self) -> (r: &str)
        ensures
            seq_ends_with(self.encoder@, "_nvenc"@) ==> r@ == self.encoder_list[0]@,
            !seq_ends_with(self.encoder@, "_nvenc"@) ==> r@ == ""@,
    {
        if str_ends_with(self.encoder.as_str(), "_nvenc") {
            self.encoder_list[0]
        } else {
            ""
        }
    }
}

/// The FFmpeg arguments that check whether `encoder` works here: a one-second test picture is
/// encoded and thrown away.
pub open spec fn probe_args(encoder: Seq<char>) -> Seq<Seq<char>> {
    (if is_vaapi_name(encoder) {
        seq!["-vaapi_device"@, "/dev/dri/renderD128"@]
    } else {
        Seq::empty()
    }) + seq![
        "-f"@,
        "lavfi"@,
        "-i"@,
        "testsrc=size=128x128:rate=5:duration=1"@,
        "-pix_fmt"@,
        "yuv420p"@,
    ] + (if is_vaapi_name(encoder) {
        seq!["-vf"@, "format=nv12,hwupload"@]
    } else {
        Seq::empty()
    }) + seq!["-c:v"@, encoder, "-f"@, "null"@, "-"@, "-loglevel"@, "error"@]
}

pub fn encoder_probe_args(encoder: &str) -> (args: Vec<String>)
    ensures
        string_views(args@) == probe_args(encoder@),
{
    let vaapi = is_vaapi(encoder);
    let mut args: Vec<String> = Vec::new();
    if vaapi {
        push_str(&mut args, "-vaapi_device");
        push_str(&mut args, "/dev/dri/renderD128");
    }
    push_str(&mut args, "-f");
    push_str(&mut args, "lavfi");
    push_str(&mut args, "-i");
    push_str(&mut args, "testsrc=size=128x128:rate=5:duration=1");
    push_str(&mut args, "-pix_fmt");
    push_str(&mut args, "yuv420p");
    if vaapi {
        push_str(&mut args, "-vf");
        push_str(&mut args, "format=nv12,hwupload");
    }
    push_str(&mut args, "-c:v");
    push_str(&mut args, encoder);
    push_str(&mut args, "-f");
    push_str(&mut args, "null");
    push_str(&mut args, "-");
    push_str(&mut args, "-loglevel");
    push_str(&mut args, "error");
    assert(string_views(args@) =~= probe_args(encoder@));
    args
}

/// The FFmpeg arguments of a frame writer: raw frames in, fast software H.264 out, no audio.
pub open spec fn writer_args(width: u32, height: u32, fps: u32, output_path: Seq<char>) -> Seq<
    Seq<char>,
> {
    video_input_args(width, height, fps, "libx264"@, ""@) + seq![
        "-an"@,
        "-c:v"@,
        "libx264"@,
        "-preset"@,
        "ultrafast"@,
        "-y"@,
        "-loglevel"@,
        "error"@,
        output_path,
    ]
}

pub fn ffmpeg_writer_args(width: u32, height: u32, fps: u32, output_path: &str) -> (args: Vec<
    String,
>)
    ensures
        string_views(args@) == writer_args(width, height, fps, output_path@),
{
    let mut args = build_video_input_args(width, height, fps, "libx264", "");
    push_str(&mut args, "-an");
    push_str(&mut args, "-c:v");
    push_str(&mut args, "libx264");
    push_str(&mut args, "-preset");
    push_str(&mut args, "ultrafast");
    push_str(&mut args, "-y");
    push_str(&mut args, "-loglevel");
    push_str(&mut args, "error");
    push_str(&mut args, output_path);
    assert(string_views(args@) =~= writer_args(width, height, fps, output_path@));
    args
}

/// The plan uses the first hardware encoder that passed its probe: for the encoder at index `i`
/// of the candidates, tried in order, the plan names exactly that encoder and none of the ones
/// before it, which failed; with none working it falls back to the software encoder.
pub proof fn lemma_first_working_encoder_is_chosen(options: EncoderOptions, i: usize)
    requires
        probes_hardware(options),
        i < 4,
    ensures
        chosen_encoder(options, Some(i)) == (if options.hevc {
            seq!["hevc_nvenc"@, "hevc_qsv"@, "hevc_amf"@, "hevc_vaapi"@]
        } else {
            seq!["h264_nvenc"@, "h264_qsv"@, "h264_amf"@, "h264_vaapi"@]
        })[i as int],
        forall|j: int| 0 <= j < i ==> chosen_encoder(options, Some(i)) != #[trigger] hardware_encoders(
            options.hevc,
        )[j],
        chosen_encoder(options, None) == (if options.hevc {
            "libx265"@
        } else {
            "libx264"@
        }),
{
    reveal_strlit("hevc_nvenc");
    reveal_strlit("hevc_qsv");
    reveal_strlit("hevc_amf");
    reveal_strlit("hevc_vaapi");
    reveal_strlit("h264_nvenc");
    reveal_strlit("h264_qsv");
    reveal_strlit("h264_amf");
    reveal_strlit("h264_vaapi");
    let l = hardware_encoders(options.hevc);
    assert forall|j: int| 0 <= j < i implies chosen_encoder(options, Some(i)) != #[trigger] l[j] by {
        if options.hevc {
            assert(l[j][5] != l[i as int][5] || l[j].len() != l[i as int].len());
        } else {
            assert(l[j][5] != l[i as int][5] || l[j].len() != l[i as int].len());
        }
    }
}

/// The frame writer tells FFmpeg the size of the frames it is given, width first: the
/// argument after `-s` is `<width>x<height>`, the one after `-r` is the frame rate, and the
/// output path comes last.
pub proof fn lemma_writer_reads_frames_of_the_given_size(
    width: u32,
    height: u32,
    fps: u32,
    output_path: Seq<char>,
)
    ensures
        ({
            let args = writer_args(width, height, fps, output_path);
            &&& args.len() == 28
            &&& args[9] == "-s"@
            &&& args[10] == crate::decimal::decimal(width as nat) + "x"@ + crate::decimal::decimal(
                height as nat,
            )
            &&& args[11] == "-r"@
            &&& args[12] == crate::decimal::decimal(fps as nat)
            &&& args[27] == output_path
        }),
{
    reveal_strlit("libx264");
    reveal_strlit("");
    assert("libx264"@ != ""@) by {
        assert("libx264"@.len() != ""@.len());
    }
}

} // verus!
