//! The life of a render job as seen by the library: the states its events move it to, the
//! checks made when it is submitted, and the dispatcher that relays control requests to the
//! renderer host and events back to the caller.
use vstd::prelude::*;

use crate::abi::{
    bytes_view, copied_utf8, copy_utf8, header_ok, phi_job_state_t, phi_status_t,
    phi_struct_header_t, validate_header, PHI_STATUS_ABI_MISMATCH, PHI_STATUS_BUSY,
    PHI_STATUS_INVALID_ARGUMENT, PHI_STATUS_OK,
};
use crate::protocol::{
    ControlCommand, RenderRequestPayload, ResourceRootsPayload, JSON_SCHEMA_VERSION,
};
use crate::request::ResourceRoots;

verus! {

/// The kinds of event that a renderer host reports for a job.
#[derive(Debug, Clone, Copy, PartialEq, Eq, Structural)]
pub enum JobEventTag {
    Started,
    Loading,
    Mixing,
    MixingSfx,
    ResourcesReady,
    Rendering,
    FrameReady,
    Paused,
    Resumed,
    Done,
    Canceled,
    Failed,
}

/// The state that an event moves a job to.
pub open spec fn event_state(tag: JobEventTag) -> phi_job_state_t {
    match tag {
        JobEventTag::Started | JobEventTag::Loading => phi_job_state_t::Loading,
        JobEventTag::Mixing | JobEventTag::MixingSfx | JobEventTag::ResourcesReady => phi_job_state_t::Mixing,
        JobEventTag::Rendering | JobEventTag::Resumed | JobEventTag::FrameReady => phi_job_state_t::Rendering,
        JobEventTag::Paused => phi_job_state_t::Paused,
        JobEventTag::Done => phi_job_state_t::Done,
        JobEventTag::Canceled => phi_job_state_t::Canceled,
        JobEventTag::Failed => phi_job_state_t::Failed,
    }
}

/// The events after which a job reports nothing more.
pub open spec fn terminal(tag: JobEventTag) -> bool {
    tag == JobEventTag::Done || tag == JobEventTag::Canceled || tag == JobEventTag::Failed
}

pub fn event_to_state(tag: JobEventTag) -> (s: phi_job_state_t)
    ensures
        s == event_state(tag),
{
    match tag {
        JobEventTag::Started | JobEventTag::Loading => phi_job_state_t::Loading,
        JobEventTag::Mixing | JobEventTag::MixingSfx | JobEventTag::ResourcesReady => phi_job_state_t::Mixing,
        JobEventTag::Rendering | JobEventTag::Resumed | JobEventTag::FrameReady => phi_job_state_t::Rendering,
        JobEventTag::Paused => phi_job_state_t::Paused,
        JobEventTag::Done => phi_job_state_t::Done,
        JobEventTag::Canceled => phi_job_state_t::Canceled,
        JobEventTag::Failed => phi_job_state_t::Failed,
    }
}

pub fn is_terminal(tag: JobEventTag) -> (r: bool)
    ensures
        r == terminal(tag),
{
    match tag {
        JobEventTag::Done | JobEventTag::Canceled | JobEventTag::Failed => true,
        _ => false,
    }
}

/// Exactly the terminal events move a job to a final state.
pub proof fn lemma_terminal_iff_final(tag: JobEventTag)
    ensures
        terminal(tag) <==> event_state(tag).is_final(),
{
}

/// The order in which a submission is checked, once the caller's pointers are known to be
/// present: the request needs a configuration, a matching header, and an idle context.
pub open spec fn submit_status(
    config_present: bool,
    header: phi_struct_header_t,
    expected_size: usize,
    busy: bool,
) -> phi_status_t {
    if !config_present {
        PHI_STATUS_INVALID_ARGUMENT
    } else if !header_ok(header.struct_size, header.abi_version, expected_size) {
        PHI_STATUS_ABI_MISMATCH
    } else if busy {
        PHI_STATUS_BUSY
    } else {
        PHI_STATUS_OK
    }
}

pub fn check_submission(
    config_present: bool,
    header: phi_struct_header_t,
    expected_size: usize,
    busy: bool,
) -> (s: phi_status_t)
    ensures
        s == submit_status(config_present, header, expected_size, busy),
{
    if !config_present {
        return PHI_STATUS_INVALID_ARGUMENT;
    }
    if validate_header(header.struct_size, header.abi_version, expected_size) != PHI_STATUS_OK {
        return PHI_STATUS_ABI_MISMATCH;
    }
    if busy {
        return PHI_STATUS_BUSY;
    }
    PHI_STATUS_OK
}

/// The render request sent to the renderer host: the context's roots, the two paths copied
/// from the caller (chart path first), and the configuration and chart information already
/// serialised.
pub fn build_request_payload(
    roots: &ResourceRoots,
    chart_path: Option<&[u8]>,
    output_path: Option<&[u8]>,
    render_config_json: String,
    chart_info_json: Option<String>,
) -> (r: Result<RenderRequestPayload, phi_status_t>)
    ensures
        match (copied_utf8(bytes_view(chart_path)), copied_utf8(bytes_view(output_path))) {
            (Err(s), _) => r == Err::<RenderRequestPayload, phi_status_t>(s),
            (Ok(_), Err(s)) => r == Err::<RenderRequestPayload, phi_status_t>(s),
            (Ok(c), Ok(o)) => (r matches Ok(p) && p.schema_version == JSON_SCHEMA_VERSION
                && p.chart_path@ == c && p.output_path@ == o && p.render_config_json
                == render_config_json && p.chart_info_json == chart_info_json
                && p.resource_roots.assets_dir@ == roots.assets_dir@
                && p.resource_roots.fonts_dir@ == roots.fonts_dir@
                && p.resource_roots.resource_pack_dir@ == roots.resource_pack_dir@
                && p.resource_roots.ffmpeg_path@ == roots.ffmpeg_path@
                && p.resource_roots.temp_dir@ == roots.temp_dir@
                && p.resource_roots.renderer_host_path@ == roots.renderer_host_path@),
        },
{
    let chart = match copy_utf8(chart_path) {
        Ok(v) => v,
        Err(s) => return Err(s),
    };
    let output = match copy_utf8(output_path) {
        Ok(v) => v,
        Err(s) => return Err(s),
    };
    let resource_roots: ResourceRootsPayload = roots.to_payload();
    Ok(
        RenderRequestPayload {
            schema_version: JSON_SCHEMA_VERSION,
            chart_path: chart,
            output_path: output,
            resource_roots,
            render_config_json,
            chart_info_json,
        },
    )
}

/// What one pass of the dispatcher ends with.
#[derive(Debug, Clone, Copy, PartialEq, Eq, Structural)]
pub enum DispatchOutcome {
    /// The caller canceled: the host is killed, the job is reported canceled, and the
    /// dispatcher stops.
    Canceled,
    /// The host reported an event: the job moves to `state`, which is reported, and the
    /// dispatcher stops after a terminal event.
    Event { state: phi_job_state_t, terminal: bool },
    /// The host exited without a terminal event: the job is reported failed and the
    /// dispatcher stops.
    HostExited,
    /// Nothing happened: the dispatcher waits a moment and looks again.
    Idle,
}

/// One pass of the dispatcher: a control command to send first, if any, what the pass ends
/// with, and whether a pause is now in force at the host.
#[derive(Debug, Clone, Copy, PartialEq, Eq, Structural)]
pub struct DispatchStep {
    pub control: Option<ControlCommand>,
    pub outcome: DispatchOutcome,
    pub pause_sent: bool,
}

/// One pass of the dispatcher, given whether a pause was last sent to the host, the caller's
/// current requests, the next event from the host (if one is waiting) and whether the host
/// has exited. A cancel wins over everything; a pause or resume is sent only when the request
/// differs from what the host was last told.
pub open spec fn dispatch(
    pause_sent: bool,
    cancel_requested: bool,
    pause_requested: bool,
    event: Option<JobEventTag>,
    host_exited: bool,
) -> DispatchStep {
    if cancel_requested {
        DispatchStep { control: None, outcome: DispatchOutcome::Canceled, pause_sent }
    } else {
        DispatchStep {
            control: if pause_requested != pause_sent {
                Some(
                    if pause_requested {
                        ControlCommand::Pause
                    } else {
                        ControlCommand::Resume
                    },
                )
            } else {
                None
            },
            outcome: match event {
                Some(t) => DispatchOutcome::Event { state: event_state(t), terminal: terminal(t) },
                None => if host_exited {
                    DispatchOutcome::HostExited
                } else {
                    DispatchOutcome::Idle
                },
            },
            pause_sent: pause_requested,
        }
    }
}

pub fn dispatch_step(
    pause_sent: bool,
    cancel_requested: bool,
    pause_requested: bool,
    event: Option<JobEventTag>,
    host_exited: bool,
) -> (s: DispatchStep)
    ensures
        s == dispatch(pause_sent, cancel_requested, pause_requested, event, host_exited),
{
    if cancel_requested {
        return DispatchStep { control: None, outcome: DispatchOutcome::Canceled, pause_sent };
    }
    let control = if pause_requested != pause_sent {
        Some(
            if pause_requested {
                ControlCommand::Pause
            } else {
                ControlCommand::Resume
            },
        )
    } else {
        None
    };
    let outcome = match event {
        Some(t) => DispatchOutcome::Event { state: event_to_state(t), terminal: is_terminal(t) },
        None => if host_exited {
            DispatchOutcome::HostExited
        } else {
            DispatchOutcome::Idle
        },
    };
    DispatchStep { control, outcome, pause_sent: pause_requested }
}

/// Whether the dispatcher stops after a pass that ended so.
pub open spec fn stops(outcome: DispatchOutcome) -> bool {
    match outcome {
        DispatchOutcome::Canceled => true,
        DispatchOutcome::Event { terminal, .. } => terminal,
        DispatchOutcome::HostExited => true,
        DispatchOutcome::Idle => false,
    }
}

/// The state reported when a pass ends so, if any.
pub open spec fn reported_state(outcome: DispatchOutcome) -> Option<phi_job_state_t> {
    match outcome {
        DispatchOutcome::Canceled => Some(phi_job_state_t::Canceled),
        DispatchOutcome::Event { state, .. } => Some(state),
        DispatchOutcome::HostExited => Some(phi_job_state_t::Failed),
        DispatchOutcome::Idle => None,
    }
}

pub fn dispatch_stops(outcome: DispatchOutcome) -> (r: bool)
    ensures
        r == stops(outcome),
{
    match outcome {
        DispatchOutcome::Canceled => true,
        DispatchOutcome::Event { terminal, .. } => terminal,
        DispatchOutcome::HostExited => true,
        DispatchOutcome::Idle => false,
    }
}

/// The dispatcher stops exactly after reporting a final state, so the last state a caller
/// hears of is always final.
pub proof fn lemma_dispatcher_stops_on_final_state(
    pause_sent: bool,
    cancel_requested: bool,
    pause_requested: bool,
    event: Option<JobEventTag>,
    host_exited: bool,
)
    ensures
        ({
            let s = dispatch(pause_sent, cancel_requested, pause_requested, event, host_exited);
            stops(s.outcome) <==> (reported_state(s.outcome) matches Some(st) && st.is_final())
        }),
{
}

/// Control commands mirror the caller's pause requests without repeats: a pause is sent only
/// to a host that is not paused and a resume only to one that is, and afterwards the host has
/// been told the current request. A canceled job is sent nothing.
pub proof fn lemma_control_mirrors_requests(
    pause_sent: bool,
    cancel_requested: bool,
    pause_requested: bool,
    event: Option<JobEventTag>,
    host_exited: bool,
)
    ensures
        ({
            let s = dispatch(pause_sent, cancel_requested, pause_requested, event, host_exited);
            &&& s.control == Some(ControlCommand::Pause) ==> !pause_sent && s.pause_sent
            &&& s.control == Some(ControlCommand::Resume) ==> pause_sent && !s.pause_sent
            &&& s.control != Some(ControlCommand::Cancel)
            &&& !cancel_requested ==> s.pause_sent == pause_requested
            &&& cancel_requested ==> s.control is None && s.outcome == DispatchOutcome::Canceled
        }),
{
}

/// How the renderer host's work on a job ended.
#[derive(Debug, Clone, Copy, PartialEq, Eq, Structural)]
pub enum RenderOutcome {
    /// Preparing the resources failed; `canceled` when a cancel had been requested by then.
    PrepareFailed { canceled: bool },
    /// The resources were ready, but the job had been canceled meanwhile.
    CanceledAfterPrepare,
    /// The resources were ready and the frame was rendered and written (`ok`), or that failed.
    Rendered { ok: bool },
}

/// The events that the renderer host reports for a job, in order: the job starts and loads,
/// then ends in exactly one terminal event.
pub open spec fn render_event_tags(outcome: RenderOutcome) -> Seq<JobEventTag> {
    seq![JobEventTag::Started, JobEventTag::Loading] + match outcome {
        RenderOutcome::PrepareFailed { canceled } => if canceled {
            seq![JobEventTag::Canceled]
        } else {
            seq![JobEventTag::Failed]
        },
        RenderOutcome::CanceledAfterPrepare => seq![JobEventTag::Canceled],
        RenderOutcome::Rendered { ok } => if ok {
            seq![JobEventTag::ResourcesReady, JobEventTag::FrameReady, JobEventTag::Done]
        } else {
            seq![JobEventTag::ResourcesReady, JobEventTag::Failed]
        },
    }
}

pub fn render_events(outcome: RenderOutcome) -> (r: Vec<JobEventTag>)
    ensures
        r@ == render_event_tags(outcome),
{
    let mut r: Vec<JobEventTag> = Vec::new();
    r.push(JobEventTag::Started);
    r.push(JobEventTag::Loading);
    match outcome {
        RenderOutcome::PrepareFailed { canceled } => if canceled {
            r.push(JobEventTag::Canceled);
        } else {
            r.push(JobEventTag::Failed);
        },
        RenderOutcome::CanceledAfterPrepare => r.push(JobEventTag::Canceled),
        RenderOutcome::Rendered { ok } => {
            r.push(JobEventTag::ResourcesReady);
            if ok {
                r.push(JobEventTag::FrameReady);
                r.push(JobEventTag::Done);
            } else {
                r.push(JobEventTag::Failed);
            }
        },
    }
    assert(r@ =~= render_event_tags(outcome));
    r
}

/// Every job's report ends in exactly one terminal event, its last, so the job reaches a
/// final state once and the host frees it exactly then.
pub proof fn lemma_render_events_end_once(outcome: RenderOutcome)
    ensures
        ({
            let s = render_event_tags(outcome);
            &&& s.len() >= 3
            &&& terminal(s.last())
            &&& forall|i: int| 0 <= i < s.len() - 1 ==> !terminal(#[trigger] s[i])
        }),
{
    let s = render_event_tags(outcome);
    assert forall|i: int| 0 <= i < s.len() - 1 implies !terminal(#[trigger] s[i]) by {
        if i >= 2 {
            assert(s[i] == JobEventTag::ResourcesReady || s[i] == JobEventTag::FrameReady);
        }
    }
}

/// Each event moves a job to the state that it names, and to no other: only a finished render
/// is done, only a cancel is canceled, only a failure is failed, only a pause is paused; start
/// and loading are loading, the mixing events are mixing, and rendering, resuming and a ready
/// frame are rendering. No event sends a job back to pending.
pub proof fn lemma_events_name_their_states(tag: JobEventTag)
    ensures
        event_state(tag) == phi_job_state_t::Done <==> tag == JobEventTag::Done,
        event_state(tag) == phi_job_state_t::Canceled <==> tag == JobEventTag::Canceled,
        event_state(tag) == phi_job_state_t::Failed <==> tag == JobEventTag::Failed,
        event_state(tag) == phi_job_state_t::Paused <==> tag == JobEventTag::Paused,
        event_state(tag) == phi_job_state_t::Loading <==> (tag == JobEventTag::Started || tag
            == JobEventTag::Loading),
        event_state(tag) == phi_job_state_t::Mixing <==> (tag == JobEventTag::Mixing || tag
            == JobEventTag::MixingSfx || tag == JobEventTag::ResourcesReady),
        event_state(tag) == phi_job_state_t::Rendering <==> (tag == JobEventTag::Rendering || tag
            == JobEventTag::Resumed || tag == JobEventTag::FrameReady),
        event_state(tag) != phi_job_state_t::Pending,
{
}

/// While a job is not canceled, the dispatcher reports for each event the state that the
/// event names; in particular a finished render is reported done and stops the dispatcher.
pub proof fn lemma_dispatcher_reports_the_event_state(
    pause_sent: bool,
    pause_requested: bool,
    tag: JobEventTag,
    host_exited: bool,
)
    ensures
        reported_state(dispatch(pause_sent, false, pause_requested, Some(tag), host_exited).outcome)
            == Some(event_state(tag)),
        (dispatch(pause_sent, false, pause_requested, Some(tag), host_exited).outcome
            == DispatchOutcome::Event { state: phi_job_state_t::Done, terminal: true }) <==> tag
            == JobEventTag::Done,
{
    lemma_events_name_their_states(tag);
}

} // verus!
