//! The renderer host's side of a connection: the hello handshake, then one decision per
//! incoming frame, with at most one render job running at a time.
use vstd::prelude::*;
use vstd::string::StringSliceAdditionalSpecFns;

use crate::le_bytes::{le_decode, le_encode};
use crate::protocol::{
    decode_protocol_version, encode_error, request_fault, encode_protocol_version, protocol_error_text,
    ControlCommand, ControlPayload, Frame, FrameView, MessageType, ProtocolError,
    RenderRequestPayload, JSON_SCHEMA_VERSION, MAX_PAYLOAD_SIZE, PROTOCOL_VERSION,
};
use crate::host::{carries_version, version_frame};

verus! {

#[derive(Debug, Clone, Copy, PartialEq, Eq, Structural)]
pub enum SessionPhase {
    AwaitingHello,
    Running,
    Stopped,
}

/// The session state: where the connection is, which job is rendering, and whether that
/// job's controls are still reachable.
#[derive(Debug, Clone, Copy, PartialEq, Eq, Structural)]
pub struct HostSession {
    pub phase: SessionPhase,
    pub active_job: Option<u64>,
    pub has_control: bool,
}

/// What the host does after the first frame.
#[derive(Debug)]
pub enum HelloOutcome {
    /// Send this acknowledgement and serve the connection.
    Accepted(Frame),
    /// Send the reply, if any, and end the connection with the error.
    Refused { reply: Option<Frame>, error: ProtocolError },
}

/// What the host does for one frame once the connection is served.
#[derive(Debug)]
pub enum SessionAction {
    /// Send this frame back.
    Send(Frame),
    /// Start rendering this request as job `job_id`, with fresh controls.
    StartRender { job_id: u64, request: RenderRequestPayload },
    /// Probe the graphics capabilities and answer `request_id`.
    StartProbe { request_id: u64 },
    /// Pass this command to the running job's controls.
    Control(ControlCommand),
    /// Cancel the running job if it has controls, stop the render thread, send the
    /// acknowledgement and end the connection.
    Shutdown { cancel_active: bool, ack: Frame },
}

/// The frame that answers `request_id` with an error text.
pub open spec fn error_frame_view(request_id: u64, message: Seq<u8>) -> FrameView {
    FrameView { message_type: MessageType::Error, request_id, flags: 0, payload: message }
}

/// An error answer with a fixed text.
pub fn fixed_error_frame(request_id: u64, message: &'static str) -> (f: Frame)
    ensures
        f@ == error_frame_view(request_id, message.spec_bytes()),
{
    Frame { message_type: MessageType::Error, request_id, flags: 0, payload: encode_error(message) }
}

/// An error answer with a text made at run time; a text too long for a frame is refused.
pub fn error_frame(request_id: u64, message: &str) -> (r: Result<Frame, ProtocolError>)
    ensures
        message.spec_bytes().len() <= MAX_PAYLOAD_SIZE ==> (r matches Ok(f) && f@
            == error_frame_view(request_id, message.spec_bytes())),
        message.spec_bytes().len() > MAX_PAYLOAD_SIZE ==> (r matches Err(
            ProtocolError::PayloadTooLarge(n),
        ) && n == message.spec_bytes().len()),
{
    Frame::new(MessageType::Error, request_id, 0, encode_error(message))
}

/// The decision for a frame, as a value: an error text to answer with, or one of the things
/// the host goes on to do.
pub enum Reply {
    Error(Seq<char>),
    StartRender(u64, RenderRequestPayload),
    StartProbe(u64),
    Control(ControlCommand),
    Shutdown(bool),
}

/// An executable action carries out a decision. An error answer whose text is too long for a
/// frame is the error of that frame instead.
pub open spec fn carries_out(r: Result<SessionAction, ProtocolError>, request_id: u64, reply: Reply) -> bool {
    match reply {
        Reply::Error(text) => {
            let bytes = vstd::utf8::encode_utf8(text);
            if bytes.len() <= MAX_PAYLOAD_SIZE {
                r matches Ok(SessionAction::Send(f)) && f@ == error_frame_view(request_id, bytes)
            } else {
                r matches Err(ProtocolError::PayloadTooLarge(n)) && n == bytes.len()
            }
        },
        Reply::StartRender(job, p) => r matches Ok(SessionAction::StartRender { job_id, request })
            && job_id == job && request == p,
        Reply::StartProbe(id) => r matches Ok(SessionAction::StartProbe { request_id: i }) && i == id,
        Reply::Control(c) => r matches Ok(SessionAction::Control(cmd)) && cmd == c,
        Reply::Shutdown(cancel) => r matches Ok(SessionAction::Shutdown { cancel_active, ack })
            && cancel_active == cancel && ack@ == (FrameView {
            message_type: MessageType::ShutdownAck,
            request_id,
            flags: 0,
            payload: Seq::empty(),
        }),
    }
}

/// A render request: answered with the decoding error or the request's first fault; turned
/// down while a job runs; otherwise it starts job `request_id` with fresh controls.
pub open spec fn render_request_step(
    s: HostSession,
    request_id: u64,
    decoded: Result<RenderRequestPayload, ProtocolError>,
) -> (HostSession, Reply) {
    match decoded {
        Err(e) => (s, Reply::Error(protocol_error_text(e))),
        Ok(p) => match request_fault(p) {
            Some(e) => (s, Reply::Error(protocol_error_text(e))),
            None => if s.active_job is Some {
                (s, Reply::Error("another render job is active"@))
            } else {
                (
                    HostSession { phase: s.phase, active_job: Some(request_id), has_control: true },
                    Reply::StartRender(request_id, p),
                )
            },
        },
    }
}

/// A control frame: it reaches the running job only when it decodes, has the current schema,
/// names that job, and the job's controls are reachable. The session never changes.
pub open spec fn control_step(
    s: HostSession,
    decoded: Result<ControlPayload, ProtocolError>,
) -> Reply {
    match decoded {
        Err(e) => Reply::Error(protocol_error_text(e)),
        Ok(c) => if c.schema_version != JSON_SCHEMA_VERSION {
            Reply::Error("unsupported control schema"@)
        } else if s.active_job != Some(c.job_id) {
            Reply::Error("unknown render job"@)
        } else if !s.has_control {
            Reply::Error("render control is unavailable"@)
        } else {
            Reply::Control(c.command)
        },
    }
}

/// Any other frame: a shutdown ends the session (canceling the running job if it has
/// controls), a capability probe is started, and a frame that only the host sends is an error.
pub open spec fn message_step(s: HostSession, message_type: MessageType, request_id: u64) -> (
    HostSession,
    Reply,
) {
    if message_type == MessageType::Shutdown {
        (
            HostSession { phase: SessionPhase::Stopped, active_job: s.active_job, has_control: s.has_control },
            Reply::Shutdown(s.has_control),
        )
    } else if message_type == MessageType::CapabilityProbe {
        (s, Reply::StartProbe(request_id))
    } else {
        (s, Reply::Error("unexpected message type"@))
    }
}

/// The running job finished: no job runs any more.
pub open spec fn job_finished_step(s: HostSession) -> HostSession {
    HostSession { phase: s.phase, active_job: None, has_control: false }
}

fn answer(request_id: u64, message: &str) -> (r: Result<SessionAction, ProtocolError>)
    ensures
        carries_out(r, request_id, Reply::Error(message@)),
{
    match error_frame(request_id, message) {
        Ok(f) => Ok(SessionAction::Send(f)),
        Err(e) => Err(e),
    }
}

impl HostSession {
    /// A session that waits for the hello message.
    pub fn new() -> (s: Self)
        ensures
            s == (HostSession {
                phase: SessionPhase::AwaitingHello,
                active_job: None,
                has_control: false,
            }),
    {
        HostSession { phase: SessionPhase::AwaitingHello, active_job: None, has_control: false }
    }

    /// The first frame must be a hello carrying this protocol version; it is acknowledged with
    /// the same request id and the version. Otherwise the connection ends: without a reply
    /// when there is no frame or its version cannot be read, with an error reply when it is
    /// not a hello or has another version.
    pub fn accept_hello(&mut self, frame: Option<&Frame>) -> (r: HelloOutcome)
        requires
            old(self).phase == SessionPhase::AwaitingHello,
        ensures
            final(self).active_job == old(self).active_job,
            final(self).has_control == old(self).has_control,
            r is Accepted <==> final(self).phase == SessionPhase::Running,
            r is Refused <==> final(self).phase == SessionPhase::Stopped,
            r is Accepted <==> (frame matches Some(h) && carries_version(h@, MessageType::Hello)),
            match frame {
                None => r matches HelloOutcome::Refused { reply: None, error: e } && e
                    == ProtocolError::InvalidPayload("the first frame must be a hello message"),
                Some(h) => if h.message_type != MessageType::Hello {
                    (r matches HelloOutcome::Refused { reply: Some(f), error: e } && f@
                        == error_frame_view(h.request_id, "the first message must be hello".spec_bytes())
                        && e == ProtocolError::InvalidPayload("missing hello message"))
                } else if h.payload@.len() != 2 {
                    (r matches HelloOutcome::Refused { reply: None, error: e } && e
                        == ProtocolError::InvalidPayload("protocol version must be two bytes"))
                } else if le_decode(h.payload@) != PROTOCOL_VERSION {
                    (r matches HelloOutcome::Refused { reply: Some(f), error: e } && f@
                        == error_frame_view(h.request_id, "protocol version mismatch".spec_bytes())
                        && e == ProtocolError::UnsupportedVersion(le_decode(h.payload@) as u16))
                } else {
                    (r matches HelloOutcome::Accepted(f) && f@ == version_frame(
                        MessageType::HelloAck,
                        h.request_id,
                    ))
                },
            },
    {
        let hello = match frame {
            None => {
                self.phase = SessionPhase::Stopped;
                return HelloOutcome::Refused {
                    reply: None,
                    error: ProtocolError::InvalidPayload("the first frame must be a hello message"),
                };
            },
            Some(h) => h,
        };
        if hello.message_type != MessageType::Hello {
            self.phase = SessionPhase::Stopped;
            return HelloOutcome::Refused {
                reply: Some(fixed_error_frame(hello.request_id, "the first message must be hello")),
                error: ProtocolError::InvalidPayload("missing hello message"),
            };
        }
        let version = match decode_protocol_version(hello.payload.as_slice()) {
            Ok(v) => v,
            Err(e) => {
                self.phase = SessionPhase::Stopped;
                return HelloOutcome::Refused { reply: None, error: e };
            },
        };
        proof {
            crate::le_bytes::lemma_le_decode_bound(hello.payload@);
            crate::le_bytes::lemma_pow256_values();
        }
        if version != PROTOCOL_VERSION {
            self.phase = SessionPhase::Stopped;
            return HelloOutcome::Refused {
                reply: Some(fixed_error_frame(hello.request_id, "protocol version mismatch")),
                error: ProtocolError::UnsupportedVersion(version),
            };
        }
        self.phase = SessionPhase::Running;
        HelloOutcome::Accepted(
            Frame {
                message_type: MessageType::HelloAck,
                request_id: hello.request_id,
                flags: 0,
                payload: encode_protocol_version(),
            },
        )
    }

    pub fn on_render_request(
        &mut self,
        request_id: u64,
        decoded: Result<RenderRequestPayload, ProtocolError>,
    ) -> (r: Result<SessionAction, ProtocolError>)
        requires
            old(self).phase == SessionPhase::Running,
        ensures
            ({
                let (next, reply) = render_request_step(*old(self), request_id, decoded);
                *final(self) == next && carries_out(r, request_id, reply)
            }),
    {
        let request = match decoded {
            Ok(p) => p,
            Err(e) => {
                let text = e.to_string();
                return answer(request_id, text.as_str());
            },
        };
        match request.validate() {
            Ok(()) => {},
            Err(e) => {
                let text = e.to_string();
                return answer(request_id, text.as_str());
            },
        }
        if self.active_job.is_some() {
            return answer(request_id, "another render job is active");
        }
        self.active_job = Some(request_id);
        self.has_control = true;
        Ok(SessionAction::StartRender { job_id: request_id, request })
    }

    pub fn on_control(
        &mut self,
        request_id: u64,
        decoded: Result<ControlPayload, ProtocolError>,
    ) -> (r: Result<SessionAction, ProtocolError>)
        requires
            old(self).phase == SessionPhase::Running,
        ensures
            *final(self) == *old(self),
            carries_out(r, request_id, control_step(*old(self), decoded)),
    {
        let control = match decoded {
            Ok(c) => c,
            Err(e) => {
                let text = e.to_string();
                return answer(request_id, text.as_str());
            },
        };
        if control.schema_version != JSON_SCHEMA_VERSION {
            answer(request_id, "unsupported control schema")
        } else if self.active_job != Some(control.job_id) {
            answer(request_id, "unknown render job")
        } else if !self.has_control {
            answer(request_id, "render control is unavailable")
        } else {
            Ok(SessionAction::Control(control.command))
        }
    }

    pub fn on_message(&mut self, message_type: MessageType, request_id: u64) -> (r: Result<
        SessionAction,
        ProtocolError,
    >)
        requires
            old(self).phase == SessionPhase::Running,
            message_type != MessageType::RenderRequest,
            message_type != MessageType::Control,
        ensures
            ({
                let (next, reply) = message_step(*old(self), message_type, request_id);
                *final(self) == next && carries_out(r, request_id, reply)
            }),
    {
        match message_type {
            MessageType::Shutdown => {
                self.phase = SessionPhase::Stopped;
                let ack = Frame {
                    message_type: MessageType::ShutdownAck,
                    request_id,
                    flags: 0,
                    payload: Vec::new(),
                };
                Ok(SessionAction::Shutdown { cancel_active: self.has_control, ack })
            },
            MessageType::CapabilityProbe => Ok(SessionAction::StartProbe { request_id }),
            _ => answer(request_id, "unexpected message type"),
        }
    }

    pub fn on_job_finished(&mut self)
        ensures
            *final(self) == job_finished_step(*old(self)),
    {
        self.active_job = None;
        self.has_control = false;
    }
}

/// One job at a time: while a job runs, a render request never starts another one and leaves
/// the session as it was; once the running job has finished, a valid request starts.
pub proof fn lemma_one_job_at_a_time(
    s: HostSession,
    request_id: u64,
    decoded: Result<RenderRequestPayload, ProtocolError>,
)
    ensures
        s.active_job is Some ==> render_request_step(s, request_id, decoded).0 == s
            && !(render_request_step(s, request_id, decoded).1 is StartRender),
        decoded matches Ok(p) ==> (request_fault(p) is None ==> render_request_step(
            job_finished_step(s),
            request_id,
            decoded,
        ) == (
            HostSession { phase: s.phase, active_job: Some(request_id), has_control: true },
            Reply::StartRender(request_id, p),
        )),
{
}

/// Controls reach only the running job, and only through a frame that names it.
pub proof fn lemma_control_reaches_only_the_running_job(
    s: HostSession,
    decoded: Result<ControlPayload, ProtocolError>,
)
    ensures
        control_step(s, decoded) is Control ==> (decoded matches Ok(c) && s.active_job == Some(
            c.job_id,
        ) && s.has_control && c.schema_version == JSON_SCHEMA_VERSION),
        s.active_job is None ==> !(control_step(s, decoded) is Control),
{
}

/// After a shutdown the session is stopped, and the running job is canceled exactly when its
/// controls are reachable.
pub proof fn lemma_shutdown_stops(s: HostSession, request_id: u64)
    ensures
        message_step(s, MessageType::Shutdown, request_id).0.phase == SessionPhase::Stopped,
        message_step(s, MessageType::Shutdown, request_id).1 == Reply::Shutdown(s.has_control),
{
}

/// A control frame reaches the running job with the caller's command unchanged, and it does
/// so exactly when it has the current schema, names the running job, and that job's controls
/// are reachable.
pub proof fn lemma_control_carries_the_command(
    s: HostSession,
    decoded: Result<ControlPayload, ProtocolError>,
)
    ensures
        control_step(s, decoded) matches Reply::Control(cmd) ==> (decoded matches Ok(c)
            && cmd == c.command),
        decoded matches Ok(c) ==> ((c.schema_version == JSON_SCHEMA_VERSION && s.active_job
            == Some(c.job_id) && s.has_control) <==> control_step(s, decoded) == Reply::Control(
            c.command,
        )),
{
}

} // verus!
