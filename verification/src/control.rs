//! Cancel and pause requests for one render job.
//!
//! Each request changes the control state as `apply` says. A cancel is final: it clears any
//! pause, and no later request can undo it or pause the job again.
use vstd::prelude::*;

verus! {

#[derive(Debug, Clone, Copy, PartialEq, Eq, Structural)]
pub enum ControlError {
    Canceled,
}

/// The requests a job can receive.
#[derive(Debug, Clone, Copy, PartialEq, Eq, Structural)]
pub enum ControlRequest {
    Cancel,
    Pause,
    Resume,
}

/// The control state as a value.
pub struct JobControlView {
    pub cancel_requested: bool,
    pub pause_requested: bool,
}

/// The state after one request.
pub open spec fn apply(s: JobControlView, request: ControlRequest) -> JobControlView {
    match request {
        ControlRequest::Cancel => JobControlView { cancel_requested: true, pause_requested: false },
        ControlRequest::Pause => JobControlView {
            cancel_requested: s.cancel_requested,
            pause_requested: s.pause_requested || !s.cancel_requested,
        },
        ControlRequest::Resume => JobControlView {
            cancel_requested: s.cancel_requested,
            pause_requested: false,
        },
    }
}

/// The state after a sequence of requests, applied in order.
pub open spec fn apply_all(s: JobControlView, requests: Seq<ControlRequest>) -> JobControlView
    decreases requests.len(),
{
    if requests.len() == 0 {
        s
    } else {
        apply_all(apply(s, requests[0]), requests.drop_first())
    }
}

/// The states that can be reached: a canceled job is never paused.
pub open spec fn reachable(s: JobControlView) -> bool {
    s.cancel_requested ==> !s.pause_requested
}

/// What a worker that checks in is told: go on, stop because the job was canceled, or
/// (`None`) wait for the next change of the state and check in again.
pub open spec fn wait_outcome(s: JobControlView) -> Option<Result<(), ControlError>> {
    if s.cancel_requested {
        Some(Err(ControlError::Canceled))
    } else if s.pause_requested {
        None
    } else {
        Some(Ok(()))
    }
}

#[derive(Debug)]
pub struct JobControl {
    cancel_requested: bool,
    pause_requested: bool,
}

impl View for JobControl {
    type V = JobControlView;

    closed spec fn view(&self) -> JobControlView {
        JobControlView {
            cancel_requested: self.cancel_requested,
            pause_requested: self.pause_requested,
        }
    }
}

impl JobControl {
    #[verifier::type_invariant]
    spec fn inv(self) -> bool {
        reachable(self@)
    }

    /// A control with no request made.
    pub fn new() -> (c: Self)
        ensures
            c@ == (JobControlView { cancel_requested: false, pause_requested: false }),
    {
        JobControl { cancel_requested: false, pause_requested: false }
    }

    pub fn cancel(&mut self)
        ensures
            final(self)@ == apply(old(self)@, ControlRequest::Cancel),
    {
        *self = JobControl { cancel_requested: true, pause_requested: false };
    }

    pub fn pause(&mut self)
        ensures
            final(self)@ == apply(old(self)@, ControlRequest::Pause),
    {
        proof {
            use_type_invariant(&*self);
        }
        if !self.cancel_requested {
            *self = JobControl { cancel_requested: false, pause_requested: true };
        }
    }

    pub fn resume(&mut self)
        ensures
            final(self)@ == apply(old(self)@, ControlRequest::Resume),
    {
        let canceled = self.cancel_requested;
        *self = JobControl { cancel_requested: canceled, pause_requested: false };
    }

    /// Carries out one request.
    pub fn request(&mut self, request: ControlRequest)
        ensures
            final(self)@ == apply(old(self)@, request),
    {
        match request {
            ControlRequest::Cancel => self.cancel(),
            ControlRequest::Pause => self.pause(),
            ControlRequest::Resume => self.resume(),
        }
    }

    pub fn is_cancel_requested(&self) -> (r: bool)
        ensures
            r == self@.cancel_requested,
            reachable(self@),
    {
        proof {
            use_type_invariant(self);
        }
        self.cancel_requested
    }

    pub fn is_pause_requested(&self) -> (r: bool)
        ensures
            r == self@.pause_requested,
            reachable(self@),
    {
        proof {
            use_type_invariant(self);
        }
        self.pause_requested
    }

    /// Whether a worker may go on: `None` while the job is paused and not canceled.
    pub fn wait_if_paused(&self) -> (r: Option<Result<(), ControlError>>)
        ensures
            r == wait_outcome(self@),
    {
        if self.cancel_requested {
            Some(Err(ControlError::Canceled))
        } else if self.pause_requested {
            None
        } else {
            Some(Ok(()))
        }
    }
}

impl Default for JobControl {
    fn default() -> (c: Self)
        ensures
            c@ == (JobControlView { cancel_requested: false, pause_requested: false }),
    {
        JobControl::new()
    }
}

/// Requests keep the state reachable.
pub proof fn lemma_apply_keeps_reachable(s: JobControlView, requests: Seq<ControlRequest>)
    requires
        reachable(s),
    ensures
        reachable(apply_all(s, requests)),
    decreases requests.len(),
{
    if requests.len() > 0 {
        lemma_apply_keeps_reachable(apply(s, requests[0]), requests.drop_first());
    }
}

/// Once a job is canceled it stays canceled whatever is requested later, and every worker
/// that checks in is told to stop.
pub proof fn lemma_cancel_is_final(s: JobControlView, requests: Seq<ControlRequest>)
    requires
        s.cancel_requested,
        reachable(s),
    ensures
        apply_all(s, requests).cancel_requested,
        !apply_all(s, requests).pause_requested,
        wait_outcome(apply_all(s, requests)) == Some(Err::<(), ControlError>(ControlError::Canceled)),
    decreases requests.len(),
{
    if requests.len() > 0 {
        lemma_cancel_is_final(apply(s, requests[0]), requests.drop_first());
    }
}

/// A resume lets a worker that is not canceled go on; a pause holds it.
pub proof fn lemma_pause_then_resume(s: JobControlView)
    requires
        !s.cancel_requested,
    ensures
        wait_outcome(apply(s, ControlRequest::Pause)) == None::<Result<(), ControlError>>,
        wait_outcome(apply(apply(s, ControlRequest::Pause), ControlRequest::Resume)) == Some(
            Ok::<(), ControlError>(()),
        ),
{
}

} // verus!
