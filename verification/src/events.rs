//! Job identifiers and the event sink that discards everything.
use vstd::prelude::*;

verus! {

pub type JobId = u64;

/// An event sink that drops every event.
#[derive(Debug, Default)]
pub struct NoopEventSink;

} // verus!
