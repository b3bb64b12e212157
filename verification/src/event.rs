//! Progress events, as the worker hands them to the display.

use vstd::prelude::*;
use vstd::string::StringExecFns;

verus! {

/// The percent value that ends a run.
pub const COMPLETE: u16 = 100;

/// One notification from the worker: a message for the reader and how far
/// the run has come.
#[derive(Debug)]
pub struct ProgressEvent {
    pub message: String,
    pub percent: u16,
}

impl ProgressEvent {
    /// The percent lies between 0 and 100.
    pub open spec fn wf(&self) -> bool {
        self.percent <= COMPLETE
    }

    /// Builds an event, or nothing when `percent` is above 100.
    pub fn new(message: String, percent: u16) -> (event: Option<ProgressEvent>)
        ensures
            percent <= COMPLETE <==> event is Some,
            event matches Some(e) ==> e.message@ == message@ && e.percent == percent && e.wf(),
    {
        if percent <= COMPLETE {
            Some(ProgressEvent { message, percent })
        } else {
            None
        }
    }

    /// The message and the percent as a pair, the form in which events travel.
    pub fn into_pair(self) -> (pair: (String, u16))
        ensures
            pair.0@ == self.message@,
            pair.1 == self.percent,
    {
        (self.message, self.percent)
    }
}

/// The text that opens every failure message.
pub open spec fn failure_prefix() -> Seq<char> {
    "❌ Error: "@
}

/// The message of a failure event that reports `reason`.
pub open spec fn failure_text(reason: Seq<char>) -> Seq<char> {
    failure_prefix() + reason
}

/// The event that ends a run with `reason` as the reported failure.
pub fn failure_event(reason: &str) -> (event: ProgressEvent)
    ensures
        event.message@ == failure_text(reason@),
        event.percent == COMPLETE,
        event.wf(),
{
    let message = String::from_str("❌ Error: ").concat(reason);
    ProgressEvent { message, percent: COMPLETE }
}

} // verus!
