//! The state behind the progress display: what the last event said, whether
//! the run has ended, and a short log of stamped messages.
//!
//! The display itself, the keyboard and the clock belong to the caller,
//! which hands in the events as they arrive and the time that has passed
//! since the run began.

use crate::event::{ProgressEvent, COMPLETE};
use vstd::prelude::*;
use vstd::string::StringExecFns;
use vstd::string::StringSliceAdditionalSpecFns;

verus! {

/// How many log lines the display keeps.
pub const LOG_CAPACITY: usize = 15;

/// The key that dismisses the display once the run has ended.
pub const QUIT_KEY: char = 'q';

/// The nanoseconds in a second: the part of a duration below one second
/// is less than this.
pub const NANOS_PER_SEC: u32 = 1_000_000_000;

/// The text that `humantime::format_duration` gives for a duration of `secs`
/// seconds and `nanos` nanoseconds.
pub uninterp spec fn duration_text(secs: u64, nanos: u32) -> Seq<char>;

/// `pattern` stands in `s` from place `i` on.
pub open spec fn occurs_at(s: Seq<u8>, pattern: Seq<u8>, i: int) -> bool {
    0 <= i && i + pattern.len() <= s.len() && s.subrange(i, i + pattern.len()) == pattern
}

/// `s` holds `pattern` as a run of consecutive bytes.
pub open spec fn has_subseq(s: Seq<u8>, pattern: Seq<u8>) -> bool {
    exists|i: int| occurs_at(s, pattern, i)
}

/// A log line: the stamp in square brackets, a space, the message.
pub open spec fn log_line(stamp: Seq<char>, message: Seq<char>) -> Seq<char> {
    "["@ + stamp + "] "@ + message
}

/// The log after `line` has been added: the line goes last, and the oldest
/// line leaves when that makes more than `LOG_CAPACITY`.
pub open spec fn appended(log: Seq<Seq<char>>, line: Seq<char>) -> Seq<Seq<char>> {
    let all = log.push(line);
    if all.len() > LOG_CAPACITY {
        all.drop_first()
    } else {
        all
    }
}

/// How a log line is to be shown.
#[derive(Clone, Copy, PartialEq, Eq, Debug, Structural)]
pub enum LineTone {
    /// The line reports a failure.
    Alert,
    /// The line reports the end of a successful run.
    Success,
    /// Any other line.
    Plain,
}

/// The tone of a line, told from its bytes alone: a line that mentions
/// "Error" is an alert, else one that mentions "completed" is a success.
pub open spec fn tone_of(line: Seq<u8>) -> LineTone {
    if has_subseq(line, "Error".spec_bytes()) {
        LineTone::Alert
    } else if has_subseq(line, "completed".spec_bytes()) {
        LineTone::Success
    } else {
        LineTone::Plain
    }
}

/// `humantime::format_duration` on the duration of `secs` seconds and `nanos`
/// nanoseconds, as text. The result is a function of the two numbers, and is
/// claimed to be the text that `duration_text` names.
#[verifier::external_body]
fn render_duration(secs: u64, nanos: u32) -> (text: String)
    requires
        nanos < NANOS_PER_SEC,
    ensures
        text@ == duration_text(secs, nanos),
{
    humantime::format_duration(std::time::Duration::new(secs, nanos)).to_string()
}

/// Whether `pattern` stands in `text` from place `at` on.
fn matches_at(text: &[u8], pattern: &[u8], at: usize) -> (same: bool)
    requires
        at + pattern@.len() <= text@.len(),
    ensures
        same == occurs_at(text@, pattern@, at as int),
{
    let text_len = text.len();
    let mut j: usize = 0;
    while j < pattern.len()
        invariant
            j <= pattern@.len(),
            at + pattern@.len() <= text@.len(),
            text@.len() == text_len,
            forall|k: int| 0 <= k < j ==> text@[at + k] == pattern@[k],
        decreases pattern@.len() - j,
    {
        if text[at + j] != pattern[j] {
            return false;
        }
        j += 1;
    }
    assert(text@.subrange(at as int, at + pattern@.len()) =~= pattern@);
    true
}

/// Whether `pattern` occurs in `text`. The empty pattern occurs in every
/// text.
pub fn contains_bytes(text: &[u8], pattern: &[u8]) -> (found: bool)
    ensures
        found == has_subseq(text@, pattern@),
{
    if pattern.len() > text.len() {
        return false;
    }
    let last: usize = text.len() - pattern.len();
    let mut i: usize = 0;
    while i < last
        invariant
            i <= last,
            last == text@.len() - pattern@.len(),
            forall|k: int| 0 <= k < i ==> !occurs_at(text@, pattern@, k),
        decreases last - i,
    {
        if matches_at(text, pattern, i) {
            return true;
        }
        i += 1;
    }
    matches_at(text, pattern, last)
}

/// The tone in which `line` is shown.
pub fn line_tone(line: &str) -> (tone: LineTone)
    ensures
        tone == tone_of(line.spec_bytes()),
{
    let bytes = line.as_bytes();
    if contains_bytes(bytes, "Error".as_bytes()) {
        LineTone::Alert
    } else if contains_bytes(bytes, "completed".as_bytes()) {
        LineTone::Success
    } else {
        LineTone::Plain
    }
}

/// The time since the run began, as the display shows it.
pub fn elapsed_text(secs: u64, nanos: u32) -> (text: String)
    requires
        nanos < NANOS_PER_SEC,
    ensures
        text@ == duration_text(secs, nanos),
{
    render_duration(secs, nanos)
}

/// What the display shows of one run.
pub struct PackerApp {
    pub progress: u16,
    pub status: String,
    pub finished: bool,
    pub log_messages: Vec<String>,
    pub input_file: String,
    pub output_file: String,
}

impl PackerApp {
    /// The log as a sequence of texts, oldest first.
    pub open spec fn log_view(&self) -> Seq<Seq<char>> {
        Seq::new(self.log_messages@.len(), |i: int| self.log_messages@[i]@)
    }

    /// The log is within its capacity, the percent is at most 100, and a run
    /// that has reached 100 is marked as finished.
    pub open spec fn wf(&self) -> bool {
        &&& self.log_messages@.len() <= LOG_CAPACITY
        &&& self.progress <= COMPLETE
        &&& self.progress == COMPLETE ==> self.finished
    }

    /// The state before any event: nothing done, nothing logged.
    pub fn new(input_file: String, output_file: String) -> (app: PackerApp)
        ensures
            app.wf(),
            app.progress == 0,
            app.status@ == "Initializing..."@,
            !app.finished,
            app.log_view() == Seq::<Seq<char>>::empty(),
            app.input_file == input_file,
            app.output_file == output_file,
    {
        PackerApp {
            progress: 0,
            status: String::from_str("Initializing..."),
            finished: false,
            log_messages: Vec::new(),
            input_file,
            output_file,
        }
    }

    /// Adds `message` to the log under the given stamp, and drops the
    /// oldest line when the log is over its capacity.
    pub fn push_log_line(&mut self, stamp: &str, message: &str)
        ensures
            final(self).log_view() == appended(old(self).log_view(), log_line(stamp@, message@)),
            final(self).progress == old(self).progress,
            final(self).status == old(self).status,
            final(self).finished == old(self).finished,
            final(self).input_file == old(self).input_file,
            final(self).output_file == old(self).output_file,
            old(self).wf() ==> final(self).wf(),
    {
        let line = String::from_str("[").concat(stamp).concat("] ").concat(message);
        self.log_messages.push(line);
        if self.log_messages.len() > LOG_CAPACITY {
            self.log_messages.remove(0);
        }
    }

    /// Adds `message` to the log, stamped with the time since the run
    /// began, which the caller gives in seconds and nanoseconds.
    pub fn add_log(&mut self, elapsed_secs: u64, elapsed_nanos: u32, message: String)
        requires
            elapsed_nanos < NANOS_PER_SEC,
        ensures
            final(self).log_view() == appended(
                old(self).log_view(),
                log_line(duration_text(elapsed_secs, elapsed_nanos), message@),
            ),
            final(self).progress == old(self).progress,
            final(self).status == old(self).status,
            final(self).finished == old(self).finished,
            final(self).input_file == old(self).input_file,
            final(self).output_file == old(self).output_file,
            old(self).wf() ==> final(self).wf(),
    {
        let stamp = render_duration(elapsed_secs, elapsed_nanos);
        self.push_log_line(stamp.as_str(), message.as_str());
    }

    /// Takes in one event from the worker: its message becomes the status
    /// and a new log line, its percent the progress, and the run counts as
    /// finished from the first event that carries 100.
    pub fn apply_event(&mut self, elapsed_secs: u64, elapsed_nanos: u32, event: ProgressEvent)
        requires
            elapsed_nanos < NANOS_PER_SEC,
            event.wf(),
        ensures
            final(self).status@ == event.message@,
            final(self).progress == event.percent,
            final(self).finished == (old(self).finished || event.percent == COMPLETE),
            final(self).log_view() == appended(
                old(self).log_view(),
                log_line(duration_text(elapsed_secs, elapsed_nanos), event.message@),
            ),
            final(self).input_file == old(self).input_file,
            final(self).output_file == old(self).output_file,
            old(self).log_messages@.len() <= LOG_CAPACITY ==> final(self).wf(),
    {
        let ProgressEvent { message, percent } = event;
        self.status = message.clone();
        self.progress = percent;
        if percent == COMPLETE {
            self.finished = true;
        }
        self.add_log(elapsed_secs, elapsed_nanos, message);
    }

    /// Whether a key press may dismiss the display: only the quit key, and
    /// only once the run is finished.
    pub fn may_exit(&self, key: char) -> (leave: bool)
        ensures
            leave == (key == QUIT_KEY && self.finished),
    {
        key == QUIT_KEY && self.finished
    }
}

} // verus!
