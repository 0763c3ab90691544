//! The retry policy of the handle-based native clipboard.
//!
//! One operation is a run of steps. The caller performs each step (create the
//! handle if it is absent, call the clipboard, drop the handle, wait) and
//! reports what happened; the run decides the next step. A failed call drops
//! the handle, a benign "empty" answer to a read ends the run at once, and
//! after `MAX_ATTEMPTS` attempts the last failure is the error.

use crate::text::{contains_text, has_substring, join};
use vstd::prelude::*;
use vstd::string::*;

verus! {

/// Attempts of one operation, the first included.
pub const MAX_ATTEMPTS: u32 = 3;

/// Wait before the second attempt; each later wait doubles it.
pub const BASE_DELAY_MS: u64 = 50;

/// The operations of the native clipboard.
#[derive(Clone, Copy, Debug, PartialEq, Eq, Structural)]
pub enum NativeOp {
    ReadText,
    ReadImage,
    WriteText,
    WriteImage,
}

/// How a run ended.
#[derive(Clone, Copy, Debug, PartialEq, Eq, Structural)]
pub enum Outcome {
    /// The call succeeded.
    Success,
    /// A read found nothing of the requested kind: not an error.
    Empty,
    /// Every attempt failed; the run's failure says how the last one did.
    Failed,
}

/// What the caller is to do next.
#[derive(Clone, Copy, Debug, PartialEq, Eq, Structural)]
pub enum Step {
    /// Create the handle if there is none.
    EnsureHandle,
    /// Perform the operation on the handle.
    Invoke,
    /// Drop the handle, so that the next attempt creates a new one.
    Discard,
    /// Wait this many milliseconds.
    Wait(u64),
    /// The run is over.
    Finish(Outcome),
}

/// What the caller reports after a step.
pub enum Report {
    /// A handle exists.
    HandleReady,
    /// Creating the handle failed, with the clipboard's description.
    HandleFailed(String),
    /// The operation succeeded.
    Done,
    /// The operation failed, with the clipboard's description.
    CallFailed(String),
    /// The handle was dropped.
    Discarded,
    /// The wait is over.
    Waited,
}

/// The state of a run.
pub struct RunView {
    pub op: NativeOp,
    /// Attempts begun before the current one.
    pub attempt: nat,
    /// How the latest failure was described.
    pub failure: Seq<char>,
    /// How the run ended, once it has.
    pub ended: Option<Outcome>,
}

/// One operation in progress.
pub struct RetryRun {
    op: NativeOp,
    attempt: u32,
    failure: String,
    ended: Option<Outcome>,
}

impl View for RetryRun {
    type V = RunView;

    closed spec fn view(&self) -> RunView {
        RunView { op: self.op, attempt: self.attempt as nat, failure: self.failure@, ended: self.ended }
    }
}

/// The state of a run that has not begun.
pub open spec fn initial(op: NativeOp) -> RunView {
    RunView { op, attempt: 0, failure: Seq::empty(), ended: None }
}

/// The wait before attempt `k` (counting from 0), for `k >= 1`.
pub open spec fn backoff_ms(k: nat) -> nat
    decreases k,
{
    if k <= 1 {
        BASE_DELAY_MS as nat
    } else {
        2 * backoff_ms((k - 1) as nat)
    }
}

/// A failure description that means "nothing there" for a read.
pub open spec fn is_benign(op: NativeOp, m: Seq<char>) -> bool {
    match op {
        NativeOp::ReadText => has_substring(m, "empty"@) || has_substring(m, "not available"@),
        NativeOp::ReadImage => has_substring(m, "empty"@) || has_substring(m, "not available"@)
            || has_substring(m, "ContentNotAvailable"@),
        _ => false,
    }
}

/// What a failed call of `op` is reported as, before the clipboard's words.
pub open spec fn call_prefix(op: NativeOp) -> Seq<char> {
    match op {
        NativeOp::ReadText => "Failed to read clipboard: "@,
        NativeOp::ReadImage => "Failed to read image: "@,
        NativeOp::WriteText => "Failed to write clipboard: "@,
        NativeOp::WriteImage => "Failed to write image: "@,
    }
}

/// What a failed handle creation is reported as, before the clipboard's words.
pub open spec fn create_prefix() -> Seq<char> {
    "Failed to create clipboard instance: "@
}

/// After a failure: another attempt after a wait, or the end of the run.
pub open spec fn retry_or_fail(s: RunView) -> (RunView, Step) {
    if s.attempt + 1 < MAX_ATTEMPTS {
        let k = s.attempt + 1;
        (RunView { attempt: k, ..s }, Step::Wait(backoff_ms(k) as u64))
    } else {
        (RunView { ended: Some(Outcome::Failed), ..s }, Step::Finish(Outcome::Failed))
    }
}

/// The next state and step of a run, given the caller's report.
pub open spec fn next(s: RunView, report: Report) -> (RunView, Step) {
    match s.ended {
        Some(o) => (s, Step::Finish(o)),
        None => match report {
            Report::HandleReady => (s, Step::Invoke),
            Report::HandleFailed(m) => retry_or_fail(RunView { failure: create_prefix() + m@, ..s }),
            Report::Done => (RunView { ended: Some(Outcome::Success), ..s }, Step::Finish(Outcome::Success)),
            Report::CallFailed(m) => if is_benign(s.op, m@) {
                (RunView { ended: Some(Outcome::Empty), ..s }, Step::Finish(Outcome::Empty))
            } else {
                (RunView { failure: call_prefix(s.op) + m@, ..s }, Step::Discard)
            },
            Report::Discarded => retry_or_fail(s),
            Report::Waited => (s, Step::EnsureHandle),
        },
    }
}

/// The state and the steps after a sequence of reports.
pub open spec fn run_reports(s: RunView, reports: Seq<Report>) -> (RunView, Seq<Step>)
    decreases reports.len(),
{
    if reports.len() == 0 {
        (s, Seq::empty())
    } else {
        let (s1, st) = next(s, reports[0]);
        let (s2, rest) = run_reports(s1, reports.drop_first());
        (s2, seq![st] + rest)
    }
}

/// Whether a failure description means "nothing there" for a read of `op`.
fn benign_failure(op: NativeOp, m: &str) -> (r: bool)
    ensures
        r == is_benign(op, m@),
{
    match op {
        NativeOp::ReadText => contains_text(m, "empty") || contains_text(m, "not available"),
        NativeOp::ReadImage => contains_text(m, "empty") || contains_text(m, "not available")
            || contains_text(m, "ContentNotAvailable"),
        _ => false,
    }
}

fn call_failure(op: NativeOp, m: &str) -> (r: String)
    ensures
        r@ == call_prefix(op) + m@,
{
    match op {
        NativeOp::ReadText => join("Failed to read clipboard: ", m),
        NativeOp::ReadImage => join("Failed to read image: ", m),
        NativeOp::WriteText => join("Failed to write clipboard: ", m),
        NativeOp::WriteImage => join("Failed to write image: ", m),
    }
}

/// The wait before attempt `k`.
fn backoff(k: u32) -> (r: u64)
    requires
        1 <= k < MAX_ATTEMPTS,
    ensures
        r == backoff_ms(k as nat),
{
    let mut d: u64 = BASE_DELAY_MS;
    let mut i: u32 = 1;
    while i < k
        invariant
            1 <= i <= k < MAX_ATTEMPTS,
            d == backoff_ms(i as nat),
            d <= BASE_DELAY_MS * 2,
        decreases k - i,
    {
        d = d * 2;
        i = i + 1;
    }
    d
}

impl RetryRun {
    /// The attempt counter stays below the bound.
    pub open spec fn wf(&self) -> bool {
        self@.attempt < MAX_ATTEMPTS
    }

    /// A new run of `op` and its first step: make sure a handle exists.
    pub fn start(op: NativeOp) -> (r: (RetryRun, Step))
        ensures
            r.0@ == initial(op),
            r.0.wf(),
            r.1 == Step::EnsureHandle,
    {
        (RetryRun { op, attempt: 0, failure: String::new(), ended: None }, Step::EnsureHandle)
    }

    /// The operation this run performs.
    pub fn op(&self) -> (r: NativeOp)
        ensures
            r == self@.op,
    {
        self.op
    }

    /// How the latest failure was described: the error of a failed run.
    pub fn failure(&self) -> (r: String)
        ensures
            r@ == self@.failure,
    {
        self.failure.clone()
    }

    /// The answer to a text read that ended with `outcome`, where `text` is
    /// what a successful call read: an empty clipboard reads as empty text.
    pub fn text_result(&self, outcome: Outcome, text: String) -> (r: Result<String, String>)
        ensures
            outcome == Outcome::Success ==> r == Ok::<String, String>(text),
            outcome == Outcome::Empty ==> (r matches Ok(t) && t@.len() == 0),
            outcome == Outcome::Failed ==> (r matches Err(e) && e@ == self@.failure),
    {
        match outcome {
            Outcome::Success => Ok(text),
            Outcome::Empty => Ok(String::new()),
            Outcome::Failed => Err(self.failure()),
        }
    }

    /// The answer to an image read that ended with `outcome`, where `image`
    /// is what a successful call read: an empty clipboard reads as no image.
    pub fn image_result<T>(&self, outcome: Outcome, image: Option<T>) -> (r: Result<Option<T>, String>)
        ensures
            outcome == Outcome::Success ==> r == Ok::<Option<T>, String>(image),
            outcome == Outcome::Empty ==> r == Ok::<Option<T>, String>(None),
            outcome == Outcome::Failed ==> (r matches Err(e) && e@ == self@.failure),
    {
        match outcome {
            Outcome::Success => Ok(image),
            Outcome::Empty => Ok(None),
            Outcome::Failed => Err(self.failure()),
        }
    }

    /// The answer to a write that ended with `outcome`.
    pub fn write_result(&self, outcome: Outcome) -> (r: Result<(), String>)
        ensures
            outcome != Outcome::Failed ==> r is Ok,
            outcome == Outcome::Failed ==> (r matches Err(e) && e@ == self@.failure),
    {
        match outcome {
            Outcome::Failed => Err(self.failure()),
            _ => Ok(()),
        }
    }

    fn retry_or_fail(&mut self) -> (r: Step)
        ensures
            old(self).wf() ==> final(self).wf(),
            (final(self)@, r) == retry_or_fail(old(self)@),
    {
        if self.attempt < MAX_ATTEMPTS - 1 {
            self.attempt = self.attempt + 1;
            Step::Wait(backoff(self.attempt))
        } else {
            self.ended = Some(Outcome::Failed);
            Step::Finish(Outcome::Failed)
        }
    }

    /// Takes the report on the last step and gives the next step.
    pub fn step(&mut self, report: Report) -> (r: Step)
        ensures
            old(self).wf() ==> final(self).wf(),
            (final(self)@, r) == next(old(self)@, report),
    {
        if let Some(o) = self.ended {
            return Step::Finish(o);
        }
        match report {
            Report::HandleReady => Step::Invoke,
            Report::HandleFailed(m) => {
                self.failure = join("Failed to create clipboard instance: ", m.as_str());
                self.retry_or_fail()
            },
            Report::Done => {
                self.ended = Some(Outcome::Success);
                Step::Finish(Outcome::Success)
            },
            Report::CallFailed(m) => {
                if benign_failure(self.op, m.as_str()) {
                    self.ended = Some(Outcome::Empty);
                    Step::Finish(Outcome::Empty)
                } else {
                    self.failure = call_failure(self.op, m.as_str());
                    Step::Discard
                }
            },
            Report::Discarded => self.retry_or_fail(),
            Report::Waited => Step::EnsureHandle,
        }
    }
}

/// A text read that the clipboard answers with "empty" or "not available"
/// ends at its first attempt, as empty: no handle is dropped and no wait is
/// taken.
pub proof fn lemma_empty_text_read_ends_at_once(m: String)
    requires
        is_benign(NativeOp::ReadText, m@),
    ensures
        run_reports(initial(NativeOp::ReadText), seq![Report::HandleReady, Report::CallFailed(m)]) == (
            RunView { ended: Some(Outcome::Empty), ..initial(NativeOp::ReadText) },
            seq![Step::Invoke, Step::Finish(Outcome::Empty)],
        ),
{
    reveal_with_fuel(run_reports, 3);
}

/// A text write whose first two calls fail and whose third succeeds
/// succeeds; the handle is dropped after each failed call, and the waits
/// between the attempts double.
pub proof fn lemma_write_succeeds_on_third_attempt(e1: String, e2: String)
    ensures
        run_reports(
            initial(NativeOp::WriteText),
            seq![
                Report::HandleReady,
                Report::CallFailed(e1),
                Report::Discarded,
                Report::Waited,
                Report::HandleReady,
                Report::CallFailed(e2),
                Report::Discarded,
                Report::Waited,
                Report::HandleReady,
                Report::Done,
            ],
        ).1 == seq![
            Step::Invoke,
            Step::Discard,
            Step::Wait(BASE_DELAY_MS),
            Step::EnsureHandle,
            Step::Invoke,
            Step::Discard,
            Step::Wait((2 * BASE_DELAY_MS) as u64),
            Step::EnsureHandle,
            Step::Invoke,
            Step::Finish(Outcome::Success),
        ],
{
    reveal_with_fuel(run_reports, 11);
    reveal_with_fuel(backoff_ms, 3);
}

/// A text write whose three calls all fail ends failed, after dropping the
/// handle, with an error that holds the description of the last failure.
pub proof fn lemma_write_fails_after_three_attempts(e1: String, e2: String, e3: String)
    ensures
        ({
            let (s, steps) = run_reports(
                initial(NativeOp::WriteText),
                seq![
                    Report::HandleReady,
                    Report::CallFailed(e1),
                    Report::Discarded,
                    Report::Waited,
                    Report::HandleReady,
                    Report::CallFailed(e2),
                    Report::Discarded,
                    Report::Waited,
                    Report::HandleReady,
                    Report::CallFailed(e3),
                    Report::Discarded,
                ],
            );
            &&& steps.len() == 11
            &&& steps[9] == Step::Discard
            &&& steps[10] == Step::Finish(Outcome::Failed)
            &&& s.failure == "Failed to write clipboard: "@ + e3@
            &&& has_substring(s.failure, e3@)
        }),
{
    reveal_with_fuel(run_reports, 12);
    reveal_with_fuel(backoff_ms, 3);
    let f = "Failed to write clipboard: "@ + e3@;
    let k = "Failed to write clipboard: "@.len() as int;
    assert(f.subrange(k, k + e3@.len()) =~= e3@);
    assert(crate::text::occurs_at(f, e3@, k));
}

} // verus!
