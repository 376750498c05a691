//! The record kept for each run and the rules of its one state change.

use vstd::prelude::*;

verus! {

/// Exit code recorded when the command ended without a code of its own
/// (it was terminated by a signal).
pub const EXIT_KILLED: i32 = -1;

/// Exit code recorded when the supervisor could not observe the command's exit.
pub const EXIT_CRASHED: i32 = -2;

/// A point in time in UTC: whole seconds since the Unix epoch and the
/// nanoseconds within that second.
#[derive(Clone, Copy, Debug, PartialEq, Eq, Structural)]
pub struct Timestamp {
    pub secs: i64,
    pub nanos: u32,
}

impl Timestamp {
    pub open spec fn wf(self) -> bool {
        self.nanos < 1_000_000_000
    }

    /// Nanoseconds since the epoch.
    pub open spec fn as_nanos(self) -> int {
        self.secs * 1_000_000_000 + self.nanos
    }

    /// Whether `self` lies strictly after `other`.
    pub fn is_after(&self, other: &Timestamp) -> (r: bool)
        requires
            self.wf(),
            other.wf(),
        ensures
            r == (self.as_nanos() > other.as_nanos()),
    {
        self.secs > other.secs || (self.secs == other.secs && self.nanos > other.nanos)
    }
}

/// The state of a run: running in a process group, or finished.
#[derive(Clone, Debug, PartialEq, Eq)]
pub enum RunDataState {
    Running { pgid: i32 },
    Done { end_datetime: Timestamp, exit_code: i32 },
}

/// The metadata kept for one run.
#[derive(Clone, Debug, PartialEq, Eq)]
pub struct RunData {
    pub label: Option<String>,
    pub command: Vec<String>,
    pub start_datetime: Timestamp,
    pub state: RunDataState,
}

/// How a run's command ended, as far as the supervisor saw it.
#[derive(Clone, Copy, Debug, PartialEq, Eq, Structural)]
pub enum WaitOutcome {
    /// The command exited; `None` when it was ended by a signal.
    Exited { code: Option<i32> },
    /// Waiting on the command failed.
    WaitFailed,
}

/// What an exit code means.
#[derive(Clone, Copy, Debug, PartialEq, Eq, Structural)]
pub enum ExitKind {
    Success,
    Killed,
    Crashed,
    Failed { code: i32 },
}

/// Errors of operations that require a run to be in a given state.
#[derive(Clone, Copy, Debug, PartialEq, Eq, Structural)]
pub enum StateError {
    AlreadyFinished,
    StillRunning,
}

pub open spec fn is_done(s: RunDataState) -> bool {
    s is Done
}

pub open spec fn spec_exit_code(outcome: WaitOutcome) -> i32 {
    match outcome {
        WaitOutcome::Exited { code: Some(c) } => c,
        WaitOutcome::Exited { code: None } => EXIT_KILLED,
        WaitOutcome::WaitFailed => EXIT_CRASHED,
    }
}

pub open spec fn spec_exit_kind(code: i32) -> ExitKind {
    if code == 0 {
        ExitKind::Success
    } else if code == EXIT_KILLED {
        ExitKind::Killed
    } else if code == EXIT_CRASHED {
        ExitKind::Crashed
    } else {
        ExitKind::Failed { code }
    }
}

/// The record `r` with its state replaced by `Done { end, code }`.
pub open spec fn done_version(r: RunData, end: Timestamp, code: i32) -> RunData {
    RunData { state: RunDataState::Done { end_datetime: end, exit_code: code }, ..r }
}

/// The exit code to record for a run that ended as `outcome`.
pub fn exit_code_of(outcome: WaitOutcome) -> (r: i32)
    ensures
        r == spec_exit_code(outcome),
{
    match outcome {
        WaitOutcome::Exited { code: Some(c) } => c,
        WaitOutcome::Exited { code: None } => EXIT_KILLED,
        WaitOutcome::WaitFailed => EXIT_CRASHED,
    }
}

/// The meaning of an exit code.
pub fn exit_kind(code: i32) -> (r: ExitKind)
    ensures
        r == spec_exit_kind(code),
{
    if code == 0 {
        ExitKind::Success
    } else if code == EXIT_KILLED {
        ExitKind::Killed
    } else if code == EXIT_CRASHED {
        ExitKind::Crashed
    } else {
        ExitKind::Failed { code }
    }
}

impl RunData {
    /// Whether the run is still running.
    pub fn is_running(&self) -> (r: bool)
        ensures
            r == !is_done(self.state),
    {
        match self.state {
            RunDataState::Running { .. } => true,
            RunDataState::Done { .. } => false,
        }
    }
}

/// The stored record after `proposed` is offered to replace `current`.
pub open spec fn spec_update(current: RunData, proposed: RunData) -> RunData {
    if is_done(current.state) {
        current
    } else {
        proposed
    }
}

/// The stored record after each of `proposals` is offered in turn.
pub open spec fn spec_update_all(current: RunData, proposals: Seq<RunData>) -> RunData
    decreases proposals.len(),
{
    if proposals.len() == 0 {
        current
    } else {
        spec_update(spec_update_all(current, proposals.drop_last()), proposals.last())
    }
}

/// The record after the run ended as `outcome`, observed at `end`.
pub open spec fn spec_finish(current: RunData, outcome: WaitOutcome, end: Timestamp) -> RunData {
    spec_update(current, done_version(current, end, spec_exit_code(outcome)))
}

/// The update of a stored record: `proposed` replaces `current` unless
/// `current` is already finished, which is final.
pub fn update_record(current: RunData, proposed: RunData) -> (r: RunData)
    ensures
        r == spec_update(current, proposed),
{
    match current.state {
        RunDataState::Done { .. } => current,
        RunDataState::Running { .. } => proposed,
    }
}

/// The terminal update of a run that ended as `outcome`, observed at `end`:
/// a running record becomes finished with the matching exit code; a
/// finished one stays as it is.
pub fn finish(current: RunData, outcome: WaitOutcome, end: Timestamp) -> (r: RunData)
    ensures
        r == spec_finish(current, outcome, end),
        !is_done(current.state) ==> r == done_version(current, end, spec_exit_code(outcome)),
{
    let code = exit_code_of(outcome);
    let running = current.is_running();
    if running {
        RunData {
            state: RunDataState::Done { end_datetime: end, exit_code: code },
            ..current
        }
    } else {
        current
    }
}

/// Whether a run may be removed: only a finished run may.
pub fn check_removable(data: &RunData) -> (r: Result<(), StateError>)
    ensures
        is_done(data.state) <==> r is Ok,
        r is Err ==> r == Err::<(), StateError>(StateError::StillRunning),
{
    match data.state {
        RunDataState::Done { .. } => Ok(()),
        RunDataState::Running { .. } => Err(StateError::StillRunning),
    }
}

/// Whether a run whose record was read as `data` may be removed: a damaged
/// run (`None`, its record missing or unreadable) may, and so may a
/// finished one; a running one may not.
pub fn check_removable_entry(data: &Option<RunData>) -> (r: Result<(), StateError>)
    ensures
        (data is None || is_done(data->Some_0.state)) <==> r is Ok,
        r is Err ==> r == Err::<(), StateError>(StateError::StillRunning),
{
    match data {
        Some(d) => check_removable(d),
        None => Ok(()),
    }
}

/// Once a record is finished, no later update changes it: neither any
/// sequence of proposed replacements nor a second terminal update.
pub proof fn lemma_done_is_terminal(
    current: RunData,
    proposals: Seq<RunData>,
    outcome: WaitOutcome,
    end: Timestamp,
)
    requires
        is_done(current.state),
    ensures
        spec_update_all(current, proposals) == current,
        spec_finish(current, outcome, end) == current,
    decreases proposals.len(),
{
    if proposals.len() > 0 {
        lemma_done_is_terminal(current, proposals.drop_last(), outcome, end);
    }
}

} // verus!
