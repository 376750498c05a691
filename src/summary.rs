//! What is shown of a run: its command line, label, status and times.

use vstd::prelude::*;
use crate::record::{spec_exit_kind, exit_kind, ExitKind, RunData, RunDataState, Timestamp};

verus! {

/// The shell-quoted command line that joins `words`.
pub uninterp spec fn shell_joined(words: Seq<Seq<char>>) -> Seq<char>;

/// The characters of each word of `command`.
pub open spec fn words_of(command: Seq<String>) -> Seq<Seq<char>> {
    command.map_values(|w: String| w@)
}

/// Relies on shell_words's `join`: each word quoted as a shell would need
/// it, separated by spaces; no words give an empty line.
#[verifier::external_body]
fn join_command(command: &Vec<String>) -> (r: String)
    ensures
        r@ == shell_joined(words_of(command@)),
        command@.len() == 0 ==> r@.len() == 0,
{
    shell_words::join(command)
}

/// The status of a run as shown: running, or finished with the meaning of
/// its exit code.
#[derive(Clone, Copy, Debug, PartialEq, Eq, Structural)]
pub enum RunStatus {
    Running,
    Finished { exit: ExitKind, code: i32, end: Timestamp },
}

/// What is shown of one run.
#[derive(Clone, Debug, PartialEq, Eq)]
pub struct RunSummary {
    pub command_line: String,
    pub label: Option<String>,
    pub start: Timestamp,
    pub status: RunStatus,
}

/// The status shown for a run in state `state`.
pub open spec fn spec_status(state: RunDataState) -> RunStatus {
    match state {
        RunDataState::Running { .. } => RunStatus::Running,
        RunDataState::Done { end_datetime, exit_code } => RunStatus::Finished {
            exit: spec_exit_kind(exit_code),
            code: exit_code,
            end: end_datetime,
        },
    }
}

/// The status shown for a run in state `state`.
pub fn status_of(state: &RunDataState) -> (r: RunStatus)
    ensures
        r == spec_status(*state),
{
    match state {
        RunDataState::Running { .. } => RunStatus::Running,
        RunDataState::Done { end_datetime, exit_code } => RunStatus::Finished {
            exit: exit_kind(*exit_code),
            code: *exit_code,
            end: *end_datetime,
        },
    }
}

/// What is shown of the run whose record is `data`.
pub fn summarize(data: &RunData) -> (r: RunSummary)
    ensures
        r.command_line@ == shell_joined(words_of(data.command@)),
        r.label == data.label,
        r.start == data.start_datetime,
        r.status == spec_status(data.state),
{
    let label = match &data.label {
        Some(l) => Some(l.clone()),
        None => None,
    };
    RunSummary {
        command_line: join_command(&data.command),
        label,
        start: data.start_datetime,
        status: status_of(&data.state),
    }
}

} // verus!
