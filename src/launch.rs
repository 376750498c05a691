//! The launch protocol. A run is started by a detached supervisor process
//! that sets up the run, reports success or failure once to the caller over
//! a one-shot channel, and records the command's end. The decisions of both
//! sides stand here; the process that runs each side performs the actions
//! and hands back what happened.

use vstd::prelude::*;
use crate::record::{RunData, RunDataState, Timestamp, WaitOutcome};
use crate::store::{run_at, Run, Runs};

verus! {

/// Why a launch failed.
#[derive(Clone, Debug, PartialEq, Eq)]
pub enum LaunchError {
    /// The supervisor process could not be created.
    ForkFailed,
    /// The supervisor could not become the leader of a new process group.
    CouldNotSetProcessGroup,
    /// The output log could not be created.
    CouldNotCreateOutputFile,
    /// The command (named by its program) could not be started.
    FailedToSpawn { command: String },
    /// The running record could not be written.
    CouldNotPersistRecord,
    /// The channel closed before the supervisor reported.
    ChannelCommunicationLost,
}

/// Why a run was not started at all.
#[derive(Clone, Copy, Debug, PartialEq, Eq, Structural)]
pub enum StartError {
    EmptyCommand,
}

/// The one message that the supervisor sends to the caller.
#[derive(Clone, Debug, PartialEq, Eq)]
pub enum LaunchMessage {
    Started,
    Failed { error: LaunchError },
}

/// What happened to the supervisor's last action.
#[derive(Clone, Copy, Debug, PartialEq, Eq, Structural)]
pub enum SupervisorEvent {
    /// The supervisor runs detached from the caller's session.
    Detached,
    /// The supervisor leads the process group `pgid`.
    GroupSet { pgid: i32 },
    /// The output log exists.
    OutputCreated,
    /// The command was started at `at`.
    Spawned { at: Timestamp },
    /// The record was written.
    RecordWritten,
    /// The message was sent.
    Reported,
    /// The run's directory was deleted.
    DirectoryRemoved,
    /// The command ended as `outcome`.
    ChildEnded { outcome: WaitOutcome },
    /// The last action failed.
    StepFailed,
}

/// What the supervisor does next.
#[derive(Clone, Debug, PartialEq, Eq)]
pub enum SupervisorAction {
    /// Become the leader of a new process group.
    SetProcessGroup,
    /// Create the run's output log.
    CreateOutputFile,
    /// Start the command with its output sent to the log and no input.
    Spawn,
    /// Write `record` as the run's record.
    WriteRecord { record: RunData },
    /// Send `message` to the caller.
    Report { message: LaunchMessage },
    /// Wait for the command to end.
    WaitForChild,
    /// Apply the terminal update for `outcome` to the stored record.
    FinishRecord { outcome: WaitOutcome },
    /// Delete the run's directory.
    RemoveRunDirectory,
    /// Stop the supervisor.
    Exit,
}

/// Where the supervisor stands.
#[derive(Clone, Debug, PartialEq, Eq)]
pub enum Stage {
    Detaching,
    SettingGroup,
    CreatingOutput { pgid: i32 },
    Spawning { pgid: i32 },
    Persisting,
    Reporting,
    Waiting,
    Finalizing,
    CleaningUp { error: LaunchError },
    ReportingFailure,
    Abandoning,
    Finished,
}

/// The supervisor of one run being launched.
pub struct Supervisor {
    pub command: Vec<String>,
    pub label: Option<String>,
    pub stage: Stage,
}

/// A launch that was prepared: the run and its supervisor.
pub struct Launch {
    pub run: Run,
    pub supervisor: Supervisor,
}

/// What the caller learned from the launch attempt.
#[derive(Clone, Debug, PartialEq, Eq)]
pub enum CallerEvent {
    /// The supervisor process could not be created.
    ForkFailed,
    /// The channel closed without a message.
    ChannelClosed,
    /// The supervisor sent `message`.
    Received { message: LaunchMessage },
}

/// What the caller does with what it learned.
pub struct CallerDecision {
    /// The result of the launch.
    pub result: Result<(), LaunchError>,
    /// Whether the caller must delete the run's directory itself.
    pub remove_directory: bool,
}

/// Whether the supervisor in `stage` still holds the command to start.
pub open spec fn holds_command(stage: Stage) -> bool {
    match stage {
        Stage::Detaching | Stage::SettingGroup | Stage::CreatingOutput { .. } | Stage::Spawning { .. } => true,
        _ => false,
    }
}

/// The stage that the failure of a step leads to.
pub open spec fn failed_with(error: LaunchError) -> Stage {
    Stage::CleaningUp { error }
}

/// The stage that follows `stage` on `event`; `program` names the command
/// in a spawn failure.
pub open spec fn next_stage(stage: Stage, event: SupervisorEvent, program: String) -> Stage {
    match stage {
        Stage::Detaching => match event {
            SupervisorEvent::Detached => Stage::SettingGroup,
            _ => failed_with(LaunchError::ForkFailed),
        },
        Stage::SettingGroup => match event {
            SupervisorEvent::GroupSet { pgid } => Stage::CreatingOutput { pgid },
            _ => failed_with(LaunchError::CouldNotSetProcessGroup),
        },
        Stage::CreatingOutput { pgid } => match event {
            SupervisorEvent::OutputCreated => Stage::Spawning { pgid },
            _ => failed_with(LaunchError::CouldNotCreateOutputFile),
        },
        Stage::Spawning { .. } => match event {
            SupervisorEvent::Spawned { .. } => Stage::Persisting,
            _ => failed_with(LaunchError::FailedToSpawn { command: program }),
        },
        Stage::Persisting => match event {
            SupervisorEvent::RecordWritten => Stage::Reporting,
            _ => failed_with(LaunchError::CouldNotPersistRecord),
        },
        Stage::Reporting => match event {
            SupervisorEvent::Reported => Stage::Waiting,
            _ => Stage::Abandoning,
        },
        Stage::Waiting => Stage::Finalizing,
        Stage::Finalizing => Stage::Finished,
        Stage::CleaningUp { .. } => Stage::ReportingFailure,
        Stage::ReportingFailure => Stage::Finished,
        Stage::Abandoning => Stage::Finished,
        Stage::Finished => Stage::Finished,
    }
}

/// The action that the supervisor takes when it enters `stage`, where it
/// is determined by the stage alone.
pub open spec fn entry_action(stage: Stage) -> SupervisorAction {
    match stage {
        Stage::SettingGroup => SupervisorAction::SetProcessGroup,
        Stage::CreatingOutput { .. } => SupervisorAction::CreateOutputFile,
        Stage::Spawning { .. } => SupervisorAction::Spawn,
        Stage::Reporting => SupervisorAction::Report { message: LaunchMessage::Started },
        Stage::Waiting => SupervisorAction::WaitForChild,
        Stage::CleaningUp { .. } => SupervisorAction::RemoveRunDirectory,
        Stage::Abandoning => SupervisorAction::RemoveRunDirectory,
        _ => SupervisorAction::Exit,
    }
}

/// The record written once the command runs.
pub open spec fn running_record(s: Supervisor, pgid: i32, at: Timestamp) -> RunData {
    RunData {
        label: s.label,
        command: s.command,
        start_datetime: at,
        state: RunDataState::Running { pgid },
    }
}

/// The action that the supervisor `s` takes on `event`.
pub open spec fn next_action(s: Supervisor, event: SupervisorEvent) -> SupervisorAction {
    match (s.stage, event) {
        (Stage::Spawning { pgid }, SupervisorEvent::Spawned { at }) => SupervisorAction::WriteRecord {
            record: running_record(s, pgid, at),
        },
        (Stage::Waiting, SupervisorEvent::ChildEnded { outcome }) => SupervisorAction::FinishRecord { outcome },
        (Stage::Waiting, _) => SupervisorAction::FinishRecord { outcome: WaitOutcome::WaitFailed },
        (Stage::CleaningUp { error }, _) => SupervisorAction::Report { message: LaunchMessage::Failed { error } },
        _ => entry_action(next_stage(s.stage, event, s.command@[0])),
    }
}


/// The stage reached from `stage` after `events`; `program` names the command.
pub open spec fn stage_after(stage: Stage, events: Seq<SupervisorEvent>, program: String) -> Stage
    decreases events.len(),
{
    if events.len() == 0 {
        stage
    } else {
        next_stage(stage_after(stage, events.drop_last(), program), events.last(), program)
    }
}

/// The action that the supervisor `s` takes on the `k`-th of `events`.
pub open spec fn action_at(s: Supervisor, events: Seq<SupervisorEvent>, k: int) -> SupervisorAction {
    next_action(Supervisor { stage: stage_after(s.stage, events.take(k), s.program()), ..s }, events[k])
}

/// Whether `a` sends a message to the caller.
pub open spec fn is_report(a: SupervisorAction) -> bool {
    a is Report
}

/// The stages in which the caller has been sent its message.
pub open spec fn after_report(stage: Stage) -> bool {
    match stage {
        Stage::Reporting | Stage::Waiting | Stage::Finalizing | Stage::ReportingFailure | Stage::Abandoning
        | Stage::Finished => true,
        _ => false,
    }
}

proof fn lemma_stage_step(s: Supervisor, events: Seq<SupervisorEvent>, k: int)
    requires
        0 <= k < events.len(),
    ensures
        stage_after(s.stage, events.take(k + 1), s.program())
            == next_stage(stage_after(s.stage, events.take(k), s.program()), events[k], s.program()),
{
    assert(events.take(k + 1).drop_last() =~= events.take(k));
}

proof fn lemma_after_report_stays(s: Supervisor, events: Seq<SupervisorEvent>, i: int, j: int)
    requires
        0 <= i <= j <= events.len(),
        after_report(stage_after(s.stage, events.take(i), s.program())),
    ensures
        after_report(stage_after(s.stage, events.take(j), s.program())),
    decreases j - i,
{
    if i < j {
        lemma_stage_step(s, events, i);
        lemma_after_report_stays(s, events, i + 1, j);
    }
}

/// A supervisor reports a failure only right after it deleted the run's
/// directory, so a caller told of a failure finds no run left behind.
pub proof fn lemma_failure_report_follows_cleanup(s: Supervisor, events: Seq<SupervisorEvent>, k: int)
    requires
        s.stage == Stage::Detaching,
        0 <= k < events.len(),
        action_at(s, events, k) matches SupervisorAction::Report { message: LaunchMessage::Failed { .. } },
    ensures
        k >= 1,
        action_at(s, events, k - 1) == SupervisorAction::RemoveRunDirectory,
{
    assert(events.take(0) =~= Seq::<SupervisorEvent>::empty());
    if k >= 1 {
        lemma_stage_step(s, events, k - 1);
    }
}

/// A supervisor reports success only after the running record was written:
/// the step before wrote it, and the write succeeded.
pub proof fn lemma_started_follows_record(s: Supervisor, events: Seq<SupervisorEvent>, k: int)
    requires
        s.stage == Stage::Detaching,
        0 <= k < events.len(),
        action_at(s, events, k) == (SupervisorAction::Report { message: LaunchMessage::Started }),
    ensures
        k >= 1,
        events[k] == SupervisorEvent::RecordWritten,
        action_at(s, events, k - 1) matches SupervisorAction::WriteRecord { record }
            && record.state is Running && record.command == s.command && record.label == s.label,
{
    assert(events.take(0) =~= Seq::<SupervisorEvent>::empty());
    if k >= 1 {
        lemma_stage_step(s, events, k - 1);
    }
}

/// A supervisor sends the caller at most one message, whatever happens.
pub proof fn lemma_single_report(s: Supervisor, events: Seq<SupervisorEvent>, i: int, j: int)
    requires
        0 <= i < j < events.len(),
        is_report(action_at(s, events, i)),
    ensures
        !is_report(action_at(s, events, j)),
{
    lemma_stage_step(s, events, i);
    lemma_after_report_stays(s, events, i + 1, j);
}

/// Once success is reported, the supervisor waits for the command and then
/// brings the record to its terminal state, with the command's exit code
/// when its end was observed and the crash code otherwise. When the success
/// message could not be sent, the caller reports a lost channel, and the
/// supervisor deletes the run's directory instead, so no running record is
/// left behind.
pub proof fn lemma_started_run_finishes(s: Supervisor, events: Seq<SupervisorEvent>, k: int)
    requires
        0 <= k < events.len() - 2,
        action_at(s, events, k) == (SupervisorAction::Report { message: LaunchMessage::Started }),
    ensures
        events[k + 1] != SupervisorEvent::Reported ==> action_at(s, events, k + 1) == SupervisorAction::RemoveRunDirectory,
        events[k + 1] == SupervisorEvent::Reported ==> {
            &&& action_at(s, events, k + 1) == SupervisorAction::WaitForChild
            &&& events[k + 2] matches SupervisorEvent::ChildEnded { outcome }
                ==> action_at(s, events, k + 2) == (SupervisorAction::FinishRecord { outcome })
            &&& !(events[k + 2] is ChildEnded)
                ==> action_at(s, events, k + 2) == (SupervisorAction::FinishRecord { outcome: WaitOutcome::WaitFailed })
        },
{
    lemma_stage_step(s, events, k);
    lemma_stage_step(s, events, k + 1);
}

/// The stages from which the supervisor only winds down.
pub open spec fn settled(stage: Stage) -> bool {
    match stage {
        Stage::Finalizing | Stage::CleaningUp { .. } | Stage::ReportingFailure | Stage::Abandoning
        | Stage::Finished => true,
        _ => false,
    }
}

/// Whether `a` leaves the run in a final form on disk: its directory
/// deleted, or its record brought to its terminal state.
pub open spec fn settles_run(a: SupervisorAction) -> bool {
    a is RemoveRunDirectory || a is FinishRecord
}

/// Whatever happens, a supervisor that has stopped (or is winding down)
/// has either deleted the run's directory or brought the run's record to
/// its terminal state on the way.
pub proof fn lemma_stopped_supervisor_settled(s: Supervisor, events: Seq<SupervisorEvent>, n: int)
    requires
        s.stage == Stage::Detaching,
        0 <= n <= events.len(),
        settled(stage_after(s.stage, events.take(n), s.program())),
    ensures
        exists|k: int| 0 <= k < n && settles_run(#[trigger] action_at(s, events, k)),
    decreases n,
{
    assert(events.take(0) =~= Seq::<SupervisorEvent>::empty());
    if n > 0 {
        lemma_stage_step(s, events, n - 1);
        if settled(stage_after(s.stage, events.take(n - 1), s.program())) {
            lemma_stopped_supervisor_settled(s, events, n - 1);
            let k = choose|k: int| 0 <= k < n - 1 && settles_run(#[trigger] action_at(s, events, k));
            assert(settles_run(action_at(s, events, k)));
        } else {
            assert(settles_run(action_at(s, events, n - 1)));
        }
    }
}

impl Supervisor {
    /// The command is kept, and is not empty, until it is handed to the
    /// running record.
    pub open spec fn wf(&self) -> bool {
        holds_command(self.stage) ==> self.command@.len() > 0
    }

    /// The program that the command starts.
    pub open spec fn program(&self) -> String {
        self.command@[0]
    }

    /// Takes the supervisor one step: `event` says how its last action went;
    /// the result is its next action.
    pub fn step(&mut self, event: SupervisorEvent) -> (r: SupervisorAction)
        requires
            old(self).wf(),
        ensures
            final(self).wf(),
            final(self).stage == next_stage(old(self).stage, event, old(self).program()),
            r == next_action(*old(self), event),
            holds_command(final(self).stage) ==> final(self).command == old(self).command,
            holds_command(final(self).stage) ==> final(self).label == old(self).label,
    {
        match self.stage {
            Stage::Detaching => match event {
                SupervisorEvent::Detached => {
                    self.stage = Stage::SettingGroup;
                    SupervisorAction::SetProcessGroup
                },
                _ => {
                    self.stage = Stage::CleaningUp { error: LaunchError::ForkFailed };
                    SupervisorAction::RemoveRunDirectory
                },
            },
            Stage::SettingGroup => match event {
                SupervisorEvent::GroupSet { pgid } => {
                    self.stage = Stage::CreatingOutput { pgid };
                    SupervisorAction::CreateOutputFile
                },
                _ => {
                    self.stage = Stage::CleaningUp { error: LaunchError::CouldNotSetProcessGroup };
                    SupervisorAction::RemoveRunDirectory
                },
            },
            Stage::CreatingOutput { pgid } => match event {
                SupervisorEvent::OutputCreated => {
                    self.stage = Stage::Spawning { pgid };
                    SupervisorAction::Spawn
                },
                _ => {
                    self.stage = Stage::CleaningUp { error: LaunchError::CouldNotCreateOutputFile };
                    SupervisorAction::RemoveRunDirectory
                },
            },
            Stage::Spawning { pgid } => match event {
                SupervisorEvent::Spawned { at } => {
                    let mut command: Vec<String> = Vec::new();
                    let mut label: Option<String> = None;
                    std::mem::swap(&mut command, &mut self.command);
                    std::mem::swap(&mut label, &mut self.label);
                    self.stage = Stage::Persisting;
                    SupervisorAction::WriteRecord {
                        record: RunData {
                            label,
                            command,
                            start_datetime: at,
                            state: RunDataState::Running { pgid },
                        },
                    }
                },
                _ => {
                    let program = self.command[0].clone();
                    self.stage = Stage::CleaningUp { error: LaunchError::FailedToSpawn { command: program } };
                    SupervisorAction::RemoveRunDirectory
                },
            },
            Stage::Persisting => match event {
                SupervisorEvent::RecordWritten => {
                    self.stage = Stage::Reporting;
                    SupervisorAction::Report { message: LaunchMessage::Started }
                },
                _ => {
                    self.stage = Stage::CleaningUp { error: LaunchError::CouldNotPersistRecord };
                    SupervisorAction::RemoveRunDirectory
                },
            },
            Stage::Reporting => match event {
                SupervisorEvent::Reported => {
                    self.stage = Stage::Waiting;
                    SupervisorAction::WaitForChild
                },
                _ => {
                    self.stage = Stage::Abandoning;
                    SupervisorAction::RemoveRunDirectory
                },
            },
            Stage::Waiting => {
                self.stage = Stage::Finalizing;
                match event {
                    SupervisorEvent::ChildEnded { outcome } => SupervisorAction::FinishRecord { outcome },
                    _ => SupervisorAction::FinishRecord { outcome: WaitOutcome::WaitFailed },
                }
            },
            Stage::Finalizing => {
                self.stage = Stage::Finished;
                SupervisorAction::Exit
            },
            Stage::CleaningUp { .. } => {
                let mut stage = Stage::ReportingFailure;
                std::mem::swap(&mut stage, &mut self.stage);
                match stage {
                    Stage::CleaningUp { error } => SupervisorAction::Report {
                        message: LaunchMessage::Failed { error },
                    },
                    _ => SupervisorAction::Exit,
                }
            },
            Stage::ReportingFailure | Stage::Abandoning => {
                self.stage = Stage::Finished;
                SupervisorAction::Exit
            },
            Stage::Finished => SupervisorAction::Exit,
        }
    }
}

/// Prepares the launch of `command` under `label`: a new run of `runs` and
/// the supervisor that will start it. An empty command starts nothing.
pub fn start_run(runs: &Runs, command: Vec<String>, label: Option<String>) -> (r: Result<Launch, StartError>)
    ensures
        command@.len() == 0 <==> r == Err::<Launch, StartError>(StartError::EmptyCommand),
        r matches Ok(launch) ==> {
            &&& run_at(runs.root(), launch.run.id, launch.run)
            &&& launch.supervisor.command == command
            &&& launch.supervisor.label == label
            &&& launch.supervisor.stage == Stage::Detaching
            &&& launch.supervisor.wf()
        },
{
    if command.len() == 0 {
        return Err(StartError::EmptyCommand);
    }
    let run = runs.new_run();
    Ok(Launch { run, supervisor: Supervisor { command, label, stage: Stage::Detaching } })
}

/// The caller's reading of the launch: the supervisor's message decides;
/// a missing supervisor or a silent channel is an error. Only when no
/// supervisor was created does the caller delete the run's directory,
/// which a supervisor deletes itself before it reports a failure.
pub fn launch_outcome(event: CallerEvent) -> (r: CallerDecision)
    ensures
        event is ForkFailed ==> r.result == Err::<(), LaunchError>(LaunchError::ForkFailed),
        event is ChannelClosed ==> r.result == Err::<(), LaunchError>(LaunchError::ChannelCommunicationLost),
        event matches CallerEvent::Received { message: LaunchMessage::Started } ==> r.result == Ok::<(), LaunchError>(()),
        event matches CallerEvent::Received { message: LaunchMessage::Failed { error } }
            ==> r.result == Err::<(), LaunchError>(error),
        r.remove_directory == (event is ForkFailed),
{
    match event {
        CallerEvent::ForkFailed => CallerDecision { result: Err(LaunchError::ForkFailed), remove_directory: true },
        CallerEvent::ChannelClosed => CallerDecision {
            result: Err(LaunchError::ChannelCommunicationLost),
            remove_directory: false,
        },
        CallerEvent::Received { message } => match message {
            LaunchMessage::Started => CallerDecision { result: Ok(()), remove_directory: false },
            LaunchMessage::Failed { error } => CallerDecision { result: Err(error), remove_directory: false },
        },
    }
}

} // verus!
