use rum::launch::{
    launch_outcome, start_run, CallerEvent, LaunchError, LaunchMessage, Stage, StartError, SupervisorAction,
    SupervisorEvent,
};
use rum::record::{finish, RunDataState, Timestamp, WaitOutcome};
use rum::store::Runs;

fn words(list: &[&str]) -> Vec<String> {
    list.iter().map(|s| s.to_string()).collect()
}

fn runs() -> Runs {
    Runs::new(&"/data".to_string())
}

#[test]
fn empty_command_is_refused() {
    assert!(matches!(start_run(&runs(), Vec::new(), None), Err(StartError::EmptyCommand)));
}

#[test]
fn successful_launch_runs_to_done() {
    let launch = start_run(&runs(), words(&["sleep", "5"]), None).unwrap();
    assert_eq!(launch.run.run_directory, format!("/data/runs/{}", launch.run.id));
    let mut sup = launch.supervisor;
    assert_eq!(sup.stage, Stage::Detaching);
    assert_eq!(sup.step(SupervisorEvent::Detached), SupervisorAction::SetProcessGroup);
    assert_eq!(sup.step(SupervisorEvent::GroupSet { pgid: 777 }), SupervisorAction::CreateOutputFile);
    assert_eq!(sup.step(SupervisorEvent::OutputCreated), SupervisorAction::Spawn);
    let start = Timestamp { secs: 100, nanos: 5 };
    let record = match sup.step(SupervisorEvent::Spawned { at: start }) {
        SupervisorAction::WriteRecord { record } => record,
        other => panic!("unexpected action {:?}", other),
    };
    assert_eq!(record.command, words(&["sleep", "5"]));
    assert_eq!(record.label, None);
    assert_eq!(record.start_datetime, start);
    assert_eq!(record.state, RunDataState::Running { pgid: 777 });
    assert_eq!(
        sup.step(SupervisorEvent::RecordWritten),
        SupervisorAction::Report { message: LaunchMessage::Started }
    );
    let caller = launch_outcome(CallerEvent::Received { message: LaunchMessage::Started });
    assert_eq!(caller.result, Ok(()));
    assert!(!caller.remove_directory);
    assert_eq!(sup.step(SupervisorEvent::Reported), SupervisorAction::WaitForChild);
    let outcome = WaitOutcome::Exited { code: Some(0) };
    assert_eq!(
        sup.step(SupervisorEvent::ChildEnded { outcome }),
        SupervisorAction::FinishRecord { outcome }
    );
    let end = Timestamp { secs: 105, nanos: 0 };
    let done = finish(record, outcome, end);
    assert_eq!(done.state, RunDataState::Done { end_datetime: end, exit_code: 0 });
    assert!(done.start_datetime.secs < end.secs);
    assert_eq!(sup.step(SupervisorEvent::RecordWritten), SupervisorAction::Exit);
    assert_eq!(sup.stage, Stage::Finished);
}

#[test]
fn missing_binary_cleans_up_before_reporting() {
    let launch = start_run(&runs(), words(&["/no/such/binary"]), Some("x".to_string())).unwrap();
    let mut sup = launch.supervisor;
    sup.step(SupervisorEvent::Detached);
    sup.step(SupervisorEvent::GroupSet { pgid: 900 });
    assert_eq!(sup.step(SupervisorEvent::OutputCreated), SupervisorAction::Spawn);
    assert_eq!(sup.step(SupervisorEvent::StepFailed), SupervisorAction::RemoveRunDirectory);
    let error = LaunchError::FailedToSpawn { command: "/no/such/binary".to_string() };
    assert_eq!(
        sup.step(SupervisorEvent::StepFailed),
        SupervisorAction::Report { message: LaunchMessage::Failed { error: error.clone() } }
    );
    assert_eq!(sup.step(SupervisorEvent::Reported), SupervisorAction::Exit);
    let caller = launch_outcome(CallerEvent::Received { message: LaunchMessage::Failed { error: error.clone() } });
    assert_eq!(caller.result, Err(error));
    assert!(!caller.remove_directory);
}

#[test]
fn each_failed_step_is_named() {
    let fail_at = |successes: Vec<SupervisorEvent>| {
        let mut sup = start_run(&runs(), words(&["true"]), None).unwrap().supervisor;
        sup.step(SupervisorEvent::Detached);
        for e in successes {
            sup.step(e);
        }
        assert_eq!(sup.step(SupervisorEvent::StepFailed), SupervisorAction::RemoveRunDirectory);
        match sup.step(SupervisorEvent::Reported) {
            SupervisorAction::Report { message: LaunchMessage::Failed { error } } => error,
            other => panic!("unexpected action {:?}", other),
        }
    };
    assert_eq!(fail_at(vec![]), LaunchError::CouldNotSetProcessGroup);
    assert_eq!(fail_at(vec![SupervisorEvent::GroupSet { pgid: 9 }]), LaunchError::CouldNotCreateOutputFile);
    let at = Timestamp { secs: 1, nanos: 0 };
    assert_eq!(
        fail_at(vec![
            SupervisorEvent::GroupSet { pgid: 9 },
            SupervisorEvent::OutputCreated,
            SupervisorEvent::Spawned { at }
        ]),
        LaunchError::CouldNotPersistRecord
    );
}

#[test]
fn lost_wait_still_finishes_record() {
    let mut sup = start_run(&runs(), words(&["true"]), None).unwrap().supervisor;
    sup.step(SupervisorEvent::Detached);
    sup.step(SupervisorEvent::GroupSet { pgid: 9 });
    sup.step(SupervisorEvent::OutputCreated);
    sup.step(SupervisorEvent::Spawned { at: Timestamp { secs: 1, nanos: 0 } });
    sup.step(SupervisorEvent::RecordWritten);
    assert_eq!(sup.step(SupervisorEvent::Reported), SupervisorAction::WaitForChild);
    assert_eq!(
        sup.step(SupervisorEvent::StepFailed),
        SupervisorAction::FinishRecord { outcome: WaitOutcome::WaitFailed }
    );
}

#[test]
fn caller_outcomes() {
    let forked = launch_outcome(CallerEvent::ForkFailed);
    assert_eq!(forked.result, Err(LaunchError::ForkFailed));
    assert!(forked.remove_directory);
    let lost = launch_outcome(CallerEvent::ChannelClosed);
    assert_eq!(lost.result, Err(LaunchError::ChannelCommunicationLost));
    assert!(!lost.remove_directory);
}

#[test]
fn lost_success_report_removes_run() {
    let mut sup = start_run(&runs(), words(&["true"]), None).unwrap().supervisor;
    sup.step(SupervisorEvent::Detached);
    sup.step(SupervisorEvent::GroupSet { pgid: 9 });
    sup.step(SupervisorEvent::OutputCreated);
    sup.step(SupervisorEvent::Spawned { at: Timestamp { secs: 1, nanos: 0 } });
    assert_eq!(
        sup.step(SupervisorEvent::RecordWritten),
        SupervisorAction::Report { message: LaunchMessage::Started }
    );
    assert_eq!(sup.step(SupervisorEvent::StepFailed), SupervisorAction::RemoveRunDirectory);
    assert_eq!(sup.step(SupervisorEvent::DirectoryRemoved), SupervisorAction::Exit);
    assert_eq!(sup.stage, Stage::Finished);
}

#[test]
fn failed_detach_is_reported_as_fork_failure() {
    let mut sup = start_run(&runs(), words(&["true"]), None).unwrap().supervisor;
    assert_eq!(sup.step(SupervisorEvent::StepFailed), SupervisorAction::RemoveRunDirectory);
    assert_eq!(
        sup.step(SupervisorEvent::DirectoryRemoved),
        SupervisorAction::Report { message: LaunchMessage::Failed { error: LaunchError::ForkFailed } }
    );
}

#[test]
fn label_reaches_running_record() {
    let launch = start_run(&runs(), words(&["make", "all"]), Some("build".to_string())).unwrap();
    assert_eq!(launch.run.id.len(), 36);
    let mut sup = launch.supervisor;
    sup.step(SupervisorEvent::Detached);
    sup.step(SupervisorEvent::GroupSet { pgid: 31 });
    sup.step(SupervisorEvent::OutputCreated);
    match sup.step(SupervisorEvent::Spawned { at: Timestamp { secs: 2, nanos: 0 } }) {
        SupervisorAction::WriteRecord { record } => {
            assert_eq!(record.label, Some("build".to_string()));
            assert_eq!(record.command, words(&["make", "all"]));
        }
        other => panic!("unexpected action {:?}", other),
    }
}
