use rum::listing::{listing_order, split_damaged, RunEntry};
use rum::record::{ExitKind, RunData, RunDataState, Timestamp};
use rum::summary::{status_of, summarize, RunStatus};

fn data(start: i64, running: bool) -> RunData {
    RunData {
        label: None,
        command: vec!["echo".to_string(), "hello world".to_string()],
        start_datetime: Timestamp { secs: start, nanos: 0 },
        state: if running {
            RunDataState::Running { pgid: 50 }
        } else {
            RunDataState::Done { end_datetime: Timestamp { secs: start + 1, nanos: 0 }, exit_code: 0 }
        },
    }
}

#[test]
fn damaged_runs_are_set_apart() {
    let entries = vec![
        ("a".to_string(), Some(data(1, false))),
        ("b".to_string(), None),
        ("c".to_string(), Some(data(2, true))),
        ("d".to_string(), None),
    ];
    let (good, bad) = split_damaged(entries);
    assert_eq!(good.iter().map(|e| e.id.as_str()).collect::<Vec<_>>(), vec!["a", "c"]);
    assert_eq!(good[1].data, data(2, true));
    assert_eq!(bad, vec!["b".to_string(), "d".to_string()]);
}

#[test]
fn listing_puts_running_first_then_by_start() {
    let runs = vec![
        RunEntry { id: "old-done".to_string(), data: data(1, false) },
        RunEntry { id: "new-run".to_string(), data: data(9, true) },
        RunEntry { id: "mid-done".to_string(), data: data(5, false) },
        RunEntry { id: "old-run".to_string(), data: data(3, true) },
    ];
    let ordered = listing_order(runs);
    let ids: Vec<&str> = ordered.iter().map(|e| e.id.as_str()).collect();
    assert_eq!(ids, vec!["old-run", "new-run", "old-done", "mid-done"]);
    assert!(listing_order(Vec::new()).is_empty());
}

#[test]
fn summary_quotes_command() {
    let s = summarize(&data(1, false));
    assert_eq!(s.command_line, "echo 'hello world'");
    assert_eq!(s.label, None);
    assert_eq!(
        s.status,
        RunStatus::Finished { exit: ExitKind::Success, code: 0, end: Timestamp { secs: 2, nanos: 0 } }
    );
    assert_eq!(summarize(&data(1, true)).status, RunStatus::Running);
}

#[test]
fn status_of_killed_run() {
    let state = RunDataState::Done { end_datetime: Timestamp { secs: 3, nanos: 0 }, exit_code: -1 };
    assert_eq!(
        status_of(&state),
        RunStatus::Finished { exit: ExitKind::Killed, code: -1, end: Timestamp { secs: 3, nanos: 0 } }
    );
}
