use rum::tail::{raw_newlines, TailError, TailFollower, TailStep, WatchEvent};

#[test]
fn two_appends_are_delivered_once_each() {
    let mut file: Vec<u8> = Vec::new();
    let mut follower = TailFollower::new();
    let mut delivered: Vec<Vec<u8>> = Vec::new();
    let read = |file: &Vec<u8>, follower: &mut TailFollower, delivered: &mut Vec<Vec<u8>>| {
        let offset = match follower.on_event(WatchEvent::Write) {
            TailStep::ReadFrom { offset } => offset as usize,
            other => panic!("unexpected step {:?}", other),
        };
        if let Some(chunk) = follower.deliver(file[offset..].to_vec()) {
            delivered.push(chunk);
        }
    };
    read(&file, &mut follower, &mut delivered);
    file.extend_from_slice(b"abc");
    read(&file, &mut follower, &mut delivered);
    read(&file, &mut follower, &mut delivered);
    file.extend_from_slice(b"def");
    read(&file, &mut follower, &mut delivered);
    assert_eq!(delivered, vec![b"abc".to_vec(), b"def".to_vec()]);
    assert_eq!(delivered.concat(), b"abcdef".to_vec());
    assert_eq!(follower.offset(), 6);
}

#[test]
fn nothing_new_delivers_nothing() {
    let mut follower = TailFollower::new();
    assert_eq!(follower.deliver(Vec::new()), None);
    assert_eq!(follower.offset(), 0);
}

#[test]
fn watch_events() {
    let mut follower = TailFollower::new();
    follower.deliver(b"12345".to_vec());
    assert_eq!(follower.on_event(WatchEvent::Write), TailStep::ReadFrom { offset: 5 });
    assert_eq!(follower.on_event(WatchEvent::Other), TailStep::Poll);
    assert_eq!(follower.on_event(WatchEvent::Idle), TailStep::Sleep);
    assert_eq!(
        follower.on_event(WatchEvent::Disconnected),
        TailStep::Fail { error: TailError::WatchDisconnected }
    );
}

#[test]
fn newlines_for_raw_terminal() {
    assert_eq!(raw_newlines(b"a\nb\n"), b"a\r\nb\r\n".to_vec());
    assert_eq!(raw_newlines(b""), Vec::<u8>::new());
    assert_eq!(raw_newlines(b"no newline"), b"no newline".to_vec());
}

#[test]
fn follower_starts_by_reading_from_the_start() {
    let mut follower = TailFollower::new();
    assert_eq!(follower.first_step(), TailStep::ReadFrom { offset: 0 });
    assert_eq!(follower.deliver(b"history".to_vec()), Some(b"history".to_vec()));
    assert_eq!(follower.first_step(), TailStep::ReadFrom { offset: 7 });
}
