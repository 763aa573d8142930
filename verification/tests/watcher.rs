use kbird::status::{Notice, Step};
use kbird::watcher::{begin, step, WatchEvent, WatchOp};

fn path() -> String {
    String::from("/config/bird.conf")
}

/// Feeds `events` to a fresh watcher and returns every operation it asked
/// for, the first `Arm` included, with the notices it gave.
fn drive(events: Vec<WatchEvent>) -> (Vec<WatchOp>, Vec<Notice>) {
    let path = path();
    let first = begin(&path);
    let mut ops = vec![first.next];
    let mut notices: Vec<Notice> = first.notice.into_iter().collect();
    let mut pending = first.next;
    for event in events {
        let taken = step(&path, pending, event).expect("the event answers the pending operation");
        pending = taken.next;
        ops.push(taken.next);
        notices.extend(taken.notice);
    }
    (ops, notices)
}

fn one_round(burst: usize) -> Vec<WatchEvent> {
    vec![
        WatchEvent::Armed,
        WatchEvent::Changed(burst),
        WatchEvent::ReconfigureStarted,
        WatchEvent::ReconfigureFinished,
    ]
}

#[test]
fn watcher_begins_by_arming_and_announces_the_path() {
    let first = begin(&path());
    assert_eq!(first, Step { next: WatchOp::Arm, notice: Some(Notice::Watching(path())) });
}

#[test]
fn armed_watch_is_waited_on() {
    let taken = step(&path(), WatchOp::Arm, WatchEvent::Armed);
    assert_eq!(taken, Some(Step { next: WatchOp::AwaitChange, notice: None }));
}

#[test]
fn arm_failure_is_fatal() {
    let taken = step(&path(), WatchOp::Arm, WatchEvent::ArmFailed(String::from("no space")))
        .unwrap();
    assert_eq!(taken.next, WatchOp::Abort);
    assert_eq!(taken.notice, Some(Notice::WatchNotArmed(String::from("no space"))));
    assert!(taken.notice.unwrap().is_fatal());
}

#[test]
fn read_failure_is_fatal() {
    let taken = step(&path(), WatchOp::AwaitChange, WatchEvent::ReadFailed(String::from("eof")))
        .unwrap();
    assert_eq!(taken.next, WatchOp::Abort);
    assert_eq!(taken.notice, Some(Notice::WatchReadFailed(String::from("eof"))));
}

#[test]
fn change_starts_one_reconfigure() {
    let taken = step(&path(), WatchOp::AwaitChange, WatchEvent::Changed(1));
    assert_eq!(
        taken,
        Some(Step { next: WatchOp::StartReconfigure, notice: Some(Notice::ChangeDetected(path())) })
    );
}

#[test]
fn burst_is_coalesced_into_one_trigger() {
    for burst in [0usize, 1, 2, 17, usize::MAX] {
        let taken = step(&path(), WatchOp::AwaitChange, WatchEvent::Changed(burst)).unwrap();
        assert_eq!(taken.next, WatchOp::StartReconfigure);
    }
    let (ops, _) = drive(one_round(25));
    let started = ops.iter().filter(|op| **op == WatchOp::StartReconfigure).count();
    assert_eq!(started, 1);
}

#[test]
fn started_reconfigure_is_awaited() {
    let taken = step(&path(), WatchOp::StartReconfigure, WatchEvent::ReconfigureStarted);
    assert_eq!(taken, Some(Step { next: WatchOp::AwaitReconfigure, notice: None }));
}

#[test]
fn reconfigure_that_cannot_start_is_reported_and_the_watch_rearmed() {
    let taken = step(
        &path(),
        WatchOp::StartReconfigure,
        WatchEvent::ReconfigureNotStarted(String::from("No such file or directory")),
    )
    .unwrap();
    assert_eq!(taken.next, WatchOp::Arm);
    let notice = taken.notice.unwrap();
    assert_eq!(notice, Notice::ReconfigureNotStarted(String::from("No such file or directory")));
    assert!(!notice.is_fatal());
}

#[test]
fn reconfigure_wait_failure_is_reported_and_the_watch_rearmed() {
    let taken = step(
        &path(),
        WatchOp::AwaitReconfigure,
        WatchEvent::ReconfigureWaitFailed(String::from("no child")),
    )
    .unwrap();
    assert_eq!(taken.next, WatchOp::Arm);
    let notice = taken.notice.unwrap();
    assert_eq!(notice, Notice::ReconfigureWaitFailed(String::from("no child")));
    assert!(!notice.is_fatal());
}

#[test]
fn finished_reconfigure_rearms_silently() {
    let taken = step(&path(), WatchOp::AwaitReconfigure, WatchEvent::ReconfigureFinished);
    assert_eq!(taken, Some(Step { next: WatchOp::Arm, notice: None }));
}

#[test]
fn events_that_do_not_answer_the_pending_operation_are_rejected() {
    assert_eq!(step(&path(), WatchOp::Arm, WatchEvent::Changed(1)), None);
    assert_eq!(step(&path(), WatchOp::AwaitChange, WatchEvent::Armed), None);
    assert_eq!(step(&path(), WatchOp::StartReconfigure, WatchEvent::ReconfigureFinished), None);
    assert_eq!(step(&path(), WatchOp::AwaitReconfigure, WatchEvent::ReconfigureStarted), None);
    assert_eq!(step(&path(), WatchOp::Abort, WatchEvent::Armed), None);
    assert_eq!(step(&path(), WatchOp::Abort, WatchEvent::ReconfigureFinished), None);
}

#[test]
fn n_spaced_changes_give_n_serialized_reconfigures() {
    for n in [0usize, 1, 3, 10] {
        let mut events = Vec::new();
        for _ in 0..n {
            events.extend(one_round(1));
        }
        events.push(WatchEvent::Armed);
        let (ops, _) = drive(events);
        let started = ops.iter().filter(|op| **op == WatchOp::StartReconfigure).count();
        assert_eq!(started, n);
        // Every start is directly followed by the wait for that command.
        for (i, op) in ops.iter().enumerate() {
            if *op == WatchOp::StartReconfigure {
                assert_eq!(ops[i + 1], WatchOp::AwaitReconfigure);
                assert_eq!(ops[i + 2], WatchOp::Arm);
            }
        }
        assert_eq!(*ops.last().unwrap(), WatchOp::AwaitChange);
    }
}

#[test]
fn every_wait_comes_right_after_a_fresh_arm() {
    let mut events = one_round(1);
    events.extend(vec![
        WatchEvent::Armed,
        WatchEvent::Changed(4),
        WatchEvent::ReconfigureNotStarted(String::from("gone")),
        WatchEvent::Armed,
        WatchEvent::Changed(2),
        WatchEvent::ReconfigureStarted,
        WatchEvent::ReconfigureWaitFailed(String::from("lost")),
        WatchEvent::Armed,
    ]);
    let (ops, _) = drive(events);
    let mut waits = 0;
    for (i, op) in ops.iter().enumerate() {
        if *op == WatchOp::AwaitChange {
            waits += 1;
            assert_eq!(ops[i - 1], WatchOp::Arm);
        }
    }
    assert_eq!(waits, 4);
}

#[test]
fn burst_after_a_finished_reconfigure_still_triggers() {
    let path = path();
    for ended in [
        WatchEvent::ReconfigureFinished,
        WatchEvent::ReconfigureWaitFailed(String::from("interrupted")),
    ] {
        let after = step(&path, WatchOp::AwaitReconfigure, ended).unwrap();
        assert_eq!(after.next, WatchOp::Arm);
        let armed = step(&path, after.next, WatchEvent::Armed).unwrap();
        assert_eq!(armed.next, WatchOp::AwaitChange);
        let woken = step(&path, armed.next, WatchEvent::Changed(9)).unwrap();
        assert_eq!(woken.next, WatchOp::StartReconfigure);
    }
}

#[test]
fn later_rounds_are_decided_like_the_first() {
    let path = path();
    let (ops, notices) = drive(one_round(1));
    let mut twice = one_round(1);
    twice.extend(one_round(1));
    twice.extend(one_round(1));
    let (more_ops, more_notices) = drive(twice);
    assert_eq!(&more_ops[..ops.len()], &ops[..]);
    assert_eq!(&more_ops[8..], &ops[..]);
    assert_eq!(notices, vec![Notice::Watching(path.clone()), Notice::ChangeDetected(path.clone())]);
    assert_eq!(more_notices.len(), 4);
    assert_eq!(
        step(&path, *more_ops.last().unwrap(), WatchEvent::Armed),
        step(&path, *ops.last().unwrap(), WatchEvent::Armed)
    );
}
