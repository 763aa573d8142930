use kbird::forwarding::{begin, is_enabled, step, ForwardEvent, ForwardOp, ENABLED};
use kbird::status::{Notice, Step};

/// A forwarding key kept in memory, with counters for what was done to it.
struct Key {
    value: String,
    readable: bool,
    writable: bool,
    reads: usize,
    writes: usize,
}

impl Key {
    fn holding(value: &str) -> Key {
        Key { value: String::from(value), readable: true, writable: true, reads: 0, writes: 0 }
    }
}

/// Runs the enabler against `key` and returns the operation it ended on
/// with the notices it gave.
fn enable(opt_in: bool, key: &mut Key) -> (ForwardOp, Vec<Notice>) {
    let first = begin(opt_in);
    let mut notices: Vec<Notice> = first.notice.into_iter().collect();
    let mut pending = first.next;
    loop {
        let event = match pending {
            ForwardOp::ReadKey => {
                key.reads += 1;
                if key.readable {
                    ForwardEvent::KeyRead(key.value.clone())
                } else {
                    ForwardEvent::ReadFailed(String::from("not readable"))
                }
            }
            ForwardOp::WriteKey => {
                key.writes += 1;
                if key.writable {
                    key.value = String::from(ENABLED);
                    ForwardEvent::KeyWritten
                } else {
                    ForwardEvent::WriteFailed(String::from("read-only file system"))
                }
            }
            ForwardOp::Proceed | ForwardOp::Abort => return (pending, notices),
        };
        let taken = step(pending, event).expect("the event answers the pending operation");
        notices.extend(taken.notice);
        pending = taken.next;
    }
}

#[test]
fn enabling_value_is_one() {
    assert_eq!(ENABLED, "1");
    assert!(is_enabled("1"));
    assert!(!is_enabled("0"));
    assert!(!is_enabled(""));
    assert!(!is_enabled("11"));
    assert!(!is_enabled("1 "));
    assert!(!is_enabled("2"));
    assert!(!is_enabled("\u{661}"));
}

#[test]
fn opt_out_proceeds_at_once() {
    assert_eq!(begin(false), Step { next: ForwardOp::Proceed, notice: None });
}

#[test]
fn opt_in_reads_the_key_first() {
    assert_eq!(
        begin(true),
        Step { next: ForwardOp::ReadKey, notice: Some(Notice::CheckingForwarding) }
    );
}

#[test]
fn disabled_key_is_written_exactly_once() {
    for initial in ["0", "", "2", "10", "01", "true", "1\n"] {
        let mut key = Key::holding(initial);
        let (end, notices) = enable(true, &mut key);
        assert_eq!(end, ForwardOp::Proceed);
        assert_eq!(key.value, "1");
        assert_eq!(key.reads, 1);
        assert_eq!(key.writes, 1);
        assert_eq!(notices, vec![Notice::CheckingForwarding, Notice::ForwardingEnabled]);
    }
}

#[test]
fn enabled_key_is_never_written() {
    let mut key = Key::holding("1");
    let (end, notices) = enable(true, &mut key);
    assert_eq!(end, ForwardOp::Proceed);
    assert_eq!(key.value, "1");
    assert_eq!(key.reads, 1);
    assert_eq!(key.writes, 0);
    assert_eq!(notices, vec![Notice::CheckingForwarding, Notice::ForwardingAlreadyEnabled]);
}

#[test]
fn opt_out_neither_reads_nor_writes() {
    for initial in ["0", "1", "whatever"] {
        let mut key = Key::holding(initial);
        let (end, notices) = enable(false, &mut key);
        assert_eq!(end, ForwardOp::Proceed);
        assert_eq!(key.value, initial);
        assert_eq!(key.reads, 0);
        assert_eq!(key.writes, 0);
        assert!(notices.is_empty());
    }
}

#[test]
fn unreadable_key_is_reported_and_left_alone() {
    let mut key = Key::holding("0");
    key.readable = false;
    let (end, notices) = enable(true, &mut key);
    assert_eq!(end, ForwardOp::Proceed);
    assert_eq!(key.value, "0");
    assert_eq!(key.reads, 1);
    assert_eq!(key.writes, 0);
    assert_eq!(
        notices,
        vec![
            Notice::CheckingForwarding,
            Notice::ForwardingUnreadable(String::from("not readable"))
        ]
    );
    assert!(!notices[1].is_fatal());
}

#[test]
fn unwritable_key_is_fatal() {
    let mut key = Key::holding("0");
    key.writable = false;
    let (end, notices) = enable(true, &mut key);
    assert_eq!(end, ForwardOp::Abort);
    assert_eq!(key.value, "0");
    assert_eq!(key.reads, 1);
    assert_eq!(key.writes, 1);
    assert_eq!(
        notices.last(),
        Some(&Notice::ForwardingNotEnabled(String::from("read-only file system")))
    );
    assert!(notices.last().unwrap().is_fatal());
}

#[test]
fn read_of_a_disabled_key_asks_for_a_write() {
    let taken = step(ForwardOp::ReadKey, ForwardEvent::KeyRead(String::from("0")));
    assert_eq!(taken, Some(Step { next: ForwardOp::WriteKey, notice: None }));
}

#[test]
fn enabler_rejects_events_that_do_not_answer() {
    assert_eq!(step(ForwardOp::ReadKey, ForwardEvent::KeyWritten), None);
    assert_eq!(step(ForwardOp::ReadKey, ForwardEvent::WriteFailed(String::new())), None);
    assert_eq!(step(ForwardOp::WriteKey, ForwardEvent::KeyRead(String::from("0"))), None);
    assert_eq!(step(ForwardOp::WriteKey, ForwardEvent::ReadFailed(String::new())), None);
    assert_eq!(step(ForwardOp::Proceed, ForwardEvent::KeyWritten), None);
    assert_eq!(step(ForwardOp::Proceed, ForwardEvent::KeyRead(String::from("1"))), None);
    assert_eq!(step(ForwardOp::Abort, ForwardEvent::KeyWritten), None);
}
