//! The forwarding enabler: when asked to, make sure that the kernel's
//! forwarding key holds the enabling value before the daemon starts.

use crate::status::{Notice, Step};
use vstd::prelude::*;

verus! {

/// The value of the forwarding key that enables forwarding.
pub const ENABLED: &'static str = "1";

/// The operation that the enabler wants performed next.
#[derive(Debug, Clone, Copy, PartialEq, Eq, Structural)]
pub enum ForwardOp {
    /// Read the current value of the forwarding key.
    ReadKey,
    /// Write `ENABLED` to the forwarding key.
    WriteKey,
    /// The enabler is done; go on and start the daemon.
    Proceed,
    /// Terminate abnormally: forwarding was asked for and cannot be had.
    Abort,
}

/// The outcome of an operation, reported back to the enabler.
#[derive(Debug, Clone, PartialEq, Eq)]
pub enum ForwardEvent {
    /// The key was read and holds this value.
    KeyRead(String),
    /// The key could not be read.
    ReadFailed(String),
    /// The key was written.
    KeyWritten,
    /// The key could not be written.
    WriteFailed(String),
}

/// Whether a key that holds `value` enables forwarding.
pub open spec fn enables(value: Seq<char>) -> bool {
    value == ENABLED@
}

/// The first decision of the enabler: read the key when the opt-in signal
/// is present, and do nothing at all when it is absent.
pub open spec fn opening(opt_in: bool) -> Step<ForwardOp> {
    if opt_in {
        Step { next: ForwardOp::ReadKey, notice: Some(Notice::CheckingForwarding) }
    } else {
        Step { next: ForwardOp::Proceed, notice: None }
    }
}

/// The operation that follows `op` once `event` has been reported for it,
/// or `None` where `event` is no outcome of `op`.
///
/// A key that cannot be read is left alone.  A key that enables forwarding
/// is left alone.  Any other key is written, and a failure to write it is
/// fatal.
pub open spec fn next_op(op: ForwardOp, event: ForwardEvent) -> Option<ForwardOp> {
    match (op, event) {
        (ForwardOp::ReadKey, ForwardEvent::KeyRead(value)) => Some(
            if enables(value@) {
                ForwardOp::Proceed
            } else {
                ForwardOp::WriteKey
            },
        ),
        (ForwardOp::ReadKey, ForwardEvent::ReadFailed(_)) => Some(ForwardOp::Proceed),
        (ForwardOp::WriteKey, ForwardEvent::KeyWritten) => Some(ForwardOp::Proceed),
        (ForwardOp::WriteKey, ForwardEvent::WriteFailed(_)) => Some(ForwardOp::Abort),
        _ => None,
    }
}

/// What the enabler reports when it learns of `event`.
pub open spec fn notice_for(event: ForwardEvent) -> Option<Notice> {
    match event {
        ForwardEvent::KeyRead(value) => if enables(value@) {
            Some(Notice::ForwardingAlreadyEnabled)
        } else {
            None
        },
        ForwardEvent::ReadFailed(detail) => Some(Notice::ForwardingUnreadable(detail)),
        ForwardEvent::KeyWritten => Some(Notice::ForwardingEnabled),
        ForwardEvent::WriteFailed(detail) => Some(Notice::ForwardingNotEnabled(detail)),
    }
}

/// The decision of the enabler on `event`, reported while `op` was
/// pending; `None` where `event` is no outcome of `op`.
pub open spec fn decision(op: ForwardOp, event: ForwardEvent) -> Option<Step<ForwardOp>> {
    match next_op(op, event) {
        Some(next) => Some(Step { next, notice: notice_for(event) }),
        None => None,
    }
}

/// Tells whether a forwarding key that holds `value` enables forwarding.
pub fn is_enabled(value: &str) -> (enabled: bool)
    ensures
        enabled == enables(value@),
{
    proof {
        reveal_strlit("1");
    }
    if value.unicode_len() == 1 {
        let only = value.get_char(0);
        assert(only == '1' ==> value@ =~= ENABLED@);
        only == '1'
    } else {
        false
    }
}

/// Starts the enabler; `opt_in` tells whether the opt-in signal is present.
pub fn begin(opt_in: bool) -> (step: Step<ForwardOp>)
    ensures
        step == opening(opt_in),
{
    if opt_in {
        Step { next: ForwardOp::ReadKey, notice: Some(Notice::CheckingForwarding) }
    } else {
        Step { next: ForwardOp::Proceed, notice: None }
    }
}

/// Decides how the enabler goes on after `event` was reported for the
/// pending operation `op`.
///
/// Returns `None`, and decides nothing, exactly when `event` is no outcome
/// of `op`; no event is an outcome of `ForwardOp::Proceed` or of
/// `ForwardOp::Abort`.
pub fn step(op: ForwardOp, event: ForwardEvent) -> (taken: Option<Step<ForwardOp>>)
    ensures
        taken == decision(op, event),
        taken matches Some(s) ==> (s.next == ForwardOp::Abort <==> (s.notice matches Some(n)
            && n.fatal())),
{
    match (op, event) {
        (ForwardOp::ReadKey, ForwardEvent::KeyRead(value)) => {
            if is_enabled(value.as_str()) {
                Some(
                    Step {
                        next: ForwardOp::Proceed,
                        notice: Some(Notice::ForwardingAlreadyEnabled),
                    },
                )
            } else {
                Some(Step { next: ForwardOp::WriteKey, notice: None })
            }
        },
        (ForwardOp::ReadKey, ForwardEvent::ReadFailed(detail)) => Some(
            Step { next: ForwardOp::Proceed, notice: Some(Notice::ForwardingUnreadable(detail)) },
        ),
        (ForwardOp::WriteKey, ForwardEvent::KeyWritten) => Some(
            Step { next: ForwardOp::Proceed, notice: Some(Notice::ForwardingEnabled) },
        ),
        (ForwardOp::WriteKey, ForwardEvent::WriteFailed(detail)) => Some(
            Step { next: ForwardOp::Abort, notice: Some(Notice::ForwardingNotEnabled(detail)) },
        ),
        _ => None,
    }
}

/// The operation pending after the enabler, started with `opt_in`, has
/// been told `events` in this order; `None` where one of them was no
/// outcome of the operation then pending.
pub open spec fn pending_after(opt_in: bool, events: Seq<ForwardEvent>) -> Option<ForwardOp>
    decreases events.len(),
{
    if events.len() == 0 {
        Some(opening(opt_in).next)
    } else {
        match pending_after(opt_in, events.drop_last()) {
            Some(op) => next_op(op, events.last()),
            None => None,
        }
    }
}

/// How many reads of the key `events` answer.
pub open spec fn reads(events: Seq<ForwardEvent>) -> nat
    decreases events.len(),
{
    if events.len() == 0 {
        0
    } else if events.last() is KeyRead || events.last() is ReadFailed {
        reads(events.drop_last()) + 1
    } else {
        reads(events.drop_last())
    }
}

/// How many writes of the key `events` answer.
pub open spec fn writes(events: Seq<ForwardEvent>) -> nat
    decreases events.len(),
{
    if events.len() == 0 {
        0
    } else if events.last() is KeyWritten || events.last() is WriteFailed {
        writes(events.drop_last()) + 1
    } else {
        writes(events.drop_last())
    }
}

/// The value that a key holds after `events`, if it held `initial` before:
/// every write that succeeded stored `ENABLED`, and nothing else changed it.
pub open spec fn key_after(initial: Seq<char>, events: Seq<ForwardEvent>) -> Seq<char>
    decreases events.len(),
{
    if events.len() == 0 {
        initial
    } else if events.last() is KeyWritten {
        ENABLED@
    } else {
        key_after(initial, events.drop_last())
    }
}

/// Whether `events` are what a key that held `initial` at first can have
/// answered: every read that succeeded reported the value held just then.
pub open spec fn truthful(initial: Seq<char>, events: Seq<ForwardEvent>) -> bool {
    forall|i: int|
        0 <= i < events.len() ==> (#[trigger] events[i] matches ForwardEvent::KeyRead(value)
            ==> value@ == key_after(initial, events.take(i)))
}

/// Whether the enabler has come to its end.
pub open spec fn finished(op: ForwardOp) -> bool {
    op == ForwardOp::Proceed || op == ForwardOp::Abort
}

/// The enabler reads the key at most once and writes it at most once, and
/// never writes without having read.
pub proof fn lemma_at_most_one_read_and_write(opt_in: bool, events: Seq<ForwardEvent>)
    requires
        pending_after(opt_in, events) is Some,
    ensures
        events.len() <= 2,
        reads(events) <= 1,
        writes(events) <= reads(events),
{
    lemma_course(opt_in, events);
}

/// Without the opt-in signal the enabler touches nothing: it asks for no
/// read and no write, whatever the key holds, and the key keeps its value.
pub proof fn lemma_opt_out_touches_nothing(initial: Seq<char>, events: Seq<ForwardEvent>)
    requires
        pending_after(false, events) is Some,
    ensures
        events.len() == 0,
        reads(events) == 0,
        writes(events) == 0,
        key_after(initial, events) == initial,
        pending_after(false, events) == Some(ForwardOp::Proceed),
{
    lemma_course(false, events);
}

/// A key that already enables forwarding is never written.
pub proof fn lemma_enabled_key_is_not_written(initial: Seq<char>, events: Seq<ForwardEvent>)
    requires
        enables(initial),
        truthful(initial, events),
        pending_after(true, events) is Some,
    ensures
        writes(events) == 0,
        key_after(initial, events) == initial,
        pending_after(true, events) != Some(ForwardOp::Abort),
{
    lemma_course(true, events);
    reveal_with_fuel(key_after, 3);
    if events.len() >= 1 {
        assert(events.take(0) =~= Seq::<ForwardEvent>::empty());
        let first = events[0];
        assert(first matches ForwardEvent::KeyRead(value) ==> value@ == initial);
    }
}

/// A key that was read and does not enable forwarding is written exactly
/// once.  When that write succeeds the key enables forwarding afterwards
/// and the enabler lets the daemon start; when it fails the key is as it
/// was and the enabler gives up.
pub proof fn lemma_disabled_key_is_written_once(initial: Seq<char>, events: Seq<ForwardEvent>)
    requires
        !enables(initial),
        truthful(initial, events),
        pending_after(true, events) is Some,
        finished(pending_after(true, events)->0),
        events.len() >= 1 && events[0] is KeyRead,
    ensures
        events.len() == 2,
        reads(events) == 1,
        writes(events) == 1,
        events[1] is KeyWritten ==> enables(key_after(initial, events)) && pending_after(
            true,
            events,
        ) == Some(ForwardOp::Proceed),
        events[1] is WriteFailed ==> key_after(initial, events) == initial && pending_after(
            true,
            events,
        ) == Some(ForwardOp::Abort),
        events[1] is KeyWritten || events[1] is WriteFailed,
{
    lemma_course(true, events);
    assert(events.take(0) =~= Seq::<ForwardEvent>::empty());
    let first = events[0];
    assert(first matches ForwardEvent::KeyRead(value) ==> value@ == initial);
    reveal_with_fuel(key_after, 3);
}

/// Once the enabler has read the key and lets the daemon start, the key
/// enables forwarding.
pub proof fn lemma_forwarding_holds_on_success(initial: Seq<char>, events: Seq<ForwardEvent>)
    requires
        truthful(initial, events),
        pending_after(true, events) == Some(ForwardOp::Proceed),
        events.len() >= 1 && events[0] is KeyRead,
    ensures
        enables(key_after(initial, events)),
{
    lemma_course(true, events);
    assert(events.take(0) =~= Seq::<ForwardEvent>::empty());
    let first = events[0];
    assert(first matches ForwardEvent::KeyRead(value) ==> value@ == initial);
    reveal_with_fuel(key_after, 3);
}

/// The few courses that the enabler can take, by the operation pending.
proof fn lemma_course(opt_in: bool, events: Seq<ForwardEvent>)
    requires
        pending_after(opt_in, events) is Some,
    ensures
        events.len() <= 2,
        reads(events) == if events.len() >= 1 {
            1nat
        } else {
            0nat
        },
        writes(events) == if events.len() == 2 {
            1nat
        } else {
            0nat
        },
        events.len() >= 1 ==> opt_in,
        match pending_after(opt_in, events)->0 {
            ForwardOp::ReadKey => opt_in && events.len() == 0,
            ForwardOp::WriteKey => events.len() == 1 && (events[0] matches ForwardEvent::KeyRead(
                value,
            ) && !enables(value@)),
            ForwardOp::Proceed => {
                ||| !opt_in && events.len() == 0
                ||| events.len() == 1 && events[0] is ReadFailed
                ||| events.len() == 1 && (events[0] matches ForwardEvent::KeyRead(value)
                    && enables(value@))
                ||| events.len() == 2 && events[1] is KeyWritten && (
                events[0] matches ForwardEvent::KeyRead(value) && !enables(value@))
            },
            ForwardOp::Abort => events.len() == 2 && events[1] is WriteFailed && (
            events[0] matches ForwardEvent::KeyRead(value) && !enables(value@)),
        },
    decreases events.len(),
{
    if events.len() > 0 {
        lemma_course(opt_in, events.drop_last());
    }
}

} // verus!
