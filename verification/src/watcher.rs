//! The config watcher: re-arm a watch on the configuration file, wait for
//! a change, run the reconfigure command to completion, and start over.

use crate::status::{Notice, Step};
use vstd::prelude::*;

verus! {

/// The operation that the watcher wants performed next.
#[derive(Debug, Clone, Copy, PartialEq, Eq, Structural)]
pub enum WatchOp {
    /// Arm a fresh watch for modifications of the configuration file.
    Arm,
    /// Block until the armed watch reports at least one event.
    AwaitChange,
    /// Start the reconfigure command.
    StartReconfigure,
    /// Wait until the started reconfigure command has finished.
    AwaitReconfigure,
    /// Terminate abnormally: the configuration can no longer be watched.
    Abort,
}

/// The outcome of an operation, reported back to the watcher.
#[derive(Debug, Clone, PartialEq, Eq)]
pub enum WatchEvent {
    /// The watch is armed.
    Armed,
    /// The watch could not be armed.
    ArmFailed(String),
    /// The blocking wait returned; it drained this many events at once.
    Changed(usize),
    /// The blocking wait failed.
    ReadFailed(String),
    /// The reconfigure command is running.
    ReconfigureStarted,
    /// The reconfigure command could not be started.
    ReconfigureNotStarted(String),
    /// The reconfigure command has run to completion.
    ReconfigureFinished,
    /// Waiting for the reconfigure command failed; it is no longer waited for.
    ReconfigureWaitFailed(String),
}

/// The operation that follows `op` once `event` has been reported for it,
/// or `None` where `event` is no outcome of `op`.
///
/// Failing to arm the watch or to wait on it ends the watcher; failing to
/// start or to await the reconfigure command does not.  However many events
/// one wake-up drained, it asks for one reconfigure.
pub open spec fn next_op(op: WatchOp, event: WatchEvent) -> Option<WatchOp> {
    match (op, event) {
        (WatchOp::Arm, WatchEvent::Armed) => Some(WatchOp::AwaitChange),
        (WatchOp::Arm, WatchEvent::ArmFailed(_)) => Some(WatchOp::Abort),
        (WatchOp::AwaitChange, WatchEvent::Changed(_)) => Some(WatchOp::StartReconfigure),
        (WatchOp::AwaitChange, WatchEvent::ReadFailed(_)) => Some(WatchOp::Abort),
        (WatchOp::StartReconfigure, WatchEvent::ReconfigureStarted) => Some(
            WatchOp::AwaitReconfigure,
        ),
        (WatchOp::StartReconfigure, WatchEvent::ReconfigureNotStarted(_)) => Some(WatchOp::Arm),
        (WatchOp::AwaitReconfigure, WatchEvent::ReconfigureFinished) => Some(WatchOp::Arm),
        (WatchOp::AwaitReconfigure, WatchEvent::ReconfigureWaitFailed(_)) => Some(WatchOp::Arm),
        _ => None,
    }
}

/// What the watcher of the file at `path` reports when it learns of `event`.
pub open spec fn notice_for(path: String, event: WatchEvent) -> Option<Notice> {
    match event {
        WatchEvent::Armed => None,
        WatchEvent::ArmFailed(detail) => Some(Notice::WatchNotArmed(detail)),
        WatchEvent::Changed(_) => Some(Notice::ChangeDetected(path)),
        WatchEvent::ReadFailed(detail) => Some(Notice::WatchReadFailed(detail)),
        WatchEvent::ReconfigureStarted => None,
        WatchEvent::ReconfigureNotStarted(detail) => Some(Notice::ReconfigureNotStarted(detail)),
        WatchEvent::ReconfigureFinished => None,
        WatchEvent::ReconfigureWaitFailed(detail) => Some(Notice::ReconfigureWaitFailed(detail)),
    }
}

/// The watcher's decision on `event`, reported while `op` was pending.
pub open spec fn decision(path: String, op: WatchOp, event: WatchEvent) -> Option<Step<WatchOp>> {
    match next_op(op, event) {
        Some(next) => Some(Step { next, notice: notice_for(path, event) }),
        None => None,
    }
}

/// The first decision of the watcher of the file at `path`: announce the
/// watch and arm it.
pub open spec fn opening(path: String) -> Step<WatchOp> {
    Step { next: WatchOp::Arm, notice: Some(Notice::Watching(path)) }
}

/// Starts the watcher of the file at `path`.
pub fn begin(path: &String) -> (step: Step<WatchOp>)
    ensures
        step == opening(*path),
{
    Step { next: WatchOp::Arm, notice: Some(Notice::Watching(path.clone())) }
}

/// Decides how the watcher of the file at `path` goes on after `event` was
/// reported for the pending operation `op`.
///
/// Returns `None`, and decides nothing, exactly when `event` is no outcome
/// of `op`; no event is an outcome of `WatchOp::Abort`.
pub fn step(path: &String, op: WatchOp, event: WatchEvent) -> (taken: Option<Step<WatchOp>>)
    ensures
        taken == decision(*path, op, event),
        taken matches Some(s) ==> (s.next == WatchOp::Abort <==> (s.notice matches Some(n)
            && n.fatal())),
{
    match (op, event) {
        (WatchOp::Arm, WatchEvent::Armed) => Some(Step { next: WatchOp::AwaitChange, notice: None }),
        (WatchOp::Arm, WatchEvent::ArmFailed(detail)) => Some(
            Step { next: WatchOp::Abort, notice: Some(Notice::WatchNotArmed(detail)) },
        ),
        (WatchOp::AwaitChange, WatchEvent::Changed(_)) => Some(
            Step {
                next: WatchOp::StartReconfigure,
                notice: Some(Notice::ChangeDetected(path.clone())),
            },
        ),
        (WatchOp::AwaitChange, WatchEvent::ReadFailed(detail)) => Some(
            Step { next: WatchOp::Abort, notice: Some(Notice::WatchReadFailed(detail)) },
        ),
        (WatchOp::StartReconfigure, WatchEvent::ReconfigureStarted) => Some(
            Step { next: WatchOp::AwaitReconfigure, notice: None },
        ),
        (WatchOp::StartReconfigure, WatchEvent::ReconfigureNotStarted(detail)) => Some(
            Step { next: WatchOp::Arm, notice: Some(Notice::ReconfigureNotStarted(detail)) },
        ),
        (WatchOp::AwaitReconfigure, WatchEvent::ReconfigureFinished) => Some(
            Step { next: WatchOp::Arm, notice: None },
        ),
        (WatchOp::AwaitReconfigure, WatchEvent::ReconfigureWaitFailed(detail)) => Some(
            Step { next: WatchOp::Arm, notice: Some(Notice::ReconfigureWaitFailed(detail)) },
        ),
        _ => None,
    }
}

/// The operation pending after the watcher, started fresh, has been told
/// `events` in this order; `None` where one of them was no outcome of the
/// operation then pending.
pub open spec fn pending_after(events: Seq<WatchEvent>) -> Option<WatchOp>
    decreases events.len(),
{
    if events.len() == 0 {
        Some(WatchOp::Arm)
    } else {
        match pending_after(events.drop_last()) {
            Some(op) => next_op(op, events.last()),
            None => None,
        }
    }
}

/// How many wake-ups `events` holds: blocking waits that returned.
pub open spec fn wakeups(events: Seq<WatchEvent>) -> nat
    decreases events.len(),
{
    if events.len() == 0 {
        0
    } else if events.last() is Changed {
        wakeups(events.drop_last()) + 1
    } else {
        wakeups(events.drop_last())
    }
}

/// How many times `events` show the reconfigure command invoked, whether
/// it could be started or not.
pub open spec fn invocations(events: Seq<WatchEvent>) -> nat
    decreases events.len(),
{
    if events.len() == 0 {
        0
    } else if events.last() is ReconfigureStarted || events.last() is ReconfigureNotStarted {
        invocations(events.drop_last()) + 1
    } else {
        invocations(events.drop_last())
    }
}

/// How many reconfigure commands `events` leave running: those started
/// less those whose wait has ended, well or badly.
pub open spec fn running(events: Seq<WatchEvent>) -> int
    decreases events.len(),
{
    if events.len() == 0 {
        0
    } else if events.last() is ReconfigureStarted {
        running(events.drop_last()) + 1
    } else if events.last() is ReconfigureFinished || events.last() is ReconfigureWaitFailed {
        running(events.drop_last()) - 1
    } else {
        running(events.drop_last())
    }
}

/// Every beginning of a history that the watcher accepts is accepted too.
pub proof fn lemma_prefix_accepted(events: Seq<WatchEvent>, k: int)
    requires
        pending_after(events) is Some,
        0 <= k <= events.len(),
    ensures
        pending_after(events.take(k)) is Some,
    decreases events.len(),
{
    if k == events.len() {
        assert(events.take(k) =~= events);
    } else {
        assert(events.drop_last().take(k) =~= events.take(k));
        lemma_prefix_accepted(events.drop_last(), k);
    }
}

/// Each wake-up is answered by exactly one invocation of the reconfigure
/// command, whatever the number of events it drained: at any moment the
/// invocations made equal the wake-ups seen, but for the one wake-up whose
/// invocation is pending.
pub proof fn lemma_one_invocation_per_wakeup(events: Seq<WatchEvent>)
    requires
        pending_after(events) is Some,
    ensures
        pending_after(events) == Some(WatchOp::StartReconfigure) ==> invocations(events) + 1
            == wakeups(events),
        pending_after(events) != Some(WatchOp::StartReconfigure) ==> invocations(events)
            == wakeups(events),
    decreases events.len(),
{
    if events.len() > 0 {
        lemma_one_invocation_per_wakeup(events.drop_last());
    }
}

/// Reconfigure commands run strictly one after the other, and none is left
/// behind: a command is running exactly while the watcher waits for it, so
/// none runs when the next is started or when the watch is armed again, and
/// at no moment of the history does more than one run.
pub proof fn lemma_reconfigures_serialized(events: Seq<WatchEvent>)
    requires
        pending_after(events) is Some,
    ensures
        pending_after(events) == Some(WatchOp::AwaitReconfigure) ==> running(events) == 1,
        pending_after(events) != Some(WatchOp::AwaitReconfigure) ==> running(events) == 0,
        forall|k: int| 0 <= k <= events.len() ==> 0 <= #[trigger] running(events.take(k)) <= 1,
    decreases events.len(),
{
    if events.len() > 0 {
        lemma_reconfigures_serialized(events.drop_last());
    }
    assert forall|k: int| 0 <= k <= events.len() implies 0 <= #[trigger] running(
        events.take(k),
    ) <= 1 by {
        if k == events.len() {
            assert(events.take(k) =~= events);
        } else {
            assert(events.drop_last().take(k) =~= events.take(k));
        }
    }
}

/// The watch is armed afresh before every blocking wait: whenever the
/// watcher waits for a change, the event just before is the arming of the
/// watch, and no event lies between the two.
pub proof fn lemma_wait_follows_fresh_arm(events: Seq<WatchEvent>, k: int)
    requires
        pending_after(events) is Some,
        0 <= k <= events.len(),
        pending_after(events.take(k)) == Some(WatchOp::AwaitChange),
    ensures
        k >= 1,
        events[k - 1] == WatchEvent::Armed,
        pending_after(events.take(k - 1)) == Some(WatchOp::Arm),
{
    let upto = events.take(k);
    if k >= 1 {
        assert(upto.drop_last() =~= events.take(k - 1));
        assert(upto.last() == events[k - 1]);
    }
}

/// A burst of changes is not missed for good: once the running reconfigure
/// command has ended, well or badly, the watcher arms the watch again, and
/// the wake-up that delivers the burst, of whatever size, asks for exactly
/// one more reconfigure.
pub proof fn lemma_burst_after_reconfigure_triggers(
    events: Seq<WatchEvent>,
    ended: WatchEvent,
    burst: usize,
)
    requires
        pending_after(events) == Some(WatchOp::AwaitReconfigure),
        ended is ReconfigureFinished || ended is ReconfigureWaitFailed,
    ensures
        pending_after(events.push(ended)) == Some(WatchOp::Arm),
        pending_after(events.push(ended).push(WatchEvent::Armed)) == Some(WatchOp::AwaitChange),
        pending_after(events.push(ended).push(WatchEvent::Armed).push(WatchEvent::Changed(burst)))
            == Some(WatchOp::StartReconfigure),
{
    let e1 = events.push(ended);
    let e2 = e1.push(WatchEvent::Armed);
    let e3 = e2.push(WatchEvent::Changed(burst));
    assert(e1.drop_last() =~= events);
    assert(e2.drop_last() =~= e1);
    assert(e3.drop_last() =~= e2);
}

/// The watcher never stops watching silently: it ends only where the watch
/// could not be armed or waited on, and no failure of the reconfigure
/// command ends it.
pub proof fn lemma_only_watch_failures_abort(events: Seq<WatchEvent>)
    requires
        pending_after(events) == Some(WatchOp::Abort),
    ensures
        events.len() >= 1,
        events.last() is ArmFailed || events.last() is ReadFailed,
        pending_after(events.drop_last()) == Some(WatchOp::Arm) || pending_after(
            events.drop_last(),
        ) == Some(WatchOp::AwaitChange),
{
}

/// The watcher keeps nothing from earlier rounds: whenever the watch is
/// about to be armed, however many reconfigures came before and however
/// they ended, the watcher goes on exactly as a fresh one would.
pub proof fn lemma_round_starts_afresh(before: Seq<WatchEvent>, then: Seq<WatchEvent>)
    requires
        pending_after(before) == Some(WatchOp::Arm),
    ensures
        pending_after(before + then) == pending_after(then),
        wakeups(before + then) == wakeups(before) + wakeups(then),
        invocations(before + then) == invocations(before) + invocations(then),
        running(before + then) == running(before) + running(then),
    decreases then.len(),
{
    if then.len() == 0 {
        assert(before + then =~= before);
    } else {
        assert((before + then).drop_last() =~= before + then.drop_last());
        lemma_round_starts_afresh(before, then.drop_last());
    }
}

} // verus!
