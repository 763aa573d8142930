//! The daemon supervisor: start the routing daemon once, wait for it, and
//! turn its exit status into the supervisor's own exit code.

use crate::status::{Notice, Step};
use vstd::prelude::*;

verus! {

/// Exit code of the supervisor when the daemon exited successfully.
pub const EXIT_OK: i32 = 0;

/// Exit code of the supervisor when the daemon failed or was killed.
pub const EXIT_DAEMON_FAILED: i32 = 1;

/// How the daemon process ended.
#[derive(Debug, Clone, Copy, PartialEq, Eq, Structural)]
pub enum DaemonExit {
    /// The daemon exited and reported this status code.
    Code(i32),
    /// The daemon ended without a status code, for instance by a signal.
    NoCode,
}

impl DaemonExit {
    /// A daemon succeeded exactly when it reported the status code zero.
    pub open spec fn succeeded(self) -> bool {
        self == DaemonExit::Code(0)
    }

    /// The exit code that the supervisor mirrors for this daemon exit.
    pub open spec fn mirrored(self) -> i32 {
        if self.succeeded() {
            EXIT_OK
        } else {
            EXIT_DAEMON_FAILED
        }
    }

    /// Tells whether the daemon exited with the status code zero.
    pub fn is_success(&self) -> (ok: bool)
        ensures
            ok == self.succeeded(),
    {
        match self {
            DaemonExit::Code(code) => *code == 0,
            DaemonExit::NoCode => false,
        }
    }

    /// The supervisor's exit code: zero for a successful daemon, one for
    /// every other way the daemon can end.
    pub fn exit_code(&self) -> (code: i32)
        ensures
            code == self.mirrored(),
            code == 0 <==> self.succeeded(),
            code == 0 || code == 1,
    {
        if self.is_success() {
            EXIT_OK
        } else {
            EXIT_DAEMON_FAILED
        }
    }
}

/// The operation that the supervisor wants performed next.
#[derive(Debug, Clone, Copy, PartialEq, Eq, Structural)]
pub enum DaemonOp {
    /// Start the daemon as a child process.
    Spawn,
    /// Start the config watcher, to run beside the wait for the daemon.
    LaunchWatcher,
    /// Block until the daemon has ended.
    AwaitExit,
    /// Terminate normally with this exit code.
    Exit(i32),
    /// Terminate abnormally: there is no daemon to supervise.
    Abort,
}

/// The outcome of an operation, reported back to the supervisor.
#[derive(Debug, Clone, PartialEq, Eq)]
pub enum DaemonEvent {
    /// The daemon runs under this process id.
    Spawned(u32),
    /// The daemon could not be started.
    SpawnFailed(String),
    /// The config watcher runs.
    WatcherLaunched,
    /// The daemon has ended in this way.
    Exited(DaemonExit),
    /// The daemon's exit status could not be obtained.
    WaitFailed(String),
}

/// What the supervisor reports about a daemon that ended: nothing where it
/// succeeded, and otherwise whether it gave a status code.
pub open spec fn verdict(exit: DaemonExit) -> Option<Notice> {
    match exit {
        DaemonExit::Code(code) => if code == 0 {
            None
        } else {
            Some(Notice::DaemonFailedWithCode(code))
        },
        DaemonExit::NoCode => Some(Notice::DaemonFailedWithoutCode),
    }
}

/// The first decision of the supervisor: announce the daemon and start it.
pub open spec fn opening() -> Step<DaemonOp> {
    Step { next: DaemonOp::Spawn, notice: Some(Notice::DaemonStarting) }
}

/// The operation that follows `op` once `event` has been reported for it,
/// or `None` where `event` is no outcome of `op`.
///
/// The daemon is started once and never again.  The watcher is launched
/// after the daemon runs and before the supervisor waits for it.  A daemon
/// that ended decides the exit code; a daemon that could not be started or
/// awaited ends the supervisor abnormally.
pub open spec fn next_op(op: DaemonOp, event: DaemonEvent) -> Option<DaemonOp> {
    match (op, event) {
        (DaemonOp::Spawn, DaemonEvent::Spawned(_)) => Some(DaemonOp::LaunchWatcher),
        (DaemonOp::Spawn, DaemonEvent::SpawnFailed(_)) => Some(DaemonOp::Abort),
        (DaemonOp::LaunchWatcher, DaemonEvent::WatcherLaunched) => Some(DaemonOp::AwaitExit),
        (DaemonOp::AwaitExit, DaemonEvent::Exited(exit)) => Some(DaemonOp::Exit(exit.mirrored())),
        (DaemonOp::AwaitExit, DaemonEvent::WaitFailed(_)) => Some(DaemonOp::Abort),
        _ => None,
    }
}

/// What the supervisor reports when it learns of `event`.
pub open spec fn notice_for(event: DaemonEvent) -> Option<Notice> {
    match event {
        DaemonEvent::Spawned(pid) => Some(Notice::DaemonStarted(pid)),
        DaemonEvent::SpawnFailed(detail) => Some(Notice::DaemonNotStarted(detail)),
        DaemonEvent::WatcherLaunched => None,
        DaemonEvent::Exited(exit) => verdict(exit),
        DaemonEvent::WaitFailed(detail) => Some(Notice::DaemonLost(detail)),
    }
}

/// The decision of the supervisor on `event`, reported while `op` was
/// pending; `None` where `event` is no outcome of `op`.
pub open spec fn decision(op: DaemonOp, event: DaemonEvent) -> Option<Step<DaemonOp>> {
    match next_op(op, event) {
        Some(next) => Some(Step { next, notice: notice_for(event) }),
        None => None,
    }
}

/// Starts the supervisor.
pub fn begin() -> (step: Step<DaemonOp>)
    ensures
        step == opening(),
{
    Step { next: DaemonOp::Spawn, notice: Some(Notice::DaemonStarting) }
}

/// Says what the supervisor reports about a daemon that ended.
pub fn report(exit: DaemonExit) -> (notice: Option<Notice>)
    ensures
        notice == verdict(exit),
        notice is None <==> exit.succeeded(),
{
    match exit {
        DaemonExit::Code(code) => {
            if code == 0 {
                None
            } else {
                Some(Notice::DaemonFailedWithCode(code))
            }
        },
        DaemonExit::NoCode => Some(Notice::DaemonFailedWithoutCode),
    }
}

/// Decides how the supervisor goes on after `event` was reported for the
/// pending operation `op`.
///
/// Returns `None`, and decides nothing, exactly when `event` is no outcome
/// of `op`; no event is an outcome of `DaemonOp::Exit` or of
/// `DaemonOp::Abort`.
pub fn step(op: DaemonOp, event: DaemonEvent) -> (taken: Option<Step<DaemonOp>>)
    ensures
        taken == decision(op, event),
        taken matches Some(s) ==> (s.next == DaemonOp::Abort <==> (s.notice matches Some(n)
            && n.fatal())),
{
    match (op, event) {
        (DaemonOp::Spawn, DaemonEvent::Spawned(pid)) => Some(
            Step { next: DaemonOp::LaunchWatcher, notice: Some(Notice::DaemonStarted(pid)) },
        ),
        (DaemonOp::Spawn, DaemonEvent::SpawnFailed(detail)) => Some(
            Step { next: DaemonOp::Abort, notice: Some(Notice::DaemonNotStarted(detail)) },
        ),
        (DaemonOp::LaunchWatcher, DaemonEvent::WatcherLaunched) => Some(
            Step { next: DaemonOp::AwaitExit, notice: None },
        ),
        (DaemonOp::AwaitExit, DaemonEvent::Exited(exit)) => Some(
            Step { next: DaemonOp::Exit(exit.exit_code()), notice: report(exit) },
        ),
        (DaemonOp::AwaitExit, DaemonEvent::WaitFailed(detail)) => Some(
            Step { next: DaemonOp::Abort, notice: Some(Notice::DaemonLost(detail)) },
        ),
        _ => None,
    }
}

/// The operation pending after the supervisor, started fresh, has been
/// told `events` in this order; `None` where one of them was no outcome of
/// the operation then pending.
pub open spec fn pending_after(events: Seq<DaemonEvent>) -> Option<DaemonOp>
    decreases events.len(),
{
    if events.len() == 0 {
        Some(opening().next)
    } else {
        match pending_after(events.drop_last()) {
            Some(op) => next_op(op, events.last()),
            None => None,
        }
    }
}

/// How many daemon processes `events` show started.
pub open spec fn daemons(events: Seq<DaemonEvent>) -> nat
    decreases events.len(),
{
    if events.len() == 0 {
        0
    } else if events.last() is Spawned {
        daemons(events.drop_last()) + 1
    } else {
        daemons(events.drop_last())
    }
}

/// The supervisor's exit code mirrors the daemon and nothing else: when
/// the supervisor exits, the daemon has ended, and the code is zero for a
/// daemon that succeeded and one for every other end, never another code.
pub proof fn lemma_exit_code_mirrors_daemon(events: Seq<DaemonEvent>, code: i32)
    requires
        pending_after(events) == Some(DaemonOp::Exit(code)),
    ensures
        events.len() == 3,
        events[2] matches DaemonEvent::Exited(exit) && code == exit.mirrored() && (code == 0
            <==> exit.succeeded()),
        code == 0 || code == 1,
{
    lemma_course(events);
}

/// One run supervises one daemon: the daemon is started at most once,
/// before anything else, and never started again after it has ended.
pub proof fn lemma_single_daemon(events: Seq<DaemonEvent>)
    requires
        pending_after(events) is Some,
    ensures
        daemons(events) <= 1,
        events.len() <= 3,
        forall|i: int| 0 <= i < events.len() && events[i] is Spawned ==> i == 0,
{
    lemma_course(events);
}

/// A daemon that cannot be started ends the run at once and abnormally:
/// it is never announced as running, and no watcher is launched.
pub proof fn lemma_spawn_failure_is_fatal(events: Seq<DaemonEvent>)
    requires
        pending_after(events) is Some,
        events.len() >= 1,
        events[0] is SpawnFailed,
    ensures
        events.len() == 1,
        pending_after(events) == Some(DaemonOp::Abort),
        daemons(events) == 0,
{
    lemma_course(events);
}

/// The few courses that the supervisor can take, by the operation pending.
proof fn lemma_course(events: Seq<DaemonEvent>)
    requires
        pending_after(events) is Some,
    ensures
        events.len() <= 3,
        daemons(events) == if events.len() >= 1 && events[0] is Spawned {
            1nat
        } else {
            0nat
        },
        forall|i: int| 0 <= i < events.len() && events[i] is Spawned ==> i == 0,
        match pending_after(events)->0 {
            DaemonOp::Spawn => events.len() == 0,
            DaemonOp::LaunchWatcher => events.len() == 1 && events[0] is Spawned,
            DaemonOp::AwaitExit => events.len() == 2 && events[0] is Spawned
                && events[1] is WatcherLaunched,
            DaemonOp::Exit(code) => events.len() == 3 && events[0] is Spawned
                && events[1] is WatcherLaunched && (events[2] matches DaemonEvent::Exited(exit)
                && code == exit.mirrored()),
            DaemonOp::Abort => {
                ||| events.len() == 1 && events[0] is SpawnFailed
                ||| events.len() == 3 && events[0] is Spawned && events[1] is WatcherLaunched
                    && events[2] is WaitFailed
            },
        },
    decreases events.len(),
{
    if events.len() > 0 {
        lemma_course(events.drop_last());
    }
}

} // verus!
