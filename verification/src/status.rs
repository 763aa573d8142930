//! What the supervisor has to say: one notice per progress line or failure.

use crate::settings::{BIRD_BIN, BIRD_CFG, CTLNAME};
use vstd::prelude::*;

verus! {

/// A progress line or a failure that the supervisor reports.
///
/// Failures carry the detail that the system gave for them.
#[derive(Debug, Clone, PartialEq, Eq)]
pub enum Notice {
    /// The forwarding key is about to be read.
    CheckingForwarding,
    /// The forwarding key was written and now enables forwarding.
    ForwardingEnabled,
    /// The forwarding key already enabled forwarding; nothing was written.
    ForwardingAlreadyEnabled,
    /// The forwarding key could not be read; the supervisor goes on without it.
    ForwardingUnreadable(String),
    /// The forwarding key could not be written; the supervisor gives up.
    ForwardingNotEnabled(String),
    /// The daemon is about to be started.
    DaemonStarting,
    /// The daemon runs under this process id.
    DaemonStarted(u32),
    /// The daemon could not be started; the supervisor gives up.
    DaemonNotStarted(String),
    /// The daemon's exit status could not be obtained; the supervisor gives up.
    DaemonLost(String),
    /// The daemon exited with this non-zero status code.
    DaemonFailedWithCode(i32),
    /// The daemon ended without reporting a status code.
    DaemonFailedWithoutCode,
    /// The watcher starts to watch the configuration file at this path.
    Watching(String),
    /// The watch could not be armed; the supervisor gives up.
    WatchNotArmed(String),
    /// Waiting for a change failed; the supervisor gives up.
    WatchReadFailed(String),
    /// The configuration file at this path changed.
    ChangeDetected(String),
    /// The reconfigure command could not be started; the watcher goes on.
    ReconfigureNotStarted(String),
    /// Waiting for the reconfigure command failed; the watcher goes on.
    ReconfigureWaitFailed(String),
}

impl Notice {
    /// The notices after which the supervisor terminates abnormally.
    pub open spec fn fatal(self) -> bool {
        match self {
            Notice::ForwardingNotEnabled(_) => true,
            Notice::DaemonNotStarted(_) => true,
            Notice::DaemonLost(_) => true,
            Notice::WatchNotArmed(_) => true,
            Notice::WatchReadFailed(_) => true,
            _ => false,
        }
    }

    /// The line that reports this notice.  A failure's line ends with the
    /// detail that the system gave for it.
    pub open spec fn text(self) -> Seq<char> {
        match self {
            Notice::CheckingForwarding => "checking if ip forwarding is enabled"@,
            Notice::ForwardingEnabled => "ip forwarding was enabled successfully"@,
            Notice::ForwardingAlreadyEnabled => "ip forwarding already has the expected value: 1"@,
            Notice::ForwardingUnreadable(detail) => "failed to get the current value of '"@
                + CTLNAME@ + "': "@ + detail@,
            Notice::ForwardingNotEnabled(detail) => "could not enable ip forwarding: "@ + detail@,
            Notice::DaemonStarting => "starting "@ + BIRD_BIN@ + " with args [\"-f\", \"-c\", \""@
                + BIRD_CFG@ + "\"]"@,
            Notice::DaemonStarted(pid) => "bird is flying (pid "@ + decimal(pid as int) + ")"@,
            Notice::DaemonNotStarted(detail) => "failed to start bird daemon: "@ + detail@,
            Notice::DaemonLost(detail) => "bird was not running: "@ + detail@,
            Notice::DaemonFailedWithCode(code) => "bird daemon has failed with status code "@
                + decimal(code as int),
            Notice::DaemonFailedWithoutCode =>
                "bird daemon has failed without reporting a status code"@,
            Notice::Watching(path) => "watching '"@ + path@ + "'"@,
            Notice::WatchNotArmed(detail) => "failed to add file watch: "@ + detail@,
            Notice::WatchReadFailed(detail) => "failed to read inotify events: "@ + detail@,
            Notice::ChangeDetected(path) => path@
                + " change detected, updating bird running config"@,
            Notice::ReconfigureNotStarted(detail) => "failed to trigger the config update: "@
                + detail@,
            Notice::ReconfigureWaitFailed(detail) =>
                "unexpected error when updating bird config: "@ + detail@,
        }
    }

    /// Renders the line that reports this notice.
    pub fn message(&self) -> (line: String)
        ensures
            line@ == self.text(),
    {
        match self {
            Notice::CheckingForwarding => String::from_str("checking if ip forwarding is enabled"),
            Notice::ForwardingEnabled => String::from_str("ip forwarding was enabled successfully"),
            Notice::ForwardingAlreadyEnabled => String::from_str(
                "ip forwarding already has the expected value: 1",
            ),
            Notice::ForwardingUnreadable(detail) => {
                let mut line = String::from_str("failed to get the current value of '");
                line.append(CTLNAME);
                line.append("': ");
                line.append(detail.as_str());
                line
            },
            Notice::ForwardingNotEnabled(detail) => {
                let mut line = String::from_str("could not enable ip forwarding: ");
                line.append(detail.as_str());
                line
            },
            Notice::DaemonStarting => {
                let mut line = String::from_str("starting ");
                line.append(BIRD_BIN);
                line.append(" with args [\"-f\", \"-c\", \"");
                line.append(BIRD_CFG);
                line.append("\"]");
                line
            },
            Notice::DaemonStarted(pid) => {
                let mut line = String::from_str("bird is flying (pid ");
                append_decimal(&mut line, *pid as i64);
                line.append(")");
                line
            },
            Notice::DaemonNotStarted(detail) => {
                let mut line = String::from_str("failed to start bird daemon: ");
                line.append(detail.as_str());
                line
            },
            Notice::DaemonLost(detail) => {
                let mut line = String::from_str("bird was not running: ");
                line.append(detail.as_str());
                line
            },
            Notice::DaemonFailedWithCode(code) => {
                let mut line = String::from_str("bird daemon has failed with status code ");
                append_decimal(&mut line, *code as i64);
                line
            },
            Notice::DaemonFailedWithoutCode => String::from_str(
                "bird daemon has failed without reporting a status code",
            ),
            Notice::Watching(path) => {
                let mut line = String::from_str("watching '");
                line.append(path.as_str());
                line.append("'");
                line
            },
            Notice::WatchNotArmed(detail) => {
                let mut line = String::from_str("failed to add file watch: ");
                line.append(detail.as_str());
                line
            },
            Notice::WatchReadFailed(detail) => {
                let mut line = String::from_str("failed to read inotify events: ");
                line.append(detail.as_str());
                line
            },
            Notice::ChangeDetected(path) => {
                let mut line = path.clone();
                line.append(" change detected, updating bird running config");
                line
            },
            Notice::ReconfigureNotStarted(detail) => {
                let mut line = String::from_str("failed to trigger the config update: ");
                line.append(detail.as_str());
                line
            },
            Notice::ReconfigureWaitFailed(detail) => {
                let mut line = String::from_str("unexpected error when updating bird config: ");
                line.append(detail.as_str());
                line
            },
        }
    }

    /// Tells whether the supervisor terminates abnormally after this notice.
    pub fn is_fatal(&self) -> (fatal: bool)
        ensures
            fatal == self.fatal(),
    {
        match self {
            Notice::ForwardingNotEnabled(_) => true,
            Notice::DaemonNotStarted(_) => true,
            Notice::DaemonLost(_) => true,
            Notice::WatchNotArmed(_) => true,
            Notice::WatchReadFailed(_) => true,
            _ => false,
        }
    }
}

/// The decimal digit that stands for `d`, a number below ten.
pub open spec fn digit(d: nat) -> char {
    if d == 0 {
        '0'
    } else if d == 1 {
        '1'
    } else if d == 2 {
        '2'
    } else if d == 3 {
        '3'
    } else if d == 4 {
        '4'
    } else if d == 5 {
        '5'
    } else if d == 6 {
        '6'
    } else if d == 7 {
        '7'
    } else if d == 8 {
        '8'
    } else {
        '9'
    }
}

/// The decimal digits of `n`, the most significant first, without leading
/// zeros.
pub open spec fn digits(n: nat) -> Seq<char>
    decreases n,
{
    if n < 10 {
        seq![digit(n)]
    } else {
        digits(n / 10).push(digit(n % 10))
    }
}

/// `n` in decimal notation, with a minus sign before a negative number.
pub open spec fn decimal(n: int) -> Seq<char> {
    if n < 0 {
        seq!['-'] + digits((-n) as nat)
    } else {
        digits(n as nat)
    }
}

/// The text of one decimal digit.
fn digit_text(d: u64) -> (text: &'static str)
    requires
        d < 10,
    ensures
        text@ == seq![digit(d as nat)],
{
    proof {
        reveal_strlit("0");
        reveal_strlit("1");
        reveal_strlit("2");
        reveal_strlit("3");
        reveal_strlit("4");
        reveal_strlit("5");
        reveal_strlit("6");
        reveal_strlit("7");
        reveal_strlit("8");
        reveal_strlit("9");
    }
    let text = if d == 0 {
        "0"
    } else if d == 1 {
        "1"
    } else if d == 2 {
        "2"
    } else if d == 3 {
        "3"
    } else if d == 4 {
        "4"
    } else if d == 5 {
        "5"
    } else if d == 6 {
        "6"
    } else if d == 7 {
        "7"
    } else if d == 8 {
        "8"
    } else {
        "9"
    };
    assert(text@ =~= seq![digit(d as nat)]);
    text
}

/// Appends the decimal digits of `n` to `out`.
fn append_digits(out: &mut String, n: u64)
    ensures
        final(out)@ == old(out)@ + digits(n as nat),
    decreases n,
{
    if n >= 10 {
        append_digits(out, n / 10);
    }
    out.append(digit_text(n % 10));
    assert(final(out)@ =~= old(out)@ + digits(n as nat));
}

/// Appends `n` in decimal notation to `out`.
fn append_decimal(out: &mut String, n: i64)
    ensures
        final(out)@ == old(out)@ + decimal(n as int),
{
    if n < 0 {
        proof {
            reveal_strlit("-");
        }
        out.append("-");
        let magnitude: u64 = if n == i64::MIN {
            9223372036854775808u64
        } else {
            (-n) as u64
        };
        append_digits(out, magnitude);
        assert(final(out)@ =~= old(out)@ + decimal(n as int));
    } else {
        append_digits(out, n as u64);
    }
}

/// One decision of a component: the operation to perform next, and what
/// to report before performing it.
#[derive(Debug, Clone, PartialEq, Eq)]
pub struct Step<Op> {
    /// The operation to perform next.
    pub next: Op,
    /// The notice to report, if the decision comes with one.
    pub notice: Option<Notice>,
}

} // verus!
