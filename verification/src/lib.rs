//! Decision logic of a small supervisor for the BIRD routing daemon.
//!
//! The supervisor optionally enables IP forwarding, starts the daemon,
//! mirrors its exit status, and reloads the daemon's configuration whenever
//! the configuration file changes.
//!
//! Everything in this crate is free of input and output.  Each of the three
//! components is a small state machine:
//!
//! * [`forwarding`] makes sure that the kernel's forwarding key is set,
//! * [`daemon`] starts the daemon once and turns its end into an exit code,
//! * [`watcher`] reloads the configuration after every change to its file.
//!
//! A component is driven in the same way each time.  Its `begin` names the
//! first operation to perform.  The caller performs the pending operation,
//! reports the outcome as an event to `step`, and gets back the next
//! operation together with the notice to print, if there is one.  The
//! operations `Abort`, `Proceed` and `Exit` end a component; `step` takes no
//! event for them.
//!
//! [`settings`] holds the fixed names and builds the two commands that are
//! run, and [`status`] holds the notices and renders their lines.

pub mod daemon;
pub mod forwarding;
pub mod settings;
pub mod status;
pub mod watcher;
