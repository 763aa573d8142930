//! The fixed names that the supervisor works with, and the two commands
//! that it runs.

use vstd::prelude::*;

verus! {

/// The path of the daemon's configuration file.
pub const BIRD_CFG: &'static str = "/config/bird.conf";

/// The name of the daemon's binary.
pub const BIRD_BIN: &'static str = "bird";

/// The name of the control client's binary.
pub const BIRDC_BIN: &'static str = "birdc";

/// The kernel key that controls IP forwarding.
pub const CTLNAME: &'static str = "net.ipv4.ip_forward";

/// The environment variable whose presence asks for IP forwarding; its
/// value is ignored.
pub const IP_FORWARDING: &'static str = "IP_FORWARDING";

/// A command to run: the program's name and its arguments.
#[derive(Debug, Clone, PartialEq, Eq)]
pub struct Invocation {
    /// The name of the program.
    pub program: String,
    /// The arguments, in order.
    pub args: Vec<String>,
}

/// A command as plain text.
pub struct InvocationView {
    pub program: Seq<char>,
    pub args: Seq<Seq<char>>,
}

impl View for Invocation {
    type V = InvocationView;

    open spec fn view(&self) -> InvocationView {
        InvocationView { program: self.program@, args: self.args.deep_view() }
    }
}

/// `text` between two double quotes.
pub open spec fn quoted(text: Seq<char>) -> Seq<char> {
    seq!['"'] + text + seq!['"']
}

/// The command that runs the daemon: in the foreground, on the fixed
/// configuration file.
pub open spec fn daemon_command() -> InvocationView {
    InvocationView { program: BIRD_BIN@, args: seq!["-f"@, "-c"@, BIRD_CFG@] }
}

/// The command that makes the running daemon load the configuration file
/// at `path`: the control client's `configure`, with the path in quotes.
pub open spec fn reconfigure_command(path: Seq<char>) -> InvocationView {
    InvocationView { program: BIRDC_BIN@, args: seq!["configure"@, quoted(path)] }
}

/// Puts `text` between two double quotes.
pub fn quote(text: &str) -> (out: String)
    ensures
        out@ == quoted(text@),
{
    proof {
        reveal_strlit("\"");
    }
    let mut out = String::from_str("\"");
    assert(out@ =~= seq!['"']);
    out.append(text);
    out.append("\"");
    assert(out@ =~= quoted(text@));
    out
}

/// Builds the command that runs the daemon.
pub fn daemon_invocation() -> (command: Invocation)
    ensures
        command@ == daemon_command(),
{
    let mut args: Vec<String> = Vec::new();
    args.push(String::from_str("-f"));
    args.push(String::from_str("-c"));
    args.push(String::from_str(BIRD_CFG));
    let command = Invocation { program: String::from_str(BIRD_BIN), args };
    assert(command@.args =~= daemon_command().args);
    command
}

/// Builds the command that reloads the configuration file at `path`.  The
/// command depends on the path alone: it is the same for every change.
pub fn reconfigure_invocation(path: &str) -> (command: Invocation)
    ensures
        command@ == reconfigure_command(path@),
{
    let mut args: Vec<String> = Vec::new();
    args.push(String::from_str("configure"));
    args.push(quote(path));
    let command = Invocation { program: String::from_str(BIRDC_BIN), args };
    assert(command@.args =~= reconfigure_command(path@).args);
    command
}

} // verus!
