//! The pane launcher: the shell command that runs in the new pane, and the
//! invocation of the multiplexer that opens the pane.

use vstd::prelude::*;
use vstd::string::StringExecFns;
use crate::rendezvous::{RendezvousSet, RendezvousView};

verus! {

/// The shell command that runs the picker in the pane, for the pipes `paths`.
///
/// The picker shows 50 lines and gets the positional parameters of the shell
/// that runs the command. It reads from the input pipe and writes output and
/// errors to the output pipe. When it has ended, `0` is written to the status
/// pipe if it succeeded and `1` if it did not. Each path stands between single
/// quotes.
pub open spec fn pane_command_text(paths: RendezvousView) -> Seq<char> {
    "fzy --lines 50 $* < '"@ + paths.input + "' > '"@ + paths.output
        + "' 2>&1 && echo 0 > '"@ + paths.status + "' || echo 1 > '"@ + paths.status + "'"@
}

/// Builds the shell command that runs the picker in the pane.
pub fn pane_command(paths: &RendezvousSet) -> (command: String)
    ensures
        command@ == pane_command_text(paths@),
{
    let mut command = String::from_str("fzy --lines 50 $* < '");
    command.append(paths.input.as_str());
    command.append("' > '");
    command.append(paths.output.as_str());
    command.append("' 2>&1 && echo 0 > '");
    command.append(paths.status.as_str());
    command.append("' || echo 1 > '");
    command.append(paths.status.as_str());
    command.append("'");
    command
}

/// What becomes of the standard streams of a process that is started.
#[derive(Debug, Clone, Copy, PartialEq, Eq, Structural)]
pub enum Streams {
    /// The process reads nothing, and what it writes is discarded.
    Discarded,
    /// The process shares the streams of the process that starts it.
    Inherited,
}

/// One invocation of the multiplexer: the program, its whole environment, its
/// standard streams and its arguments.
#[derive(Debug, PartialEq, Eq)]
pub struct LaunchPlan {
    /// Name of the program to start.
    pub program: String,
    /// Every variable of the environment, by name and value. The process gets no other.
    pub environment: Vec<(String, Vec<u8>)>,
    /// What becomes of the three standard streams.
    pub streams: Streams,
    /// Arguments, in order.
    pub arguments: Vec<String>,
}

/// The mathematical content of a [`LaunchPlan`].
pub struct PlanView {
    pub program: Seq<char>,
    pub environment: Seq<(Seq<char>, Seq<u8>)>,
    pub streams: Streams,
    pub arguments: Seq<Seq<char>>,
}

impl View for LaunchPlan {
    type V = PlanView;

    open spec fn view(&self) -> PlanView {
        PlanView {
            program: self.program@,
            environment: Seq::new(
                self.environment@.len(),
                |i: int| (self.environment@[i].0@, self.environment@[i].1@),
            ),
            streams: self.streams,
            arguments: self.arguments.deep_view(),
        }
    }
}

/// The invocation that opens a pane running `command` in the session `token`.
///
/// The environment holds the session variable and nothing else. The streams are
/// discarded: the driver's own belong to the relay. Two window options are
/// switched off first: `synchronize-panes`, so that input meant for the picker
/// does not reach other panes, and `remain-on-exit`, so that the pane closes
/// when the command has ended. Then the window is split.
pub open spec fn launch_plan_of(token: Seq<u8>, command: Seq<char>) -> PlanView {
    PlanView {
        program: "tmux"@,
        environment: seq![("TMUX"@, token)],
        streams: Streams::Discarded,
        arguments: seq![
            "set-window-option"@,
            "synchronize-panes"@,
            "off"@,
            ";"@,
            "set-window-option"@,
            "remain-on-exit"@,
            "off"@,
            ";"@,
            "split-window"@,
            command,
        ],
    }
}

/// Plans the invocation that opens a pane running `command` in the session `token`.
pub fn launch_plan(token: Vec<u8>, command: String) -> (plan: LaunchPlan)
    ensures
        plan@ == launch_plan_of(token@, command@),
{
    let ghost expected = launch_plan_of(token@, command@);
    let mut environment: Vec<(String, Vec<u8>)> = Vec::new();
    environment.push((String::from_str("TMUX"), token));
    let mut arguments: Vec<String> = Vec::new();
    arguments.push(String::from_str("set-window-option"));
    arguments.push(String::from_str("synchronize-panes"));
    arguments.push(String::from_str("off"));
    arguments.push(String::from_str(";"));
    arguments.push(String::from_str("set-window-option"));
    arguments.push(String::from_str("remain-on-exit"));
    arguments.push(String::from_str("off"));
    arguments.push(String::from_str(";"));
    arguments.push(String::from_str("split-window"));
    arguments.push(command);
    let plan = LaunchPlan {
        program: String::from_str("tmux"),
        environment,
        streams: Streams::Discarded,
        arguments,
    };
    assert(plan@.environment =~= expected.environment);
    assert(plan@.arguments =~= expected.arguments);
    plan
}

} // verus!
