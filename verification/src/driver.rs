//! The life of the driver as a state machine.
//!
//! The driver alternates between work on the outside (reading the environment,
//! creating pipes, starting the multiplexer, moving bytes) and decisions. The
//! decisions are made here: [`State::step`] takes the outcome of the last piece
//! of outside work and answers with the next piece to do. The caller does the
//! work and comes back with its outcome, until it is told to leave.

use vstd::prelude::*;
use vstd::string::StringExecFns;
use crate::error::{DriverError, ErrorView};
use crate::exit_status::{decode_exit_status, exit_status};
use crate::launcher::{
    launch_plan, launch_plan_of, pane_command, pane_command_text, LaunchPlan, PlanView,
};
use crate::rendezvous::{
    pipe_outcome, pipe_outcome_of, Pipe, RendezvousSet, RendezvousView, DIRECTORY_MODE, PIPE_MODE,
};
use crate::session::{filtered, session_token};

verus! {

/// The exit status of a driver that ends on a failure of its own.
pub const FAILURE_STATUS: i32 = 1;

/// How moving bytes through a pipe failed.
#[derive(Debug, Clone, Copy, PartialEq, Eq, Structural)]
pub enum IoFailure {
    /// The pipe could not be opened.
    Open,
    /// The pipe was opened, and reading from it failed.
    Transfer,
}

/// The outcome of a piece of outside work.
#[derive(Debug, PartialEq, Eq)]
pub enum Event {
    /// The session variable was read; `None` when it is not set.
    Environment { value: Option<Vec<u8>> },
    /// A private directory was asked for; its path, or `None` when there is none.
    Directory { path: Option<String> },
    /// The system was asked to create a pipe and reported `status`.
    PipeCreated { status: i32 },
    /// The multiplexer was started, or could not be.
    Launched { started: bool },
    /// The input pipe was opened and input is being forwarded, or it could not be opened.
    InputOpened { opened: bool },
    /// The output pipe was copied to its end, or how that failed.
    OutputCopied { outcome: Result<(), IoFailure> },
    /// The content of the status pipe, or how reading it failed.
    StatusRead { content: Result<Vec<u8>, IoFailure> },
    /// The private directory and the pipes in it are gone.
    DirectoryRemoved,
}

/// The mathematical content of an [`Event`].
pub enum EventView {
    Environment { value: Option<Seq<u8>> },
    Directory { path: Option<Seq<char>> },
    PipeCreated { status: int },
    Launched { started: bool },
    InputOpened { opened: bool },
    OutputCopied { outcome: Result<(), IoFailure> },
    StatusRead { content: Result<Seq<u8>, IoFailure> },
    DirectoryRemoved,
}

impl View for Event {
    type V = EventView;

    open spec fn view(&self) -> EventView {
        match self {
            Event::Environment { value: Some(raw) } => EventView::Environment { value: Some(raw@) },
            Event::Environment { value: None } => EventView::Environment { value: None },
            Event::Directory { path: Some(directory) } => EventView::Directory {
                path: Some(directory@),
            },
            Event::Directory { path: None } => EventView::Directory { path: None },
            Event::PipeCreated { status } => EventView::PipeCreated { status: *status as int },
            Event::Launched { started } => EventView::Launched { started: *started },
            Event::InputOpened { opened } => EventView::InputOpened { opened: *opened },
            Event::OutputCopied { outcome } => EventView::OutputCopied { outcome: *outcome },
            Event::StatusRead { content: Ok(bytes) } => EventView::StatusRead {
                content: Ok(bytes@),
            },
            Event::StatusRead { content: Err(failure) } => EventView::StatusRead {
                content: Err(*failure),
            },
            Event::DirectoryRemoved => EventView::DirectoryRemoved,
        }
    }
}

/// A piece of outside work that the driver asks for.
#[derive(Debug, PartialEq, Eq)]
pub enum Action {
    /// Read the environment variable `variable`.
    ReadEnvironment { variable: String },
    /// Create a fresh directory with the permissions `mode`, under a name that
    /// no other run uses.
    CreateDirectory { mode: u32 },
    /// Create a named pipe at `path` with the permissions `mode`.
    CreatePipe { path: String, mode: u32 },
    /// Start the multiplexer as `plan` says.
    Launch { plan: LaunchPlan },
    /// Open the pipe at `path` for writing, which waits for the picker to read
    /// from it, and forward the driver's input to it in the background. A failure
    /// of the forwarding is a [`DriverError::RelayWriteFailed`]: it is reported
    /// and does not end the run.
    OpenInput { path: String },
    /// Open the pipe at `path` for reading and copy it to the driver's output
    /// until the picker closes it.
    CopyOutput { path: String },
    /// Open the pipe at `path` for reading and read it to its end.
    ReadStatus { path: String },
    /// Remove the private directory and the pipes in it.
    RemoveDirectory,
    /// Leave with the exit status `code`.
    Exit { code: i32 },
    /// Report `error` and leave with [`FAILURE_STATUS`].
    Abort { error: DriverError },
}

/// The mathematical content of an [`Action`].
pub enum ActionView {
    ReadEnvironment { variable: Seq<char> },
    CreateDirectory { mode: int },
    CreatePipe { path: Seq<char>, mode: int },
    Launch { plan: PlanView },
    OpenInput { path: Seq<char> },
    CopyOutput { path: Seq<char> },
    ReadStatus { path: Seq<char> },
    RemoveDirectory,
    Exit { code: int },
    Abort { error: ErrorView },
}

impl View for Action {
    type V = ActionView;

    open spec fn view(&self) -> ActionView {
        match self {
            Action::ReadEnvironment { variable } => ActionView::ReadEnvironment {
                variable: variable@,
            },
            Action::CreateDirectory { mode } => ActionView::CreateDirectory {
                mode: *mode as int,
            },
            Action::CreatePipe { path, mode } => ActionView::CreatePipe {
                path: path@,
                mode: *mode as int,
            },
            Action::Launch { plan } => ActionView::Launch { plan: plan@ },
            Action::OpenInput { path } => ActionView::OpenInput { path: path@ },
            Action::CopyOutput { path } => ActionView::CopyOutput { path: path@ },
            Action::ReadStatus { path } => ActionView::ReadStatus { path: path@ },
            Action::RemoveDirectory => ActionView::RemoveDirectory,
            Action::Exit { code } => ActionView::Exit { code: *code as int },
            Action::Abort { error } => ActionView::Abort { error: error@ },
        }
    }
}

/// Where the driver stands: what it has achieved, and whose outcome it waits for.
#[derive(Debug, PartialEq, Eq)]
pub enum State {
    /// Nothing is known yet. Waits for the session variable.
    Init,
    /// The session token is known. Waits for the private directory.
    EnvironmentResolved { token: Vec<u8> },
    /// The directory exists and holds the pipes before `pending`. Waits for `pending`.
    CreatingPipes { token: Vec<u8>, paths: RendezvousSet, pending: Pipe },
    /// All three pipes exist. Waits for the multiplexer to start.
    RendezvousCreated { paths: RendezvousSet },
    /// The pane is open. Waits for the picker to take its input.
    PaneLaunched { paths: RendezvousSet },
    /// Input is forwarded in the background. Waits for the end of the output.
    RelayActive { paths: RendezvousSet },
    /// The output has ended. Waits for the exit status.
    AwaitingStatus { paths: RendezvousSet },
    /// The picker's exit status is known. Waits for the directory to be removed.
    ExitCodeReceived { code: i32 },
    /// The run has failed. Waits for the directory to be removed.
    Aborting { error: DriverError },
    /// The driver has ended with the exit status `code`.
    Terminated { code: i32 },
}

/// The mathematical content of a [`State`].
pub enum StateView {
    Init,
    EnvironmentResolved { token: Seq<u8> },
    CreatingPipes { token: Seq<u8>, paths: RendezvousView, pending: Pipe },
    RendezvousCreated { paths: RendezvousView },
    PaneLaunched { paths: RendezvousView },
    RelayActive { paths: RendezvousView },
    AwaitingStatus { paths: RendezvousView },
    ExitCodeReceived { code: int },
    Aborting { error: ErrorView },
    Terminated { code: int },
}

impl View for State {
    type V = StateView;

    open spec fn view(&self) -> StateView {
        match self {
            State::Init => StateView::Init,
            State::EnvironmentResolved { token } => StateView::EnvironmentResolved {
                token: token@,
            },
            State::CreatingPipes { token, paths, pending } => StateView::CreatingPipes {
                token: token@,
                paths: paths@,
                pending: *pending,
            },
            State::RendezvousCreated { paths } => StateView::RendezvousCreated { paths: paths@ },
            State::PaneLaunched { paths } => StateView::PaneLaunched { paths: paths@ },
            State::RelayActive { paths } => StateView::RelayActive { paths: paths@ },
            State::AwaitingStatus { paths } => StateView::AwaitingStatus { paths: paths@ },
            State::ExitCodeReceived { code } => StateView::ExitCodeReceived { code: *code as int },
            State::Aborting { error } => StateView::Aborting { error: error@ },
            State::Terminated { code } => StateView::Terminated { code: *code as int },
        }
    }
}

/// A failure while no directory exists: the driver reports it and leaves.
pub open spec fn abort_of(error: ErrorView) -> (StateView, ActionView) {
    (StateView::Terminated { code: FAILURE_STATUS as int }, ActionView::Abort { error })
}

/// A failure while the directory exists: the directory is removed first.
pub open spec fn fail_of(error: ErrorView) -> (StateView, ActionView) {
    (StateView::Aborting { error }, ActionView::RemoveDirectory)
}

/// The state that follows `state` on `event`, and the work that the driver asks for.
pub open spec fn transition(state: StateView, event: EventView) -> (StateView, ActionView) {
    match state {
        StateView::Init => match event {
            EventView::Environment { value: Some(raw) } => (
                StateView::EnvironmentResolved { token: filtered(raw) },
                ActionView::CreateDirectory { mode: DIRECTORY_MODE as int },
            ),
            EventView::Environment { value: None } => abort_of(ErrorView::MissingEnvironment),
            _ => abort_of(ErrorView::UnexpectedEvent),
        },
        StateView::EnvironmentResolved { token } => match event {
            EventView::Directory { path: Some(directory) } => {
                let paths = RendezvousView::in_directory(directory);
                (
                    StateView::CreatingPipes { token, paths, pending: Pipe::Input },
                    ActionView::CreatePipe { path: paths.input, mode: PIPE_MODE as int },
                )
            },
            EventView::Directory { path: None } => abort_of(ErrorView::DirectoryCreationFailed),
            _ => abort_of(ErrorView::UnexpectedEvent),
        },
        StateView::CreatingPipes { token, paths, pending } => match event {
            EventView::PipeCreated { status } => match pipe_outcome_of(
                status,
                paths.path(pending),
            ) {
                Err(error) => fail_of(error),
                Ok(()) => match pending.successor() {
                    Some(next) => (
                        StateView::CreatingPipes { token, paths, pending: next },
                        ActionView::CreatePipe { path: paths.path(next), mode: PIPE_MODE as int },
                    ),
                    None => (
                        StateView::RendezvousCreated { paths },
                        ActionView::Launch {
                            plan: launch_plan_of(token, pane_command_text(paths)),
                        },
                    ),
                },
            },
            _ => fail_of(ErrorView::UnexpectedEvent),
        },
        StateView::RendezvousCreated { paths } => match event {
            EventView::Launched { started: true } => (
                StateView::PaneLaunched { paths },
                ActionView::OpenInput { path: paths.input },
            ),
            EventView::Launched { started: false } => fail_of(ErrorView::LauncherSpawnFailed),
            _ => fail_of(ErrorView::UnexpectedEvent),
        },
        StateView::PaneLaunched { paths } => match event {
            EventView::InputOpened { opened: true } => (
                StateView::RelayActive { paths },
                ActionView::CopyOutput { path: paths.output },
            ),
            EventView::InputOpened { opened: false } => fail_of(
                ErrorView::PipeOpenFailed { path: paths.input },
            ),
            _ => fail_of(ErrorView::UnexpectedEvent),
        },
        StateView::RelayActive { paths } => match event {
            EventView::OutputCopied { outcome: Ok(()) } => (
                StateView::AwaitingStatus { paths },
                ActionView::ReadStatus { path: paths.status },
            ),
            EventView::OutputCopied { outcome: Err(IoFailure::Open) } => fail_of(
                ErrorView::PipeOpenFailed { path: paths.output },
            ),
            EventView::OutputCopied { outcome: Err(IoFailure::Transfer) } => fail_of(
                ErrorView::RelayReadFailed,
            ),
            _ => fail_of(ErrorView::UnexpectedEvent),
        },
        StateView::AwaitingStatus { paths } => match event {
            EventView::StatusRead { content: Ok(bytes) } => match exit_status(bytes) {
                Ok(code) => (StateView::ExitCodeReceived { code }, ActionView::RemoveDirectory),
                Err(error) => fail_of(error),
            },
            EventView::StatusRead { content: Err(IoFailure::Open) } => fail_of(
                ErrorView::PipeOpenFailed { path: paths.status },
            ),
            EventView::StatusRead { content: Err(IoFailure::Transfer) } => fail_of(
                ErrorView::ExitReadFailed,
            ),
            _ => fail_of(ErrorView::UnexpectedEvent),
        },
        StateView::ExitCodeReceived { code } => match event {
            EventView::DirectoryRemoved => (
                StateView::Terminated { code },
                ActionView::Exit { code },
            ),
            _ => abort_of(ErrorView::UnexpectedEvent),
        },
        StateView::Aborting { error } => abort_of(error),
        StateView::Terminated { code } => (StateView::Terminated { code }, ActionView::Exit { code }),
    }
}

/// How far a run has come. Every state but the last is left for one that lies further on.
pub open spec fn rank(state: StateView) -> nat {
    match state {
        StateView::Init => 0,
        StateView::EnvironmentResolved { .. } => 1,
        StateView::CreatingPipes { pending: Pipe::Input, .. } => 2,
        StateView::CreatingPipes { pending: Pipe::Output, .. } => 3,
        StateView::CreatingPipes { pending: Pipe::Status, .. } => 4,
        StateView::RendezvousCreated { .. } => 5,
        StateView::PaneLaunched { .. } => 6,
        StateView::RelayActive { .. } => 7,
        StateView::AwaitingStatus { .. } => 8,
        StateView::ExitCodeReceived { .. } => 9,
        StateView::Aborting { .. } => 9,
        StateView::Terminated { .. } => 10,
    }
}

/// Whether the private directory exists in `state`.
pub open spec fn holds_directory(state: StateView) -> bool {
    2 <= rank(state) <= 8
}

/// The state that a run reaches from `state` on the outcomes `events`.
pub open spec fn run(state: StateView, events: Seq<EventView>) -> StateView
    decreases events.len(),
{
    if events.len() == 0 {
        state
    } else {
        run(transition(state, events[0]).0, events.drop_first())
    }
}

/// What the driver asks for, step by step, on a run from `state` on the outcomes `events`.
pub open spec fn requests(state: StateView, events: Seq<EventView>) -> Seq<ActionView>
    decreases events.len(),
{
    if events.len() == 0 {
        Seq::empty()
    } else {
        seq![transition(state, events[0]).1] + requests(
            transition(state, events[0]).0,
            events.drop_first(),
        )
    }
}

/// No step is taken twice and none leads back: whatever the outcome, a driver
/// that has not ended moves on to a state that lies further on.
pub proof fn lemma_step_advances(state: StateView, event: EventView)
    requires
        !(state is Terminated),
    ensures
        rank(state) < rank(transition(state, event).0) <= 10,
{
}

/// A driver that has ended stays so, and keeps asking to leave with its status.
pub proof fn lemma_terminated_is_final(code: int, event: EventView)
    ensures
        transition(StateView::Terminated { code }, event) == (
            StateView::Terminated { code },
            ActionView::Exit { code },
        ),
{
}

/// Every run ends: from `state`, after as many outcomes as its rank is short of
/// ten, whatever they are, the driver has ended.
pub proof fn lemma_run_terminates(state: StateView, events: Seq<EventView>)
    requires
        events.len() + rank(state) >= 10,
    ensures
        run(state, events) is Terminated,
    decreases events.len(),
{
    if events.len() > 0 {
        let next = transition(state, events[0]).0;
        if !(state is Terminated) {
            lemma_step_advances(state, events[0]);
        }
        lemma_run_terminates(next, events.drop_first());
    }
}

/// The driver leaves only when the private directory is gone: while the
/// directory exists no step ends the run or asks to leave, and the step that
/// gives the directory up asks for its removal.
pub proof fn lemma_directory_removed_before_end(state: StateView, event: EventView)
    requires
        holds_directory(state),
    ensures
        ({
            let (next, action) = transition(state, event);
            &&& !(next is Terminated)
            &&& !(action is Exit)
            &&& !(action is Abort)
            &&& holds_directory(next) || action is RemoveDirectory
        }),
{
}

/// The driver leaves as its last state says: it is asked to leave with a status
/// only on the step that ends the run with that status, and a failure is
/// reported only on a step that ends the run with the status of failure.
pub proof fn lemma_leaves_with_final_status(state: StateView, event: EventView)
    ensures
        ({
            let (next, action) = transition(state, event);
            &&& action matches ActionView::Exit { code } ==> next == (StateView::Terminated {
                code,
            })
            &&& action is Abort ==> next == (StateView::Terminated {
                code: FAILURE_STATUS as int,
            })
            &&& next is Terminated ==> action is Exit || action is Abort
        }),
{
}

/// The multiplexer is started only once all three pipes exist, in the session of
/// the filtered token and with the command for exactly those pipes.
pub proof fn lemma_launch_follows_pipes(state: StateView, event: EventView)
    requires
        transition(state, event).1 is Launch,
    ensures
        state matches StateView::CreatingPipes { token, paths, pending: Pipe::Status }
            && event == (EventView::PipeCreated { status: 0 }) && transition(state, event).1 == (
            ActionView::Launch { plan: launch_plan_of(token, pane_command_text(paths)) }
        ),
{
}

/// The picker's exit status becomes the driver's: once the output has ended,
/// a well-formed report of `code` leads, by way of removing the directory, to
/// leaving with `code`.
pub proof fn lemma_exit_status_propagates(paths: RendezvousView, content: Seq<u8>, code: int)
    requires
        exit_status(content) == Ok::<int, ErrorView>(code),
    ensures
        run(
            StateView::AwaitingStatus { paths },
            seq![EventView::StatusRead { content: Ok(content) }, EventView::DirectoryRemoved],
        ) == (StateView::Terminated { code }),
        transition(
            StateView::AwaitingStatus { paths },
            EventView::StatusRead { content: Ok(content) },
        ) == (StateView::ExitCodeReceived { code }, ActionView::RemoveDirectory),
        transition(StateView::ExitCodeReceived { code }, EventView::DirectoryRemoved).1 == (
            ActionView::Exit { code }
        ),
{
    let events = seq![EventView::StatusRead { content: Ok(content) }, EventView::DirectoryRemoved];
    assert(events.drop_first() =~= seq![EventView::DirectoryRemoved]);
    assert(events.drop_first().drop_first() =~= Seq::<EventView>::empty());
    reveal_with_fuel(run, 3);
}

/// A malformed report ends the run in failure: content that does not decode is
/// answered by removing the directory, and then by reporting why it does not
/// decode and leaving with the status of failure.
pub proof fn lemma_malformed_status_aborts(paths: RendezvousView, content: Seq<u8>, event: EventView)
    requires
        exit_status(content) is Err,
    ensures
        ({
            let error = exit_status(content)->Err_0;
            let (failing, removal) = transition(
                StateView::AwaitingStatus { paths },
                EventView::StatusRead { content: Ok(content) },
            );
            &&& error == ErrorView::InvalidExitEncoding || error == ErrorView::InvalidExitValue
            &&& failing == (StateView::Aborting { error })
            &&& removal == ActionView::RemoveDirectory
            &&& transition(failing, event) == (
                StateView::Terminated { code: FAILURE_STATUS as int },
                ActionView::Abort { error },
            )
        }),
{
}

/// The outcomes of a run in which nothing fails, for the value `raw` of the
/// session variable, the private directory `directory` and the content
/// `content` of the status pipe.
pub open spec fn smooth_events(raw: Seq<u8>, directory: Seq<char>, content: Seq<u8>) -> Seq<
    EventView,
> {
    seq![
        EventView::Environment { value: Some(raw) },
        EventView::Directory { path: Some(directory) },
        EventView::PipeCreated { status: 0 },
        EventView::PipeCreated { status: 0 },
        EventView::PipeCreated { status: 0 },
        EventView::Launched { started: true },
        EventView::InputOpened { opened: true },
        EventView::OutputCopied { outcome: Ok(()) },
        EventView::StatusRead { content: Ok(content) },
        EventView::DirectoryRemoved,
    ]
}

/// What the driver asks for, step by step, in a run in which nothing fails and
/// the picker reports `code`.
pub open spec fn smooth_requests(raw: Seq<u8>, directory: Seq<char>, code: int) -> Seq<
    ActionView,
> {
    let paths = RendezvousView::in_directory(directory);
    seq![
        ActionView::CreateDirectory { mode: DIRECTORY_MODE as int },
        ActionView::CreatePipe { path: paths.input, mode: PIPE_MODE as int },
        ActionView::CreatePipe { path: paths.output, mode: PIPE_MODE as int },
        ActionView::CreatePipe { path: paths.status, mode: PIPE_MODE as int },
        ActionView::Launch { plan: launch_plan_of(filtered(raw), pane_command_text(paths)) },
        ActionView::OpenInput { path: paths.input },
        ActionView::CopyOutput { path: paths.output },
        ActionView::ReadStatus { path: paths.status },
        ActionView::RemoveDirectory,
        ActionView::Exit { code },
    ]
}

/// A run in which nothing fails: the token is resolved, the directory and the
/// three pipes are created, the pane is launched in the session of the filtered
/// token, the relay runs to the end of the output, the directory is removed, and
/// the driver ends with the status that the picker reported.
pub proof fn lemma_smooth_run(raw: Seq<u8>, directory: Seq<char>, content: Seq<u8>, code: int)
    requires
        exit_status(content) == Ok::<int, ErrorView>(code),
    ensures
        run(StateView::Init, smooth_events(raw, directory, content)) == (StateView::Terminated {
            code,
        }),
        requests(StateView::Init, smooth_events(raw, directory, content)) == smooth_requests(
            raw,
            directory,
            code,
        ),
{
    let paths = RendezvousView::in_directory(directory);
    let token = filtered(raw);
    let done = StateView::Terminated { code };
    let want = smooth_requests(raw, directory, code);
    let e0 = smooth_events(raw, directory, content);
    let e1 = e0.drop_first();
    let e2 = e1.drop_first();
    let e3 = e2.drop_first();
    let e4 = e3.drop_first();
    let e5 = e4.drop_first();
    let e6 = e5.drop_first();
    let e7 = e6.drop_first();
    let e8 = e7.drop_first();
    let e9 = e8.drop_first();
    let e10 = e9.drop_first();
    let s1 = StateView::EnvironmentResolved { token };
    let s2 = StateView::CreatingPipes { token, paths, pending: Pipe::Input };
    let s3 = StateView::CreatingPipes { token, paths, pending: Pipe::Output };
    let s4 = StateView::CreatingPipes { token, paths, pending: Pipe::Status };
    let s5 = StateView::RendezvousCreated { paths };
    let s6 = StateView::PaneLaunched { paths };
    let s7 = StateView::RelayActive { paths };
    let s8 = StateView::AwaitingStatus { paths };
    let s9 = StateView::ExitCodeReceived { code };
    assert(e10.len() == 0);
    assert(run(done, e10) == done && requests(done, e10) =~= want.skip(10));
    assert(run(s9, e9) == done && requests(s9, e9) =~= want.skip(9));
    assert(run(s8, e8) == done && requests(s8, e8) =~= want.skip(8));
    assert(run(s7, e7) == done && requests(s7, e7) =~= want.skip(7));
    assert(run(s6, e6) == done && requests(s6, e6) =~= want.skip(6));
    assert(run(s5, e5) == done && requests(s5, e5) =~= want.skip(5));
    assert(run(s4, e4) == done && requests(s4, e4) =~= want.skip(4));
    assert(run(s3, e3) == done && requests(s3, e3) =~= want.skip(3));
    assert(run(s2, e2) == done && requests(s2, e2) =~= want.skip(2));
    assert(run(s1, e1) == done && requests(s1, e1) =~= want.skip(1));
    assert(run(StateView::Init, e0) == done && requests(StateView::Init, e0) =~= want.skip(0));
    assert(want.skip(0) =~= want);
}

/// Ends the run on a failure while no directory exists.
fn abort(error: DriverError) -> (next: (State, Action))
    ensures
        (next.0@, next.1@) == abort_of(error@),
{
    (State::Terminated { code: FAILURE_STATUS }, Action::Abort { error })
}

/// Ends the run on a failure while the directory exists.
fn fail(error: DriverError) -> (next: (State, Action))
    ensures
        (next.0@, next.1@) == fail_of(error@),
{
    (State::Aborting { error }, Action::RemoveDirectory)
}

impl State {
    /// The state in which every run begins, and the first piece of work:
    /// reading the session variable.
    pub fn start() -> (first: (State, Action))
        ensures
            first.0@ == StateView::Init,
            first.1@ == (ActionView::ReadEnvironment { variable: "TMUX"@ }),
    {
        (State::Init, Action::ReadEnvironment { variable: String::from_str("TMUX") })
    }

    /// Takes the outcome of the work that was asked for last, and answers with
    /// the state that follows and the work to do next.
    ///
    /// An outcome that the state does not wait for is a failure like any other:
    /// the run ends with [`DriverError::UnexpectedEvent`]. A driver that is
    /// already failing ends with the failure it has, whatever it is told, and a
    /// driver that has ended stays as it is.
    pub fn step(self, event: Event) -> (next: (State, Action))
        ensures
            (next.0@, next.1@) == transition(self@, event@),
    {
        match self {
            State::Init => match event {
                Event::Environment { value } => match session_token(value) {
                    Ok(token) => (
                        State::EnvironmentResolved { token },
                        Action::CreateDirectory { mode: DIRECTORY_MODE },
                    ),
                    Err(error) => abort(error),
                },
                _ => abort(DriverError::UnexpectedEvent),
            },
            State::EnvironmentResolved { token } => match event {
                Event::Directory { path: Some(directory) } => {
                    let paths = RendezvousSet::in_directory(directory.as_str());
                    let path = paths.input.clone();
                    (
                        State::CreatingPipes { token, paths, pending: Pipe::Input },
                        Action::CreatePipe { path, mode: PIPE_MODE },
                    )
                },
                Event::Directory { path: None } => abort(DriverError::DirectoryCreationFailed),
                _ => abort(DriverError::UnexpectedEvent),
            },
            State::CreatingPipes { token, paths, pending } => match event {
                Event::PipeCreated { status } => match pipe_outcome(
                    status,
                    paths.path(pending).as_str(),
                ) {
                    Err(error) => fail(error),
                    Ok(()) => match pending.next() {
                        Some(next) => {
                            let path = paths.path(next).clone();
                            (
                                State::CreatingPipes { token, paths, pending: next },
                                Action::CreatePipe { path, mode: PIPE_MODE },
                            )
                        },
                        None => {
                            let plan = launch_plan(token, pane_command(&paths));
                            (State::RendezvousCreated { paths }, Action::Launch { plan })
                        },
                    },
                },
                _ => fail(DriverError::UnexpectedEvent),
            },
            State::RendezvousCreated { paths } => match event {
                Event::Launched { started: true } => {
                    let path = paths.input.clone();
                    (State::PaneLaunched { paths }, Action::OpenInput { path })
                },
                Event::Launched { started: false } => fail(DriverError::LauncherSpawnFailed),
                _ => fail(DriverError::UnexpectedEvent),
            },
            State::PaneLaunched { paths } => match event {
                Event::InputOpened { opened: true } => {
                    let path = paths.output.clone();
                    (State::RelayActive { paths }, Action::CopyOutput { path })
                },
                Event::InputOpened { opened: false } => fail(
                    DriverError::PipeOpenFailed { path: paths.input },
                ),
                _ => fail(DriverError::UnexpectedEvent),
            },
            State::RelayActive { paths } => match event {
                Event::OutputCopied { outcome: Ok(()) } => {
                    let path = paths.status.clone();
                    (State::AwaitingStatus { paths }, Action::ReadStatus { path })
                },
                Event::OutputCopied { outcome: Err(IoFailure::Open) } => fail(
                    DriverError::PipeOpenFailed { path: paths.output },
                ),
                Event::OutputCopied { outcome: Err(IoFailure::Transfer) } => fail(
                    DriverError::RelayReadFailed,
                ),
                _ => fail(DriverError::UnexpectedEvent),
            },
            State::AwaitingStatus { paths } => match event {
                Event::StatusRead { content: Ok(bytes) } => match decode_exit_status(
                    bytes.as_slice(),
                ) {
                    Ok(code) => (State::ExitCodeReceived { code }, Action::RemoveDirectory),
                    Err(error) => fail(error),
                },
                Event::StatusRead { content: Err(IoFailure::Open) } => fail(
                    DriverError::PipeOpenFailed { path: paths.status },
                ),
                Event::StatusRead { content: Err(IoFailure::Transfer) } => fail(
                    DriverError::ExitReadFailed,
                ),
                _ => fail(DriverError::UnexpectedEvent),
            },
            State::ExitCodeReceived { code } => match event {
                Event::DirectoryRemoved => (State::Terminated { code }, Action::Exit { code }),
                _ => abort(DriverError::UnexpectedEvent),
            },
            State::Aborting { error } => abort(error),
            State::Terminated { code } => (State::Terminated { code }, Action::Exit { code }),
        }
    }
}

} // verus!
