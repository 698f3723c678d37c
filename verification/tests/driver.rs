use fzy_tmux::driver::{Action, Event, IoFailure, State, FAILURE_STATUS};
use fzy_tmux::error::DriverError;
use fzy_tmux::launcher::{launch_plan, pane_command};
use fzy_tmux::rendezvous::{Pipe, RendezvousSet, DIRECTORY_MODE, PIPE_MODE};

fn set() -> RendezvousSet {
    RendezvousSet::in_directory("/tmp/.tmpXyZ")
}

/// Runs the driver on `events` and returns the last state with every action asked for.
fn drive(events: Vec<Event>) -> (State, Vec<Action>) {
    let (mut state, first) = State::start();
    let mut actions = vec![first];
    for event in events {
        let (next, action) = state.step(event);
        state = next;
        actions.push(action);
    }
    (state, actions)
}

fn until_status(content: Vec<u8>) -> Vec<Event> {
    vec![
        Event::Environment { value: Some(b"/tmp/tmux-1000/default,22830,9".to_vec()) },
        Event::Directory { path: Some(String::from("/tmp/.tmpXyZ")) },
        Event::PipeCreated { status: 0 },
        Event::PipeCreated { status: 0 },
        Event::PipeCreated { status: 0 },
        Event::Launched { started: true },
        Event::InputOpened { opened: true },
        Event::OutputCopied { outcome: Ok(()) },
        Event::StatusRead { content: Ok(content) },
    ]
}

#[test]
fn start_reads_the_session_variable() {
    let (state, action) = State::start();
    assert_eq!(state, State::Init);
    assert_eq!(action, Action::ReadEnvironment { variable: String::from("TMUX") });
}

#[test]
fn successful_run_asks_for_each_step_in_order() {
    let mut events = until_status(b"0\n".to_vec());
    events.push(Event::DirectoryRemoved);
    let (state, actions) = drive(events);
    assert_eq!(state, State::Terminated { code: 0 });
    let token = b"/tmp/tmux-1000/default,22830".to_vec();
    assert_eq!(
        actions,
        vec![
            Action::ReadEnvironment { variable: String::from("TMUX") },
            Action::CreateDirectory { mode: 0o700 },
            Action::CreatePipe { path: String::from("/tmp/.tmpXyZ/in"), mode: 0o700 },
            Action::CreatePipe { path: String::from("/tmp/.tmpXyZ/out"), mode: 0o700 },
            Action::CreatePipe { path: String::from("/tmp/.tmpXyZ/ret"), mode: 0o700 },
            Action::Launch { plan: launch_plan(token, pane_command(&set())) },
            Action::OpenInput { path: String::from("/tmp/.tmpXyZ/in") },
            Action::CopyOutput { path: String::from("/tmp/.tmpXyZ/out") },
            Action::ReadStatus { path: String::from("/tmp/.tmpXyZ/ret") },
            Action::RemoveDirectory,
            Action::Exit { code: 0 },
        ]
    );
}

#[test]
fn launch_uses_filtered_token_and_pipe_paths() {
    let (_, actions) = drive(until_status(b"0\n".to_vec()));
    match &actions[5] {
        Action::Launch { plan } => {
            assert_eq!(plan.program, "tmux");
            assert_eq!(
                plan.environment,
                vec![(String::from("TMUX"), b"/tmp/tmux-1000/default,22830".to_vec())]
            );
            assert_eq!(
                plan.arguments[9],
                "fzy --lines 50 $* < '/tmp/.tmpXyZ/in' > '/tmp/.tmpXyZ/out' 2>&1 \
                 && echo 0 > '/tmp/.tmpXyZ/ret' || echo 1 > '/tmp/.tmpXyZ/ret'"
            );
        }
        other => panic!("expected a launch, got {:?}", other),
    }
}

#[test]
fn picker_failure_becomes_exit_status_one() {
    let mut events = until_status(b"1\n".to_vec());
    events.push(Event::DirectoryRemoved);
    let (state, actions) = drive(events);
    assert_eq!(state, State::Terminated { code: 1 });
    assert_eq!(actions[actions.len() - 2], Action::RemoveDirectory);
    assert_eq!(actions[actions.len() - 1], Action::Exit { code: 1 });
}

#[test]
fn reported_status_is_propagated_exactly() {
    for (content, code) in [("0", 0), ("1", 1), ("130\n", 130), ("-1\n", -1), ("255 ", 255)] {
        let mut events = until_status(content.as_bytes().to_vec());
        events.push(Event::DirectoryRemoved);
        let (state, actions) = drive(events);
        assert_eq!(state, State::Terminated { code });
        assert_eq!(actions[actions.len() - 1], Action::Exit { code });
    }
}

#[test]
fn malformed_status_value_aborts() {
    for content in ["abc", ""] {
        let (state, actions) = drive(until_status(content.as_bytes().to_vec()));
        assert_eq!(state, State::Aborting { error: DriverError::InvalidExitValue });
        assert_eq!(actions[actions.len() - 1], Action::RemoveDirectory);
        let (state, action) = state.step(Event::DirectoryRemoved);
        assert_eq!(state, State::Terminated { code: FAILURE_STATUS });
        assert_eq!(action, Action::Abort { error: DriverError::InvalidExitValue });
    }
}

#[test]
fn malformed_status_encoding_aborts() {
    let (state, actions) = drive(until_status(vec![0x30, 0xff]));
    assert_eq!(state, State::Aborting { error: DriverError::InvalidExitEncoding });
    assert_eq!(actions[actions.len() - 1], Action::RemoveDirectory);
    let (state, action) = state.step(Event::DirectoryRemoved);
    assert_eq!(state, State::Terminated { code: FAILURE_STATUS });
    assert_eq!(action, Action::Abort { error: DriverError::InvalidExitEncoding });
}

#[test]
fn failure_status_is_generic_and_nonzero() {
    assert_eq!(FAILURE_STATUS, 1);
}

#[test]
fn missing_variable_aborts_at_once() {
    let (state, actions) = drive(vec![Event::Environment { value: None }]);
    assert_eq!(state, State::Terminated { code: FAILURE_STATUS });
    assert_eq!(actions[1], Action::Abort { error: DriverError::MissingEnvironment });
}

#[test]
fn directory_failure_aborts_without_removal() {
    let (state, actions) = drive(vec![
        Event::Environment { value: Some(b"s,1,2".to_vec()) },
        Event::Directory { path: None },
    ]);
    assert_eq!(state, State::Terminated { code: FAILURE_STATUS });
    assert_eq!(actions[2], Action::Abort { error: DriverError::DirectoryCreationFailed });
}

#[test]
fn pipe_failure_names_the_pipe_and_stops() {
    let paths = [
        (0, "/tmp/.tmpXyZ/in"),
        (1, "/tmp/.tmpXyZ/out"),
        (2, "/tmp/.tmpXyZ/ret"),
    ];
    for (created, path) in paths {
        let mut events = vec![
            Event::Environment { value: Some(b"s,1,2".to_vec()) },
            Event::Directory { path: Some(String::from("/tmp/.tmpXyZ")) },
        ];
        for _ in 0..created {
            events.push(Event::PipeCreated { status: 0 });
        }
        events.push(Event::PipeCreated { status: -1 });
        let (state, actions) = drive(events);
        let error = DriverError::PipeCreationFailed { path: String::from(path) };
        assert_eq!(state, State::Aborting { error });
        assert_eq!(actions[actions.len() - 1], Action::RemoveDirectory);
        assert!(!actions.iter().any(|a| matches!(a, Action::Launch { .. })));
        let (state, action) = state.step(Event::DirectoryRemoved);
        assert_eq!(state, State::Terminated { code: FAILURE_STATUS });
        assert_eq!(
            action,
            Action::Abort { error: DriverError::PipeCreationFailed { path: String::from(path) } }
        );
    }
}

#[test]
fn launcher_failure_aborts() {
    let state = State::RendezvousCreated { paths: set() };
    let (state, action) = state.step(Event::Launched { started: false });
    assert_eq!(state, State::Aborting { error: DriverError::LauncherSpawnFailed });
    assert_eq!(action, Action::RemoveDirectory);
}

#[test]
fn input_pipe_open_failure_aborts() {
    let state = State::PaneLaunched { paths: set() };
    let (state, action) = state.step(Event::InputOpened { opened: false });
    let error = DriverError::PipeOpenFailed { path: String::from("/tmp/.tmpXyZ/in") };
    assert_eq!(state, State::Aborting { error });
    assert_eq!(action, Action::RemoveDirectory);
}

#[test]
fn output_failures_abort_before_status_is_read() {
    let state = State::RelayActive { paths: set() };
    let (state, action) = state.step(Event::OutputCopied { outcome: Err(IoFailure::Open) });
    let error = DriverError::PipeOpenFailed { path: String::from("/tmp/.tmpXyZ/out") };
    assert_eq!(state, State::Aborting { error });
    assert_eq!(action, Action::RemoveDirectory);

    let state = State::RelayActive { paths: set() };
    let (state, action) = state.step(Event::OutputCopied { outcome: Err(IoFailure::Transfer) });
    assert_eq!(state, State::Aborting { error: DriverError::RelayReadFailed });
    assert_eq!(action, Action::RemoveDirectory);
}

#[test]
fn status_read_failures_abort() {
    let state = State::AwaitingStatus { paths: set() };
    let (state, _) = state.step(Event::StatusRead { content: Err(IoFailure::Open) });
    let error = DriverError::PipeOpenFailed { path: String::from("/tmp/.tmpXyZ/ret") };
    assert_eq!(state, State::Aborting { error });

    let state = State::AwaitingStatus { paths: set() };
    let (state, action) = state.step(Event::StatusRead { content: Err(IoFailure::Transfer) });
    assert_eq!(state, State::Aborting { error: DriverError::ExitReadFailed });
    assert_eq!(action, Action::RemoveDirectory);
}

#[test]
fn output_needs_no_data_before_status() {
    let state = State::RelayActive { paths: set() };
    let (state, action) = state.step(Event::OutputCopied { outcome: Ok(()) });
    assert_eq!(state, State::AwaitingStatus { paths: set() });
    assert_eq!(action, Action::ReadStatus { path: String::from("/tmp/.tmpXyZ/ret") });
    let (state, _) = state.step(Event::StatusRead { content: Ok(b"1\n".to_vec()) });
    assert_eq!(state, State::ExitCodeReceived { code: 1 });
}

#[test]
fn unexpected_event_without_directory_aborts() {
    let (state, action) = State::Init.step(Event::DirectoryRemoved);
    assert_eq!(state, State::Terminated { code: FAILURE_STATUS });
    assert_eq!(action, Action::Abort { error: DriverError::UnexpectedEvent });

    let state = State::EnvironmentResolved { token: Vec::new() };
    let (state, action) = state.step(Event::PipeCreated { status: 0 });
    assert_eq!(state, State::Terminated { code: FAILURE_STATUS });
    assert_eq!(action, Action::Abort { error: DriverError::UnexpectedEvent });

    let (state, action) = State::ExitCodeReceived { code: 0 }.step(Event::Launched { started: true });
    assert_eq!(state, State::Terminated { code: FAILURE_STATUS });
    assert_eq!(action, Action::Abort { error: DriverError::UnexpectedEvent });
}

#[test]
fn unexpected_event_with_directory_removes_it_first() {
    let states = vec![
        State::CreatingPipes { token: Vec::new(), paths: set(), pending: Pipe::Output },
        State::RendezvousCreated { paths: set() },
        State::PaneLaunched { paths: set() },
        State::RelayActive { paths: set() },
        State::AwaitingStatus { paths: set() },
    ];
    for state in states {
        let (state, action) = state.step(Event::Environment { value: None });
        assert_eq!(state, State::Aborting { error: DriverError::UnexpectedEvent });
        assert_eq!(action, Action::RemoveDirectory);
    }
}

#[test]
fn aborting_ends_on_any_event() {
    let state = State::Aborting { error: DriverError::RelayReadFailed };
    let (state, action) = state.step(Event::Launched { started: true });
    assert_eq!(state, State::Terminated { code: FAILURE_STATUS });
    assert_eq!(action, Action::Abort { error: DriverError::RelayReadFailed });
}

#[test]
fn terminated_is_final() {
    let state = State::Terminated { code: 7 };
    let (state, action) = state.step(Event::DirectoryRemoved);
    assert_eq!(state, State::Terminated { code: 7 });
    assert_eq!(action, Action::Exit { code: 7 });
    let (state, action) = state.step(Event::Environment { value: None });
    assert_eq!(state, State::Terminated { code: 7 });
    assert_eq!(action, Action::Exit { code: 7 });
}

#[test]
fn every_run_ends_within_ten_events() {
    let (state, actions) = drive(vec![
        Event::Environment { value: Some(Vec::new()) },
        Event::Directory { path: Some(String::new()) },
        Event::PipeCreated { status: 0 },
        Event::PipeCreated { status: 0 },
        Event::PipeCreated { status: 0 },
        Event::Launched { started: true },
        Event::InputOpened { opened: true },
        Event::OutputCopied { outcome: Ok(()) },
        Event::StatusRead { content: Ok(b"3".to_vec()) },
        Event::DirectoryRemoved,
    ]);
    assert_eq!(state, State::Terminated { code: 3 });
    assert_eq!(actions.len(), 11);
    for _ in 0..10 {
        let (state, _) = drive(vec![
            Event::DirectoryRemoved,
            Event::DirectoryRemoved,
            Event::DirectoryRemoved,
            Event::DirectoryRemoved,
            Event::DirectoryRemoved,
            Event::DirectoryRemoved,
            Event::DirectoryRemoved,
            Event::DirectoryRemoved,
            Event::DirectoryRemoved,
            Event::DirectoryRemoved,
        ]);
        assert!(matches!(state, State::Terminated { .. }));
    }
}

#[test]
fn directory_request_carries_owner_only_mode() {
    let (state, action) = State::Init.step(Event::Environment { value: Some(b"a,b,c".to_vec()) });
    assert_eq!(state, State::EnvironmentResolved { token: b"a,b".to_vec() });
    assert_eq!(action, Action::CreateDirectory { mode: DIRECTORY_MODE });
}

#[test]
fn pipe_creation_requests_carry_owner_only_mode() {
    let state = State::EnvironmentResolved { token: b"t".to_vec() };
    let (state, action) = state.step(Event::Directory { path: Some(String::from("/d")) });
    assert_eq!(action, Action::CreatePipe { path: String::from("/d/in"), mode: PIPE_MODE });
    let expected = State::CreatingPipes {
        token: b"t".to_vec(),
        paths: RendezvousSet::in_directory("/d"),
        pending: Pipe::Input,
    };
    assert_eq!(state, expected);
}
