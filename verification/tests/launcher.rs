use fzy_tmux::launcher::{launch_plan, pane_command, Streams};
use fzy_tmux::rendezvous::RendezvousSet;

#[test]
fn pane_command_wires_the_three_pipes() {
    let paths = RendezvousSet::in_directory("/tmp/.tmpq1w2e3");
    assert_eq!(
        pane_command(&paths),
        "fzy --lines 50 $* < '/tmp/.tmpq1w2e3/in' > '/tmp/.tmpq1w2e3/out' 2>&1 \
         && echo 0 > '/tmp/.tmpq1w2e3/ret' || echo 1 > '/tmp/.tmpq1w2e3/ret'"
    );
}

#[test]
fn pane_command_takes_paths_as_given() {
    let paths = RendezvousSet {
        input: String::from("a b"),
        output: String::from("c"),
        status: String::from(""),
    };
    assert_eq!(
        pane_command(&paths),
        "fzy --lines 50 $* < 'a b' > 'c' 2>&1 && echo 0 > '' || echo 1 > ''"
    );
}

#[test]
fn launch_plan_splits_window_in_session() {
    let plan = launch_plan(b"/tmp/tmux-1000/default,22830".to_vec(), String::from("true"));
    assert_eq!(plan.program, "tmux");
    assert_eq!(
        plan.environment,
        vec![(String::from("TMUX"), b"/tmp/tmux-1000/default,22830".to_vec())]
    );
    assert_eq!(plan.streams, Streams::Discarded);
    assert_eq!(
        plan.arguments,
        vec![
            "set-window-option",
            "synchronize-panes",
            "off",
            ";",
            "set-window-option",
            "remain-on-exit",
            "off",
            ";",
            "split-window",
            "true",
        ]
    );
}

#[test]
fn launch_plan_carries_command_last() {
    let paths = RendezvousSet::in_directory("/tmp/d");
    let command = pane_command(&paths);
    let plan = launch_plan(Vec::new(), command);
    assert_eq!(plan.arguments.len(), 10);
    assert_eq!(plan.arguments[8], "split-window");
    assert_eq!(plan.arguments[9], pane_command(&paths));
    assert_eq!(plan.environment, vec![(String::from("TMUX"), Vec::new())]);
}
