use std::path::PathBuf;

use conveyorbelt::app::{
    App, BrowserCommand, BrowserEvent, BuildCommand, BuildEvent, Command, Event, FsCommand, FsEvent,
    InitialBuildState, Server, ServerCommand, ServerEvent, ShuttingDownServerState,
    ShuttingDownWatcherState, Signal, SpawnedBrowser, State,
};
use conveyorbelt::fswatch::{CreateKind, FsChange, FsChangeKind};

type TestState = State<u32, u16, u8>;
type TestEvent = Event<u32, u16, u8>;
type TestCommand = Command<u32, u16, u8>;

fn app(testing_mode: bool) -> App {
    App {
        project_root: PathBuf::from("/project"),
        serve_path: "/tmp/serve".to_string(),
        build_command_path: PathBuf::from("/project/build.sh"),
        testing_mode,
    }
}

fn server() -> Server<u32> {
    Server {
        handle: 7,
        address: "127.0.0.1:40521".to_string(),
        port: 40521,
    }
}

fn change(is_ignored: bool) -> TestEvent {
    Event::Fs(FsEvent::Change(FsChange {
        path: PathBuf::from("/project/src/index.html"),
        kind: FsChangeKind::Create(CreateKind::File),
        is_ignored,
    }))
}

fn handle(app: &App, state: &mut TestState, event: TestEvent) -> Vec<TestCommand> {
    assert!(app.accepts(state, &event));
    app.event_handler(state, event)
}

fn is_build_spawn(command: &TestCommand, app: &App) -> bool {
    match command {
        Command::Build(BuildCommand::Spawn { path, envs }) => {
            *path == app.build_command_path
                && envs.len() == 1
                && envs[0].0 == "SERVE_PATH"
                && envs[0].1 == app.serve_path
        }
        _ => false,
    }
}

/// Runs the program up to the point where the browser is up.
fn up_and_idle(app: &App) -> TestState {
    let mut state = State::Blank;
    handle(app, &mut state, Event::Init);
    handle(app, &mut state, Event::Server(ServerEvent::Spawn(server())));
    handle(app, &mut state, Event::Fs(FsEvent::Watching(3)));
    handle(app, &mut state, Event::Build(BuildEvent::Spawn(100)));
    let commands = handle(app, &mut state, Event::Build(BuildEvent::TerminatedSuccessfully));
    assert_eq!(commands.len(), 1);
    handle(
        app,
        &mut state,
        Event::Browser(BrowserEvent::Spawn(SpawnedBrowser {
            browser: 9,
            pid: 4242,
            debugging_address: "ws://127.0.0.1:9222/devtools".to_string(),
        })),
    );
    assert!(matches!(state, State::Idle { browser: 9, .. }));
    state
}

#[test]
fn init_spawns_build_server_and_watcher() {
    let app = app(false);
    let mut state: TestState = State::Blank;
    let commands = handle(&app, &mut state, Event::Init);
    assert_eq!(commands.len(), 3);
    assert!(is_build_spawn(&commands[0], &app));
    assert!(matches!(&commands[1], Command::Server(ServerCommand::Spawn(path)) if path == "/tmp/serve"));
    assert!(matches!(&commands[2], Command::Fs(FsCommand::Init(path)) if *path == PathBuf::from("/project")));
    assert!(matches!(
        state,
        State::Initializing { initial_build: InitialBuildState::Pending, server: None, watcher: None }
    ));
}

#[test]
fn browser_launched_at_server_address_once_all_is_ready() {
    let app = app(false);
    let mut state: TestState = State::Blank;
    handle(&app, &mut state, Event::Init);
    assert!(handle(&app, &mut state, Event::Build(BuildEvent::TerminatedSuccessfully)).is_empty());
    assert!(handle(&app, &mut state, Event::Fs(FsEvent::Watching(3))).is_empty());
    let commands = handle(&app, &mut state, Event::Server(ServerEvent::Spawn(server())));
    assert_eq!(commands.len(), 1);
    assert!(matches!(&commands[0], Command::Browser(BrowserCommand::Spawn { url }) if url == "http://127.0.0.1:40521"));
    assert!(matches!(state, State::SpawningBrowser { watcher: 3, .. }));
}

#[test]
fn state_reported_in_testing_mode() {
    let app = app(true);
    let mut state: TestState = State::SpawningBrowser { server: server(), watcher: 3 };
    let commands = handle(
        &app,
        &mut state,
        Event::Browser(BrowserEvent::Spawn(SpawnedBrowser {
            browser: 9,
            pid: 4242,
            debugging_address: "ws://x".to_string(),
        })),
    );
    assert_eq!(commands.len(), 1);
    match &commands[0] {
        Command::PrintStateForTesting(report) => {
            assert_eq!(report.serve_path, "/tmp/serve");
            assert_eq!(report.serve_port, 40521);
            assert_eq!(report.browser_pid, 4242);
            assert_eq!(report.browser_debugging_address, "ws://x");
        }
        _ => panic!("expected a report"),
    }
}

#[test]
fn no_report_outside_testing_mode() {
    let app = app(false);
    let state = up_and_idle(&app);
    assert!(matches!(state, State::Idle { .. }));
}

#[test]
fn change_runs_build_and_success_reloads() {
    let app = app(false);
    let mut state = up_and_idle(&app);
    let commands = handle(&app, &mut state, change(false));
    assert_eq!(commands.len(), 1);
    assert!(is_build_spawn(&commands[0], &app));
    assert!(handle(&app, &mut state, Event::Build(BuildEvent::Spawn(200))).is_empty());
    let commands = handle(&app, &mut state, Event::Build(BuildEvent::TerminatedSuccessfully));
    assert!(matches!(&commands[..], [Command::Browser(BrowserCommand::Reload(9))]));
    assert!(handle(&app, &mut state, Event::Browser(BrowserEvent::Reload(9))).is_empty());
    assert!(matches!(state, State::Idle { .. }));
}

#[test]
fn ignored_change_runs_nothing() {
    let app = app(false);
    let mut state = up_and_idle(&app);
    assert!(handle(&app, &mut state, change(true)).is_empty());
    assert!(matches!(state, State::Idle { .. }));
}

#[test]
fn failed_build_returns_to_idle() {
    let app = app(false);
    let mut state = up_and_idle(&app);
    handle(&app, &mut state, change(false));
    handle(&app, &mut state, Event::Build(BuildEvent::Spawn(200)));
    let commands = handle(&app, &mut state, Event::Build(BuildEvent::TerminatedWithFailure(Some(1))));
    assert!(commands.is_empty());
    assert!(matches!(state, State::Idle { .. }));
    let commands = handle(&app, &mut state, change(false));
    assert!(is_build_spawn(&commands[0], &app));
}

#[test]
fn change_during_build_restarts_it() {
    let app = app(false);
    let mut state = up_and_idle(&app);
    handle(&app, &mut state, change(false));
    handle(&app, &mut state, Event::Build(BuildEvent::Spawn(200)));
    let commands = handle(&app, &mut state, change(false));
    assert!(matches!(&commands[..], [Command::Build(BuildCommand::Signal(200, Signal::Sigterm))]));
    assert!(handle(&app, &mut state, change(false)).is_empty());
    assert!(handle(&app, &mut state, Event::Build(BuildEvent::SignalSent)).is_empty());
    let commands = handle(&app, &mut state, Event::Build(BuildEvent::TerminatedWithFailure(None)));
    assert_eq!(commands.len(), 1);
    assert!(is_build_spawn(&commands[0], &app));
    assert!(matches!(state, State::BuildSpawning { .. }));
}

#[test]
fn restarting_build_that_succeeds_is_not_accepted() {
    let app = app(false);
    let state: TestState = State::BuildWaiting {
        pid: 1,
        is_restarting: true,
        server: server(),
        watcher: 3,
        browser: 9,
    };
    assert!(!app.accepts(&state, &Event::Build(BuildEvent::TerminatedSuccessfully)));
    assert!(!app.accepts(&state, &Event::Build(BuildEvent::TerminatedWithFailure(Some(1)))));
}

#[test]
fn failed_initial_build_shuts_down() {
    let app = app(false);
    let mut state: TestState = State::Blank;
    handle(&app, &mut state, Event::Init);
    handle(&app, &mut state, Event::Server(ServerEvent::Spawn(server())));
    let commands = handle(&app, &mut state, Event::Build(BuildEvent::TerminatedWithFailure(Some(1))));
    assert!(matches!(&commands[..], [Command::Server(ServerCommand::Terminate(7))]));
    assert!(matches!(
        state,
        State::ShuttingDown {
            server: ShuttingDownServerState::Terminating,
            watcher: ShuttingDownWatcherState::Spawning
        }
    ));
    assert!(handle(&app, &mut state, Event::Server(ServerEvent::Termination)).is_empty());
    let commands = handle(&app, &mut state, Event::Fs(FsEvent::Watching(3)));
    assert!(matches!(&commands[..], [Command::Fs(FsCommand::Release(3)), Command::Terminate]));
    assert!(matches!(state, State::Terminating));
    assert!(handle(&app, &mut state, change(false)).is_empty());
}

#[test]
fn initial_build_spawn_error_terminates_late_server() {
    let app = app(false);
    let mut state: TestState = State::Blank;
    handle(&app, &mut state, Event::Init);
    handle(&app, &mut state, Event::Fs(FsEvent::Watching(3)));
    let commands = handle(&app, &mut state, Event::Build(BuildEvent::SpawnError));
    assert!(matches!(&commands[..], [Command::Fs(FsCommand::Release(3))]));
    let commands = handle(&app, &mut state, Event::Server(ServerEvent::Spawn(server())));
    assert!(matches!(&commands[..], [Command::Server(ServerCommand::Terminate(7))]));
    let commands = handle(&app, &mut state, Event::Server(ServerEvent::Termination));
    assert!(matches!(&commands[..], [Command::Terminate]));
}

#[test]
fn browser_spawn_error_shuts_down() {
    let app = app(false);
    let mut state: TestState = State::SpawningBrowser { server: server(), watcher: 3 };
    let commands = handle(&app, &mut state, Event::Browser(BrowserEvent::SpawnError));
    assert!(matches!(
        &commands[..],
        [Command::Server(ServerCommand::Terminate(7)), Command::Fs(FsCommand::Release(3))]
    ));
}

#[test]
fn unexpected_events_are_not_accepted() {
    let app = app(false);
    let blank: TestState = State::Blank;
    assert!(!app.accepts(&blank, &change(false)));
    let idle = State::Idle { server: server(), watcher: 3, browser: 9 };
    assert!(!app.accepts(&idle, &Event::Init));
    assert!(!app.accepts(&idle, &Event::Build(BuildEvent::TerminatedSuccessfully)));
    let terminating: TestState = State::Terminating;
    assert!(!app.accepts(&terminating, &Event::Browser(BrowserEvent::CdpError)));
    assert!(app.accepts(&terminating, &change(true)));
}
