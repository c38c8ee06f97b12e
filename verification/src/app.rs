//! The program's state machine.
//!
//! The program starts the initial build, the HTTP server and the file watcher
//! at once. Once all three are up and the initial build has succeeded, it
//! launches the browser at the server's address. From then on every change of
//! the sources runs the build command again; a change while a build runs
//! sends that build SIGTERM and runs it afresh; a successful build reloads the
//! page. When something vital fails, the program shuts the server down,
//! releases the watcher and terminates.
//!
//! [`App::event_handler`] maps the current state and one event to the next
//! state and the commands to carry out. The handles of the server (`S`), the
//! file watcher (`W`) and the browser (`B`) are opaque to the state machine:
//! it only keeps them, and hands them back in commands.

use crate::fswatch::FsChange;
use crate::{StateForTesting, StateForTestingView};
use std::path::PathBuf;
use vstd::prelude::*;
use vstd::string::*;

verus! {

/// Whether the initial build is still running.
#[derive(Debug, Clone, Copy, PartialEq, Eq)]
pub enum InitialBuildState {
    Pending,
    Succeeded,
}

/// Where the server stands while the program shuts down.
#[derive(Debug, Clone, Copy, PartialEq, Eq)]
pub enum ShuttingDownServerState {
    /// The server was still being spawned when the shutdown began.
    Spawning,
    /// The server was told to terminate.
    Terminating,
    /// The server task could not be joined.
    TerminationFailed,
    /// The server has terminated.
    Terminated,
}

/// Where the file watcher stands while the program shuts down.
#[derive(Debug, Clone, Copy, PartialEq, Eq)]
pub enum ShuttingDownWatcherState {
    /// The watcher was still being created when the shutdown began.
    Spawning,
    /// The watcher has been released.
    Dropped,
}

/// A running server: its handle, the text of its socket address (such as
/// `127.0.0.1:40521`) and its port.
#[derive(Debug)]
pub struct Server<S> {
    pub handle: S,
    pub address: String,
    pub port: u16,
}

/// The state of the program.
#[allow(inconsistent_fields)]
#[derive(Debug)]
pub enum State<S, W, B> {
    Blank,
    Initializing { initial_build: InitialBuildState, server: Option<Server<S>>, watcher: Option<W> },
    SpawningBrowser { server: Server<S>, watcher: W },
    Idle { server: Server<S>, watcher: W, browser: B },
    BuildSpawning { server: Server<S>, watcher: W, browser: B },
    BuildWaiting { pid: i32, is_restarting: bool, server: Server<S>, watcher: W, browser: B },
    Reloading { server: Server<S>, watcher: W },
    ShuttingDown { server: ShuttingDownServerState, watcher: ShuttingDownWatcherState },
    Terminating,
}

/// What the build process reports.
#[derive(Debug)]
pub enum BuildEvent {
    SpawnError,
    /// The build process was spawned with this process id.
    Spawn(i32),
    OutputLine,
    SignalSent,
    TerminatedSuccessfully,
    /// The build process exited unsuccessfully, with this exit code if it
    /// exited normally.
    TerminatedWithFailure(Option<i32>),
    WaitError,
}

/// What the server reports.
#[derive(Debug)]
pub enum ServerEvent<S> {
    SpawnError,
    Spawn(Server<S>),
    Termination,
    TerminationError,
    TaskJoinError,
}

/// A browser that was launched: its handle, its process id and the address
/// at which it can be debugged.
#[derive(Debug)]
pub struct SpawnedBrowser<B> {
    pub browser: B,
    pub pid: u32,
    pub debugging_address: String,
}

/// What the browser reports.
#[derive(Debug)]
pub enum BrowserEvent<B> {
    Spawn(SpawnedBrowser<B>),
    SpawnError,
    Reload(B),
    ReloadError(B),
    CdpError,
}

/// What the file watcher reports.
#[derive(Debug)]
pub enum FsEvent<W> {
    WatcherCreationError,
    Watching(W),
    WatcherWatchError,
    EventError,
    Change(FsChange),
}

/// An event of the program.
#[derive(Debug)]
pub enum Event<S, W, B> {
    Init,
    Server(ServerEvent<S>),
    Build(BuildEvent),
    Browser(BrowserEvent<B>),
    Fs(FsEvent<W>),
}

/// A signal that can be sent to the build process.
#[derive(Debug, Clone, Copy, PartialEq, Eq)]
pub enum Signal {
    Sigterm,
}

/// What to do with the build process.
#[derive(Debug)]
pub enum BuildCommand {
    /// Run the build command at `path` with the environment variables `envs`.
    Spawn { path: PathBuf, envs: Vec<(String, String)> },
    /// Send a signal to the build process with this process id.
    Signal(i32, Signal),
}

/// What to do with the server.
#[derive(Debug)]
pub enum ServerCommand<S> {
    /// Serve the directory at this path.
    Spawn(String),
    Terminate(S),
}

/// What to do with the file watcher.
#[derive(Debug)]
pub enum FsCommand<W> {
    /// Watch the directory tree at this path.
    Init(PathBuf),
    /// Stop watching and release the watcher.
    Release(W),
}

/// What to do with the browser.
#[derive(Debug)]
pub enum BrowserCommand<B> {
    Spawn { url: String },
    Reload(B),
}

/// A command for the surrounding program to carry out.
#[derive(Debug)]
pub enum Command<S, W, B> {
    Build(BuildCommand),
    Server(ServerCommand<S>),
    Fs(FsCommand<W>),
    Browser(BrowserCommand<B>),
    PrintStateForTesting(StateForTesting),
    Terminate,
}

/// The mathematical content of a [`BuildCommand`].
pub enum BuildCommandView {
    Spawn { path: PathBuf, envs: Seq<(Seq<char>, Seq<char>)> },
    Signal(i32, Signal),
}

/// The mathematical content of a [`ServerCommand`].
pub enum ServerCommandView<S> {
    Spawn(Seq<char>),
    Terminate(S),
}

/// The mathematical content of a [`BrowserCommand`].
pub enum BrowserCommandView<B> {
    Spawn { url: Seq<char> },
    Reload(B),
}

/// The mathematical content of a [`Command`].
pub enum CommandView<S, W, B> {
    Build(BuildCommandView),
    Server(ServerCommandView<S>),
    Fs(FsCommand<W>),
    Browser(BrowserCommandView<B>),
    PrintStateForTesting(StateForTestingView),
    Terminate,
}

/// The views of a list of environment variables.
pub open spec fn envs_view(envs: Seq<(String, String)>) -> Seq<(Seq<char>, Seq<char>)> {
    envs.map_values(|p: (String, String)| (p.0@, p.1@))
}

impl View for BuildCommand {
    type V = BuildCommandView;

    open spec fn view(&self) -> BuildCommandView {
        match self {
            BuildCommand::Spawn { path, envs } => BuildCommandView::Spawn {
                path: *path,
                envs: envs_view(envs@),
            },
            BuildCommand::Signal(pid, signal) => BuildCommandView::Signal(*pid, *signal),
        }
    }
}

impl<S> View for ServerCommand<S> {
    type V = ServerCommandView<S>;

    open spec fn view(&self) -> ServerCommandView<S> {
        match self {
            ServerCommand::Spawn(path) => ServerCommandView::Spawn(path@),
            ServerCommand::Terminate(server) => ServerCommandView::Terminate(*server),
        }
    }
}

impl<B> View for BrowserCommand<B> {
    type V = BrowserCommandView<B>;

    open spec fn view(&self) -> BrowserCommandView<B> {
        match self {
            BrowserCommand::Spawn { url } => BrowserCommandView::Spawn { url: url@ },
            BrowserCommand::Reload(browser) => BrowserCommandView::Reload(*browser),
        }
    }
}

impl<S, W, B> View for Command<S, W, B> {
    type V = CommandView<S, W, B>;

    open spec fn view(&self) -> CommandView<S, W, B> {
        match self {
            Command::Build(c) => CommandView::Build(c@),
            Command::Server(c) => CommandView::Server(c@),
            Command::Fs(c) => CommandView::Fs(*c),
            Command::Browser(c) => CommandView::Browser(c@),
            Command::PrintStateForTesting(s) => CommandView::PrintStateForTesting(s@),
            Command::Terminate => CommandView::Terminate,
        }
    }
}

/// The views of a list of commands.
pub open spec fn views<S, W, B>(cmds: Seq<Command<S, W, B>>) -> Seq<CommandView<S, W, B>> {
    cmds.map_values(|c: Command<S, W, B>| c@)
}

/// The commands that one event calls for, and the state that follows it.
pub type Step<S, W, B> = (Seq<CommandView<S, W, B>>, State<S, W, B>);

/// What the program was started with.
#[derive(Debug)]
pub struct App {
    /// The root of the project whose sources are watched.
    pub project_root: PathBuf,
    /// The directory that is served, which the build command writes to.
    pub serve_path: String,
    /// The build command.
    pub build_command_path: PathBuf,
    /// Whether to report the state to a test harness once the browser is up.
    pub testing_mode: bool,
}

/// The name of the environment variable that tells the build command where
/// to write its output.
pub open spec fn serve_path_var() -> Seq<char> {
    "SERVE_PATH"@
}

/// Run the build command, telling it where the served directory is.
pub open spec fn build_spawn<S, W, B>(app: App) -> CommandView<S, W, B> {
    CommandView::Build(
        BuildCommandView::Spawn {
            path: app.build_command_path,
            envs: seq![(serve_path_var(), app.serve_path@)],
        },
    )
}

/// The address at which the browser opens the served directory.
pub open spec fn page_url<S>(server: Server<S>) -> Seq<char> {
    "http://"@ + server.address@
}

/// Launch the browser at the server's address.
pub open spec fn spawn_browser<S, W, B>(server: Server<S>, watcher: W) -> Step<S, W, B> {
    (
        seq![CommandView::Browser(BrowserCommandView::Spawn { url: page_url(server) })],
        State::SpawningBrowser { server, watcher },
    )
}

/// Begin shutting down: terminate the server if there is one, and release
/// the watcher if there is one.
pub open spec fn shut_down<S, W, B>(server: Option<Server<S>>, watcher: Option<W>) -> Step<S, W, B> {
    let server_commands = match server {
        Some(s) => seq![CommandView::<S, W, B>::Server(ServerCommandView::Terminate(s.handle))],
        None => Seq::empty(),
    };
    let watcher_commands = match watcher {
        Some(w) => seq![CommandView::<S, W, B>::Fs(FsCommand::Release(w))],
        None => Seq::empty(),
    };
    let server_state = if server is Some {
        ShuttingDownServerState::Terminating
    } else {
        ShuttingDownServerState::Spawning
    };
    let watcher_state = if watcher is Some {
        ShuttingDownWatcherState::Dropped
    } else {
        ShuttingDownWatcherState::Spawning
    };
    (
        server_commands + watcher_commands,
        State::ShuttingDown { server: server_state, watcher: watcher_state },
    )
}

/// Terminate the program.
pub open spec fn terminate<S, W, B>() -> Step<S, W, B> {
    (seq![CommandView::Terminate], State::Terminating)
}

/// Do nothing and stay in `s`.
pub open spec fn stay<S, W, B>(s: State<S, W, B>) -> Option<Step<S, W, B>> {
    Some((Seq::empty(), s))
}

/// Before anything has started: only the start event can come, and it starts
/// the initial build, the server and the file watcher.
pub open spec fn step_blank<S, W, B>(app: App, e: Event<S, W, B>) -> Option<Step<S, W, B>> {
    match e {
        Event::Init => Some(
            (
                seq![
                    build_spawn(app),
                    CommandView::Server(ServerCommandView::Spawn(app.serve_path@)),
                    CommandView::Fs(FsCommand::Init(app.project_root)),
                ],
                State::Initializing {
                    initial_build: InitialBuildState::Pending,
                    server: None,
                    watcher: None,
                },
            ),
        ),
        _ => None,
    }
}

/// While the initial build, the server and the watcher are coming up.
pub open spec fn step_initializing<S, W, B>(
    initial_build: InitialBuildState,
    server: Option<Server<S>>,
    watcher: Option<W>,
    e: Event<S, W, B>,
) -> Option<Step<S, W, B>> {
    let pending = initial_build == InitialBuildState::Pending;
    let same = State::Initializing { initial_build, server, watcher };
    match e {
        Event::Build(b) => match b {
            BuildEvent::SpawnError => if pending {
                Some(shut_down(server, watcher))
            } else {
                None
            },
            BuildEvent::WaitError => if pending && server is Some {
                Some(shut_down(server, watcher))
            } else {
                None
            },
            BuildEvent::Spawn(_) => if pending {
                stay(same)
            } else {
                None
            },
            BuildEvent::TerminatedWithFailure(_) => if pending {
                Some(shut_down(server, watcher))
            } else {
                None
            },
            BuildEvent::TerminatedSuccessfully => if !pending {
                None
            } else if server is Some && watcher is Some {
                Some(spawn_browser(server->0, watcher->0))
            } else {
                Some(
                    (
                        Seq::empty(),
                        State::Initializing {
                            initial_build: InitialBuildState::Succeeded,
                            server,
                            watcher,
                        },
                    ),
                )
            },
            BuildEvent::OutputLine => if pending {
                stay(same)
            } else {
                None
            },
            BuildEvent::SignalSent => None,
        },
        Event::Server(s) => match s {
            ServerEvent::SpawnError => Some(shut_down(server, watcher)),
            ServerEvent::Spawn(new_server) => if server is Some {
                None
            } else if !pending && watcher is Some {
                Some(spawn_browser(new_server, watcher->0))
            } else {
                Some(
                    (
                        Seq::empty(),
                        State::Initializing { initial_build, server: Some(new_server), watcher },
                    ),
                )
            },
            _ => None,
        },
        Event::Fs(f) => match f {
            FsEvent::WatcherCreationError => if watcher is None {
                Some(shut_down(server, watcher))
            } else {
                None
            },
            FsEvent::Watching(new_watcher) => if watcher is Some {
                None
            } else if !pending && server is Some {
                Some(spawn_browser(server->0, new_watcher))
            } else {
                Some(
                    (
                        Seq::empty(),
                        State::Initializing { initial_build, server, watcher: Some(new_watcher) },
                    ),
                )
            },
            FsEvent::WatcherWatchError => if watcher is None {
                Some(shut_down(server, watcher))
            } else {
                None
            },
            FsEvent::EventError => if watcher is Some {
                stay(same)
            } else {
                None
            },
            FsEvent::Change(_) => stay(same),
        },
        _ => None,
    }
}

/// While the browser is being launched.
pub open spec fn step_spawning_browser<S, W, B>(
    app: App,
    server: Server<S>,
    watcher: W,
    e: Event<S, W, B>,
) -> Option<Step<S, W, B>> {
    let same = State::SpawningBrowser { server, watcher };
    match e {
        Event::Fs(FsEvent::EventError) => stay(same),
        Event::Fs(FsEvent::Change(_)) => stay(same),
        Event::Browser(BrowserEvent::Spawn(spawned)) => {
            let report = if app.testing_mode {
                seq![
                    CommandView::PrintStateForTesting(
                        StateForTestingView {
                            serve_path: app.serve_path@,
                            serve_port: server.port,
                            browser_debugging_address: spawned.debugging_address@,
                            browser_pid: spawned.pid,
                        },
                    ),
                ]
            } else {
                Seq::empty()
            };
            Some((report, State::Idle { server, watcher, browser: spawned.browser }))
        },
        Event::Browser(BrowserEvent::SpawnError) => Some(shut_down(Some(server), Some(watcher))),
        Event::Browser(BrowserEvent::CdpError) => stay(same),
        _ => None,
    }
}

/// While the page is up and no build runs.
pub open spec fn step_idle<S, W, B>(
    app: App,
    server: Server<S>,
    watcher: W,
    browser: B,
    e: Event<S, W, B>,
) -> Option<Step<S, W, B>> {
    let same = State::Idle { server, watcher, browser };
    match e {
        Event::Fs(FsEvent::EventError) => stay(same),
        Event::Fs(FsEvent::Change(change)) => if change.is_ignored {
            stay(same)
        } else {
            Some((seq![build_spawn(app)], State::BuildSpawning { server, watcher, browser }))
        },
        Event::Browser(BrowserEvent::CdpError) => stay(same),
        _ => None,
    }
}

/// While the build process is being spawned.
pub open spec fn step_build_spawning<S, W, B>(
    server: Server<S>,
    watcher: W,
    browser: B,
    e: Event<S, W, B>,
) -> Option<Step<S, W, B>> {
    let same = State::BuildSpawning { server, watcher, browser };
    match e {
        Event::Fs(FsEvent::EventError) => stay(same),
        Event::Fs(FsEvent::Change(_)) => stay(same),
        Event::Build(BuildEvent::SpawnError) => Some(shut_down(Some(server), Some(watcher))),
        Event::Build(BuildEvent::Spawn(pid)) => Some(
            (
                Seq::empty(),
                State::BuildWaiting { pid, is_restarting: false, server, watcher, browser },
            ),
        ),
        Event::Build(BuildEvent::OutputLine) => stay(same),
        Event::Browser(BrowserEvent::CdpError) => stay(same),
        _ => None,
    }
}

/// While the build process with id `pid` runs; `is_restarting` tells whether
/// it was sent SIGTERM so that it runs afresh.
pub open spec fn step_build_waiting<S, W, B>(
    app: App,
    pid: i32,
    is_restarting: bool,
    server: Server<S>,
    watcher: W,
    browser: B,
    e: Event<S, W, B>,
) -> Option<Step<S, W, B>> {
    let same = State::BuildWaiting { pid, is_restarting, server, watcher, browser };
    match e {
        Event::Fs(FsEvent::EventError) => stay(same),
        Event::Fs(FsEvent::Change(change)) => if is_restarting || change.is_ignored {
            stay(same)
        } else {
            Some(
                (
                    seq![CommandView::Build(BuildCommandView::Signal(pid, Signal::Sigterm))],
                    State::BuildWaiting { pid, is_restarting: true, server, watcher, browser },
                ),
            )
        },
        Event::Build(BuildEvent::OutputLine) => stay(same),
        Event::Build(BuildEvent::SignalSent) => stay(same),
        Event::Build(BuildEvent::TerminatedSuccessfully) => if is_restarting {
            None
        } else {
            Some(
                (
                    seq![CommandView::Browser(BrowserCommandView::Reload(browser))],
                    State::Reloading { server, watcher },
                ),
            )
        },
        Event::Build(BuildEvent::TerminatedWithFailure(code)) => if !is_restarting {
            Some((Seq::empty(), State::Idle { server, watcher, browser }))
        } else if code is None {
            Some((seq![build_spawn(app)], State::BuildSpawning { server, watcher, browser }))
        } else {
            None
        },
        Event::Browser(BrowserEvent::CdpError) => stay(same),
        _ => None,
    }
}

/// While the page is being reloaded.
pub open spec fn step_reloading<S, W, B>(
    server: Server<S>,
    watcher: W,
    e: Event<S, W, B>,
) -> Option<Step<S, W, B>> {
    let same = State::Reloading { server, watcher };
    match e {
        Event::Fs(FsEvent::Change(_)) => stay(same),
        Event::Browser(BrowserEvent::Reload(browser)) => Some(
            (Seq::empty(), State::Idle { server, watcher, browser }),
        ),
        Event::Browser(BrowserEvent::ReloadError(browser)) => Some(
            (Seq::empty(), State::Idle { server, watcher, browser }),
        ),
        Event::Browser(BrowserEvent::CdpError) => stay(same),
        _ => None,
    }
}

/// While the program shuts down.
pub open spec fn step_shutting_down<S, W, B>(
    server: ShuttingDownServerState,
    watcher: ShuttingDownWatcherState,
    e: Event<S, W, B>,
) -> Option<Step<S, W, B>> {
    let same = State::ShuttingDown { server, watcher };
    let terminating = server == ShuttingDownServerState::Terminating;
    let dropped = watcher == ShuttingDownWatcherState::Dropped;
    match e {
        Event::Fs(FsEvent::Change(_)) => stay(same),
        Event::Browser(BrowserEvent::CdpError) => stay(same),
        Event::Server(ServerEvent::SpawnError) => if server == ShuttingDownServerState::Spawning {
            Some(terminate())
        } else {
            None
        },
        Event::Server(ServerEvent::Spawn(new_server)) => if server
            == ShuttingDownServerState::Spawning {
            Some(
                (
                    seq![CommandView::Server(ServerCommandView::Terminate(new_server.handle))],
                    State::ShuttingDown { server: ShuttingDownServerState::Terminating, watcher },
                ),
            )
        } else {
            None
        },
        Event::Server(ServerEvent::TerminationError) => if !terminating {
            None
        } else if dropped {
            Some(terminate())
        } else {
            stay(same)
        },
        Event::Server(ServerEvent::TaskJoinError) => if !terminating {
            None
        } else if dropped {
            Some(terminate())
        } else {
            Some(
                (
                    Seq::empty(),
                    State::ShuttingDown {
                        server: ShuttingDownServerState::TerminationFailed,
                        watcher,
                    },
                ),
            )
        },
        Event::Server(ServerEvent::Termination) => if !terminating {
            None
        } else if dropped {
            Some(terminate())
        } else {
            Some(
                (
                    Seq::empty(),
                    State::ShuttingDown { server: ShuttingDownServerState::Terminated, watcher },
                ),
            )
        },
        Event::Fs(FsEvent::Watching(new_watcher)) => if dropped {
            None
        } else if server == ShuttingDownServerState::Terminated {
            Some(
                (
                    seq![CommandView::Fs(FsCommand::Release(new_watcher)), CommandView::Terminate],
                    State::Terminating,
                ),
            )
        } else {
            Some(
                (
                    seq![CommandView::Fs(FsCommand::Release(new_watcher))],
                    State::ShuttingDown { server, watcher: ShuttingDownWatcherState::Dropped },
                ),
            )
        },
        _ => None,
    }
}

/// Once the program terminates: only changes of the sources can still come,
/// and they do nothing.
pub open spec fn step_terminating<S, W, B>(e: Event<S, W, B>) -> Option<Step<S, W, B>> {
    match e {
        Event::Fs(FsEvent::Change(_)) => stay(State::Terminating),
        _ => None,
    }
}

/// What the program does on event `e` in state `s`: the commands it issues
/// and its next state, or `None` where the event cannot occur in that state.
pub open spec fn step<S, W, B>(app: App, s: State<S, W, B>, e: Event<S, W, B>) -> Option<
    Step<S, W, B>,
> {
    match s {
        State::Blank => step_blank(app, e),
        State::Initializing { initial_build, server, watcher } => step_initializing(
            initial_build,
            server,
            watcher,
            e,
        ),
        State::SpawningBrowser { server, watcher } => step_spawning_browser(app, server, watcher, e),
        State::Idle { server, watcher, browser } => step_idle(app, server, watcher, browser, e),
        State::BuildSpawning { server, watcher, browser } => step_build_spawning(
            server,
            watcher,
            browser,
            e,
        ),
        State::BuildWaiting { pid, is_restarting, server, watcher, browser } => step_build_waiting(
            app,
            pid,
            is_restarting,
            server,
            watcher,
            browser,
            e,
        ),
        State::Reloading { server, watcher } => step_reloading(server, watcher, e),
        State::ShuttingDown { server, watcher } => step_shutting_down(server, watcher, e),
        State::Terminating => step_terminating(e),
    }
}

/// The commands that event `e` calls for in state `s`.
pub open spec fn commands_after<S, W, B>(app: App, s: State<S, W, B>, e: Event<S, W, B>) -> Seq<
    CommandView<S, W, B>,
> {
    match step(app, s, e) {
        Some((commands, _)) => commands,
        None => Seq::empty(),
    }
}

/// The state that follows event `e` in state `s`.
pub open spec fn state_after<S, W, B>(app: App, s: State<S, W, B>, e: Event<S, W, B>) -> State<S, W, B> {
    match step(app, s, e) {
        Some((_, next)) => next,
        None => s,
    }
}

/// Whether event `e` can occur in state `s`.
pub open spec fn accepts<S, W, B>(app: App, s: State<S, W, B>, e: Event<S, W, B>) -> bool {
    step(app, s, e) is Some
}


fn no_commands<S, W, B>() -> (v: Vec<Command<S, W, B>>)
    ensures
        views(v@) == Seq::<CommandView<S, W, B>>::empty(),
{
    let v: Vec<Command<S, W, B>> = Vec::new();
    proof {
        assert(views(v@) =~= Seq::<CommandView<S, W, B>>::empty());
    }
    v
}

fn one_command<S, W, B>(c: Command<S, W, B>) -> (v: Vec<Command<S, W, B>>)
    ensures
        views(v@) == seq![c@],
{
    let mut v: Vec<Command<S, W, B>> = Vec::new();
    v.push(c);
    proof {
        assert(views(v@) =~= seq![c@]);
    }
    v
}

fn two_commands<S, W, B>(a: Command<S, W, B>, b: Command<S, W, B>) -> (v: Vec<Command<S, W, B>>)
    ensures
        views(v@) == seq![a@, b@],
{
    let mut v: Vec<Command<S, W, B>> = Vec::new();
    v.push(a);
    v.push(b);
    proof {
        assert(views(v@) =~= seq![a@, b@]);
    }
    v
}

fn three_commands<S, W, B>(a: Command<S, W, B>, b: Command<S, W, B>, c: Command<S, W, B>) -> (v: Vec<
    Command<S, W, B>,
>)
    ensures
        views(v@) == seq![a@, b@, c@],
{
    let mut v: Vec<Command<S, W, B>> = Vec::new();
    v.push(a);
    v.push(b);
    v.push(c);
    proof {
        assert(views(v@) =~= seq![a@, b@, c@]);
    }
    v
}

/// Stays in `s` without issuing a command.
fn stay_in<S, W, B>(s: State<S, W, B>) -> (r: (Vec<Command<S, W, B>>, State<S, W, B>))
    ensures
        (views(r.0@), r.1) == stay(s)->0,
{
    (no_commands(), s)
}

/// Launches the browser at the server's address.
fn launch_browser<S, W, B>(server: Server<S>, watcher: W) -> (r: (Vec<Command<S, W, B>>, State<S, W, B>))
    ensures
        (views(r.0@), r.1) == spawn_browser::<S, W, B>(server, watcher),
{
    let mut url = String::from_str("http://");
    url.append(server.address.as_str());
    let command = Command::Browser(BrowserCommand::Spawn { url });
    (one_command(command), State::SpawningBrowser { server, watcher })
}

impl<S, W, B> State<S, W, B> {
    /// Begins shutting down: terminates the server if there is one and
    /// releases the watcher if there is one.
    pub fn shut_down(server: Option<Server<S>>, watcher: Option<W>) -> (r: (
        Vec<Command<S, W, B>>,
        State<S, W, B>,
    ))
        ensures
            (views(r.0@), r.1) == shut_down::<S, W, B>(server, watcher),
    {
        let mut commands: Vec<Command<S, W, B>> = Vec::new();
        let server_state = match server {
            Some(server) => {
                commands.push(Command::Server(ServerCommand::Terminate(server.handle)));
                ShuttingDownServerState::Terminating
            },
            None => ShuttingDownServerState::Spawning,
        };
        let watcher_state = match watcher {
            Some(watcher) => {
                commands.push(Command::Fs(FsCommand::Release(watcher)));
                ShuttingDownWatcherState::Dropped
            },
            None => ShuttingDownWatcherState::Spawning,
        };
        proof {
            assert(views(commands@) =~= shut_down::<S, W, B>(server, watcher).0);
        }
        (commands, State::ShuttingDown { server: server_state, watcher: watcher_state })
    }

    /// Terminates the program.
    pub fn terminate() -> (r: (Vec<Command<S, W, B>>, State<S, W, B>))
        ensures
            (views(r.0@), r.1) == terminate::<S, W, B>(),
    {
        (one_command(Command::Terminate), State::Terminating)
    }
}

impl App {
    /// The command that runs the build.
    fn build_spawn<S, W, B>(&self) -> (c: Command<S, W, B>)
        ensures
            c@ == build_spawn::<S, W, B>(*self),
    {
        let mut envs: Vec<(String, String)> = Vec::new();
        envs.push((String::from_str("SERVE_PATH"), self.serve_path.clone()));
        proof {
            assert(envs_view(envs@) =~= seq![(serve_path_var(), self.serve_path@)]);
        }
        Command::Build(BuildCommand::Spawn { path: self.build_command_path.clone(), envs })
    }

    fn on_blank<S, W, B>(&self, event: Event<S, W, B>) -> (r: (Vec<Command<S, W, B>>, State<S, W, B>))
        requires
            step_blank(*self, event) is Some,
        ensures
            (views(r.0@), r.1) == step_blank(*self, event)->0,
    {
        match event {
            Event::Init => {
                let commands = three_commands(
                    self.build_spawn(),
                    Command::Server(ServerCommand::Spawn(self.serve_path.clone())),
                    Command::Fs(FsCommand::Init(self.project_root.clone())),
                );
                let state = State::Initializing {
                    initial_build: InitialBuildState::Pending,
                    server: None,
                    watcher: None,
                };
                (commands, state)
            },
            _ => vstd::pervasive::unreached(),
        }
    }

    fn on_initializing<S, W, B>(
        &self,
        initial_build: InitialBuildState,
        server: Option<Server<S>>,
        watcher: Option<W>,
        event: Event<S, W, B>,
    ) -> (r: (Vec<Command<S, W, B>>, State<S, W, B>))
        requires
            step_initializing(initial_build, server, watcher, event) is Some,
        ensures
            (views(r.0@), r.1) == step_initializing(initial_build, server, watcher, event)->0,
    {
        let pending = match initial_build {
            InitialBuildState::Pending => true,
            InitialBuildState::Succeeded => false,
        };
        match event {
            Event::Build(build_event) => match build_event {
                BuildEvent::SpawnError => State::shut_down(server, watcher),
                BuildEvent::WaitError => State::shut_down(server, watcher),
                BuildEvent::TerminatedWithFailure(_) => State::shut_down(server, watcher),
                BuildEvent::Spawn(_) => stay_in(State::Initializing { initial_build, server, watcher }),
                BuildEvent::OutputLine => stay_in(State::Initializing { initial_build, server, watcher }),
                BuildEvent::TerminatedSuccessfully => match server {
                    Some(server) => match watcher {
                        Some(watcher) => launch_browser(server, watcher),
                        None => stay_in(
                            State::Initializing {
                                initial_build: InitialBuildState::Succeeded,
                                server: Some(server),
                                watcher: None,
                            },
                        ),
                    },
                    None => stay_in(
                        State::Initializing {
                            initial_build: InitialBuildState::Succeeded,
                            server: None,
                            watcher,
                        },
                    ),
                },
                BuildEvent::SignalSent => vstd::pervasive::unreached(),
            },
            Event::Server(server_event) => match server_event {
                ServerEvent::SpawnError => State::shut_down(server, watcher),
                ServerEvent::Spawn(new_server) => {
                    if pending {
                        stay_in(State::Initializing { initial_build, server: Some(new_server), watcher })
                    } else {
                        match watcher {
                            Some(watcher) => launch_browser(new_server, watcher),
                            None => stay_in(
                                State::Initializing {
                                    initial_build,
                                    server: Some(new_server),
                                    watcher: None,
                                },
                            ),
                        }
                    }
                },
                _ => vstd::pervasive::unreached(),
            },
            Event::Fs(fs_event) => match fs_event {
                FsEvent::WatcherCreationError => State::shut_down(server, watcher),
                FsEvent::WatcherWatchError => State::shut_down(server, watcher),
                FsEvent::Watching(new_watcher) => {
                    if pending {
                        stay_in(State::Initializing { initial_build, server, watcher: Some(new_watcher) })
                    } else {
                        match server {
                            Some(server) => launch_browser(server, new_watcher),
                            None => stay_in(
                                State::Initializing {
                                    initial_build,
                                    server: None,
                                    watcher: Some(new_watcher),
                                },
                            ),
                        }
                    }
                },
                FsEvent::EventError => stay_in(State::Initializing { initial_build, server, watcher }),
                FsEvent::Change(_) => stay_in(State::Initializing { initial_build, server, watcher }),
            },
            _ => vstd::pervasive::unreached(),
        }
    }

    fn on_spawning_browser<S, W, B>(&self, server: Server<S>, watcher: W, event: Event<S, W, B>) -> (r: (
        Vec<Command<S, W, B>>,
        State<S, W, B>,
    ))
        requires
            step_spawning_browser(*self, server, watcher, event) is Some,
        ensures
            (views(r.0@), r.1) == step_spawning_browser(*self, server, watcher, event)->0,
    {
        match event {
            Event::Fs(FsEvent::EventError) => stay_in(State::SpawningBrowser { server, watcher }),
            Event::Fs(FsEvent::Change(_)) => stay_in(State::SpawningBrowser { server, watcher }),
            Event::Browser(BrowserEvent::Spawn(spawned)) => {
                let commands = if self.testing_mode {
                    one_command(
                        Command::PrintStateForTesting(
                            StateForTesting {
                                serve_path: self.serve_path.clone(),
                                serve_port: server.port,
                                browser_debugging_address: spawned.debugging_address,
                                browser_pid: spawned.pid,
                            },
                        ),
                    )
                } else {
                    no_commands()
                };
                (commands, State::Idle { server, watcher, browser: spawned.browser })
            },
            Event::Browser(BrowserEvent::SpawnError) => State::shut_down(Some(server), Some(watcher)),
            Event::Browser(BrowserEvent::CdpError) => stay_in(State::SpawningBrowser { server, watcher }),
            _ => vstd::pervasive::unreached(),
        }
    }

    fn on_idle<S, W, B>(&self, server: Server<S>, watcher: W, browser: B, event: Event<S, W, B>) -> (r: (
        Vec<Command<S, W, B>>,
        State<S, W, B>,
    ))
        requires
            step_idle(*self, server, watcher, browser, event) is Some,
        ensures
            (views(r.0@), r.1) == step_idle(*self, server, watcher, browser, event)->0,
    {
        match event {
            Event::Fs(FsEvent::EventError) => stay_in(State::Idle { server, watcher, browser }),
            Event::Fs(FsEvent::Change(change)) => {
                if change.is_ignored {
                    stay_in(State::Idle { server, watcher, browser })
                } else {
                    (one_command(self.build_spawn()), State::BuildSpawning { server, watcher, browser })
                }
            },
            Event::Browser(BrowserEvent::CdpError) => stay_in(State::Idle { server, watcher, browser }),
            _ => vstd::pervasive::unreached(),
        }
    }

    fn on_build_spawning<S, W, B>(
        &self,
        server: Server<S>,
        watcher: W,
        browser: B,
        event: Event<S, W, B>,
    ) -> (r: (Vec<Command<S, W, B>>, State<S, W, B>))
        requires
            step_build_spawning(server, watcher, browser, event) is Some,
        ensures
            (views(r.0@), r.1) == step_build_spawning(server, watcher, browser, event)->0,
    {
        match event {
            Event::Fs(FsEvent::EventError) => stay_in(State::BuildSpawning { server, watcher, browser }),
            Event::Fs(FsEvent::Change(_)) => stay_in(State::BuildSpawning { server, watcher, browser }),
            Event::Build(BuildEvent::SpawnError) => State::shut_down(Some(server), Some(watcher)),
            Event::Build(BuildEvent::Spawn(pid)) => stay_in(
                State::BuildWaiting { pid, is_restarting: false, server, watcher, browser },
            ),
            Event::Build(BuildEvent::OutputLine) => stay_in(State::BuildSpawning { server, watcher, browser }),
            Event::Browser(BrowserEvent::CdpError) => stay_in(
                State::BuildSpawning { server, watcher, browser },
            ),
            _ => vstd::pervasive::unreached(),
        }
    }

    fn on_build_waiting<S, W, B>(
        &self,
        pid: i32,
        is_restarting: bool,
        server: Server<S>,
        watcher: W,
        browser: B,
        event: Event<S, W, B>,
    ) -> (r: (Vec<Command<S, W, B>>, State<S, W, B>))
        requires
            step_build_waiting(*self, pid, is_restarting, server, watcher, browser, event) is Some,
        ensures
            (views(r.0@), r.1) == step_build_waiting(
                *self,
                pid,
                is_restarting,
                server,
                watcher,
                browser,
                event,
            )->0,
    {
        match event {
            Event::Fs(FsEvent::EventError) => stay_in(
                State::BuildWaiting { pid, is_restarting, server, watcher, browser },
            ),
            Event::Fs(FsEvent::Change(change)) => {
                if is_restarting || change.is_ignored {
                    stay_in(State::BuildWaiting { pid, is_restarting, server, watcher, browser })
                } else {
                    (
                        one_command(Command::Build(BuildCommand::Signal(pid, Signal::Sigterm))),
                        State::BuildWaiting { pid, is_restarting: true, server, watcher, browser },
                    )
                }
            },
            Event::Build(BuildEvent::OutputLine) => stay_in(
                State::BuildWaiting { pid, is_restarting, server, watcher, browser },
            ),
            Event::Build(BuildEvent::SignalSent) => stay_in(
                State::BuildWaiting { pid, is_restarting, server, watcher, browser },
            ),
            Event::Build(BuildEvent::TerminatedSuccessfully) => (
                one_command(Command::Browser(BrowserCommand::Reload(browser))),
                State::Reloading { server, watcher },
            ),
            Event::Build(BuildEvent::TerminatedWithFailure(_)) => {
                if is_restarting {
                    (one_command(self.build_spawn()), State::BuildSpawning { server, watcher, browser })
                } else {
                    stay_in(State::Idle { server, watcher, browser })
                }
            },
            Event::Browser(BrowserEvent::CdpError) => stay_in(
                State::BuildWaiting { pid, is_restarting, server, watcher, browser },
            ),
            _ => vstd::pervasive::unreached(),
        }
    }

    fn on_reloading<S, W, B>(&self, server: Server<S>, watcher: W, event: Event<S, W, B>) -> (r: (
        Vec<Command<S, W, B>>,
        State<S, W, B>,
    ))
        requires
            step_reloading(server, watcher, event) is Some,
        ensures
            (views(r.0@), r.1) == step_reloading(server, watcher, event)->0,
    {
        match event {
            Event::Fs(FsEvent::Change(_)) => stay_in(State::Reloading { server, watcher }),
            Event::Browser(BrowserEvent::Reload(browser)) => stay_in(State::Idle { server, watcher, browser }),
            Event::Browser(BrowserEvent::ReloadError(browser)) => stay_in(
                State::Idle { server, watcher, browser },
            ),
            Event::Browser(BrowserEvent::CdpError) => stay_in(State::Reloading { server, watcher }),
            _ => vstd::pervasive::unreached(),
        }
    }

    fn on_shutting_down<S, W, B>(
        &self,
        server: ShuttingDownServerState,
        watcher: ShuttingDownWatcherState,
        event: Event<S, W, B>,
    ) -> (r: (Vec<Command<S, W, B>>, State<S, W, B>))
        requires
            step_shutting_down(server, watcher, event) is Some,
        ensures
            (views(r.0@), r.1) == step_shutting_down(server, watcher, event)->0,
    {
        let dropped = match watcher {
            ShuttingDownWatcherState::Dropped => true,
            ShuttingDownWatcherState::Spawning => false,
        };
        match event {
            Event::Fs(FsEvent::Change(_)) => stay_in(State::ShuttingDown { server, watcher }),
            Event::Browser(BrowserEvent::CdpError) => stay_in(State::ShuttingDown { server, watcher }),
            Event::Server(ServerEvent::SpawnError) => State::terminate(),
            Event::Server(ServerEvent::Spawn(new_server)) => (
                one_command(Command::Server(ServerCommand::Terminate(new_server.handle))),
                State::ShuttingDown { server: ShuttingDownServerState::Terminating, watcher },
            ),
            Event::Server(ServerEvent::TerminationError) => {
                if dropped {
                    State::terminate()
                } else {
                    stay_in(State::ShuttingDown { server, watcher })
                }
            },
            Event::Server(ServerEvent::TaskJoinError) => {
                if dropped {
                    State::terminate()
                } else {
                    stay_in(
                        State::ShuttingDown {
                            server: ShuttingDownServerState::TerminationFailed,
                            watcher,
                        },
                    )
                }
            },
            Event::Server(ServerEvent::Termination) => {
                if dropped {
                    State::terminate()
                } else {
                    stay_in(
                        State::ShuttingDown { server: ShuttingDownServerState::Terminated, watcher },
                    )
                }
            },
            Event::Fs(FsEvent::Watching(new_watcher)) => {
                let terminated = match server {
                    ShuttingDownServerState::Terminated => true,
                    _ => false,
                };
                if terminated {
                    (
                        two_commands(Command::Fs(FsCommand::Release(new_watcher)), Command::Terminate),
                        State::Terminating,
                    )
                } else {
                    (
                        one_command(Command::Fs(FsCommand::Release(new_watcher))),
                        State::ShuttingDown { server, watcher: ShuttingDownWatcherState::Dropped },
                    )
                }
            },
            _ => vstd::pervasive::unreached(),
        }
    }

    /// Whether event `event` can occur in state `state`; [`App::event_handler`]
    /// handles exactly these.
    pub fn accepts<S, W, B>(&self, state: &State<S, W, B>, event: &Event<S, W, B>) -> (r: bool)
        ensures
            r == accepts(*self, *state, *event),
    {
        match state {
            State::Blank => match event {
                Event::Init => true,
                _ => false,
            },
            State::Initializing { initial_build, server, watcher } => {
                let pending = match initial_build {
                    InitialBuildState::Pending => true,
                    InitialBuildState::Succeeded => false,
                };
                match event {
                    Event::Build(b) => match b {
                        BuildEvent::WaitError => pending && server.is_some(),
                        BuildEvent::SignalSent => false,
                        _ => pending,
                    },
                    Event::Server(ServerEvent::SpawnError) => true,
                    Event::Server(ServerEvent::Spawn(_)) => server.is_none(),
                    Event::Fs(f) => match f {
                        FsEvent::WatcherCreationError => watcher.is_none(),
                        FsEvent::Watching(_) => watcher.is_none(),
                        FsEvent::WatcherWatchError => watcher.is_none(),
                        FsEvent::EventError => watcher.is_some(),
                        FsEvent::Change(_) => true,
                    },
                    _ => false,
                }
            },
            State::SpawningBrowser { .. } => match event {
                Event::Fs(FsEvent::EventError) => true,
                Event::Fs(FsEvent::Change(_)) => true,
                Event::Browser(BrowserEvent::Spawn(_)) => true,
                Event::Browser(BrowserEvent::SpawnError) => true,
                Event::Browser(BrowserEvent::CdpError) => true,
                _ => false,
            },
            State::Idle { .. } => match event {
                Event::Fs(FsEvent::EventError) => true,
                Event::Fs(FsEvent::Change(_)) => true,
                Event::Browser(BrowserEvent::CdpError) => true,
                _ => false,
            },
            State::BuildSpawning { .. } => match event {
                Event::Fs(FsEvent::EventError) => true,
                Event::Fs(FsEvent::Change(_)) => true,
                Event::Build(BuildEvent::SpawnError) => true,
                Event::Build(BuildEvent::Spawn(_)) => true,
                Event::Build(BuildEvent::OutputLine) => true,
                Event::Browser(BrowserEvent::CdpError) => true,
                _ => false,
            },
            State::BuildWaiting { is_restarting, .. } => match event {
                Event::Fs(FsEvent::EventError) => true,
                Event::Fs(FsEvent::Change(_)) => true,
                Event::Build(BuildEvent::OutputLine) => true,
                Event::Build(BuildEvent::SignalSent) => true,
                Event::Build(BuildEvent::TerminatedSuccessfully) => !*is_restarting,
                Event::Build(BuildEvent::TerminatedWithFailure(code)) => !*is_restarting || code.is_none(),
                Event::Browser(BrowserEvent::CdpError) => true,
                _ => false,
            },
            State::Reloading { .. } => match event {
                Event::Fs(FsEvent::Change(_)) => true,
                Event::Browser(BrowserEvent::Reload(_)) => true,
                Event::Browser(BrowserEvent::ReloadError(_)) => true,
                Event::Browser(BrowserEvent::CdpError) => true,
                _ => false,
            },
            State::ShuttingDown { server, watcher } => {
                let spawning = match server {
                    ShuttingDownServerState::Spawning => true,
                    _ => false,
                };
                let terminating = match server {
                    ShuttingDownServerState::Terminating => true,
                    _ => false,
                };
                let watcher_spawning = match watcher {
                    ShuttingDownWatcherState::Spawning => true,
                    ShuttingDownWatcherState::Dropped => false,
                };
                match event {
                    Event::Fs(FsEvent::Change(_)) => true,
                    Event::Browser(BrowserEvent::CdpError) => true,
                    Event::Server(ServerEvent::SpawnError) => spawning,
                    Event::Server(ServerEvent::Spawn(_)) => spawning,
                    Event::Server(ServerEvent::TerminationError) => terminating,
                    Event::Server(ServerEvent::TaskJoinError) => terminating,
                    Event::Server(ServerEvent::Termination) => terminating,
                    Event::Fs(FsEvent::Watching(_)) => watcher_spawning,
                    _ => false,
                }
            },
            State::Terminating => match event {
                Event::Fs(FsEvent::Change(_)) => true,
                _ => false,
            },
        }
    }

    /// Carries out event `event` in state `*state`: moves to the next state
    /// and returns the commands that the event calls for, in the order in
    /// which they are to be carried out.
    pub fn event_handler<S, W, B>(&self, state: &mut State<S, W, B>, event: Event<S, W, B>) -> (r: Vec<
        Command<S, W, B>,
    >)
        requires
            accepts(*self, *old(state), event),
        ensures
            (views(r@), *final(state)) == step(*self, *old(state), event)->0,
    {
        let mut current = State::Blank;
        std::mem::swap(&mut current, state);
        let (commands, next) = match current {
            State::Blank => self.on_blank(event),
            State::Initializing { initial_build, server, watcher } => self.on_initializing(
                initial_build,
                server,
                watcher,
                event,
            ),
            State::SpawningBrowser { server, watcher } => self.on_spawning_browser(server, watcher, event),
            State::Idle { server, watcher, browser } => self.on_idle(server, watcher, browser, event),
            State::BuildSpawning { server, watcher, browser } => self.on_build_spawning(
                server,
                watcher,
                browser,
                event,
            ),
            State::BuildWaiting { pid, is_restarting, server, watcher, browser } => self.on_build_waiting(
                pid,
                is_restarting,
                server,
                watcher,
                browser,
                event,
            ),
            State::Reloading { server, watcher } => self.on_reloading(server, watcher, event),
            State::ShuttingDown { server, watcher } => self.on_shutting_down(server, watcher, event),
            State::Terminating => stay_in(State::Terminating),
        };
        *state = next;
        commands
    }
}

} // verus!
