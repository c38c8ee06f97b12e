//! Properties of the program's state machine that hold across all states and
//! events.

use crate::app::{
    accepts, build_spawn, shut_down, Server, Step, commands_after, state_after, page_url, step, App, BrowserCommandView, BuildCommandView, BuildEvent,
    BrowserEvent, CommandView, Event, FsCommand, FsEvent, InitialBuildState, ServerCommandView,
    ServerEvent, ShuttingDownServerState, ShuttingDownWatcherState, Signal, State,
};
use crate::fswatch::FsChange;
use vstd::prelude::*;

verus! {

/// Whether a build process may be running in state `s`.
pub open spec fn build_in_flight<S, W, B>(s: State<S, W, B>) -> bool {
    ||| s matches State::Initializing { initial_build: InitialBuildState::Pending, .. }
    ||| s is BuildSpawning
    ||| s is BuildWaiting
}

/// Whether `c` runs the build command.
pub open spec fn is_build_spawn<S, W, B>(c: CommandView<S, W, B>) -> bool {
    c matches CommandView::Build(BuildCommandView::Spawn { .. })
}

/// Whether `e` reports that the build process ended.
pub open spec fn is_build_end<S, W, B>(e: Event<S, W, B>) -> bool {
    ||| e matches Event::Build(BuildEvent::TerminatedSuccessfully)
    ||| e matches Event::Build(BuildEvent::TerminatedWithFailure(_))
}

/// The server that state `s` holds, if any.
pub open spec fn held_server<S, W, B>(s: State<S, W, B>) -> Option<S> {
    match s {
        State::Initializing { server, .. } => match server {
            Some(server) => Some(server.handle),
            None => None,
        },
        State::SpawningBrowser { server, .. } => Some(server.handle),
        State::Idle { server, .. } => Some(server.handle),
        State::BuildSpawning { server, .. } => Some(server.handle),
        State::BuildWaiting { server, .. } => Some(server.handle),
        State::Reloading { server, .. } => Some(server.handle),
        _ => None,
    }
}

/// The server that event `e` hands over, if any.
pub open spec fn new_server<S, W, B>(e: Event<S, W, B>) -> Option<S> {
    match e {
        Event::Server(ServerEvent::Spawn(server)) => Some(server.handle),
        _ => None,
    }
}

/// The file watcher that state `s` holds, if any.
pub open spec fn held_watcher<S, W, B>(s: State<S, W, B>) -> Option<W> {
    match s {
        State::Initializing { watcher, .. } => watcher,
        State::SpawningBrowser { watcher, .. } => Some(watcher),
        State::Idle { watcher, .. } => Some(watcher),
        State::BuildSpawning { watcher, .. } => Some(watcher),
        State::BuildWaiting { watcher, .. } => Some(watcher),
        State::Reloading { watcher, .. } => Some(watcher),
        _ => None,
    }
}

/// The file watcher that event `e` hands over, if any.
pub open spec fn new_watcher<S, W, B>(e: Event<S, W, B>) -> Option<W> {
    match e {
        Event::Fs(FsEvent::Watching(watcher)) => Some(watcher),
        _ => None,
    }
}

/// The states that the program can be in: it never waits in the
/// initialization with the initial build done and both the server and the
/// watcher up, nor in a shutdown with the server terminated and the watcher
/// released.
pub open spec fn well_formed<S, W, B>(s: State<S, W, B>) -> bool {
    &&& !(s matches State::Initializing {
        initial_build: InitialBuildState::Succeeded,
        server: Some(_),
        watcher: Some(_),
    })
    &&& !(s matches State::ShuttingDown {
        server: ShuttingDownServerState::Terminated,
        watcher: ShuttingDownWatcherState::Dropped,
    })
}

/// The program starts in a well-formed state.
pub proof fn blank_is_well_formed<S, W, B>()
    ensures
        well_formed(State::<S, W, B>::Blank),
{
}

/// Every event keeps the state well-formed.
pub proof fn step_keeps_well_formed<S, W, B>(app: App, s: State<S, W, B>, e: Event<S, W, B>)
    requires
        well_formed(s),
        accepts(app, s, e),
    ensures
        well_formed(state_after(app, s, e)),
{
}

/// The program issues `Terminate` exactly when it enters the terminating
/// state, and as its last command.
pub proof fn terminate_exactly_on_entering_terminating<S, W, B>(
    app: App,
    s: State<S, W, B>,
    e: Event<S, W, B>,
)
    requires
        accepts(app, s, e),
    ensures
        commands_after(app, s, e).contains(CommandView::Terminate) <==> (state_after(app, s, e) is Terminating
            && !(s is Terminating)),
        commands_after(app, s, e).contains(CommandView::Terminate) ==> commands_after(app, s, e).last()
            == CommandView::<S, W, B>::Terminate,
{
    let cmds = commands_after(app, s, e);
    if state_after(app, s, e) is Terminating && !(s is Terminating) {
        assert(cmds[cmds.len() - 1] == CommandView::<S, W, B>::Terminate);
    }
}

/// Once terminating, the program stays so and issues nothing more.
pub proof fn terminating_is_final<S, W, B>(app: App, e: Event<S, W, B>)
    requires
        accepts(app, State::Terminating, e),
    ensures
        step(app, State::Terminating, e) == Some((Seq::<CommandView<S, W, B>>::empty(), State::<S, W, B>::Terminating)),
{
}

/// The build command is run only when no build is in flight, or when the
/// event reports that the build in flight has ended; one build at most is
/// started, always the configured build command with the served directory in
/// its environment, and afterwards a build is in flight.
pub proof fn one_build_at_a_time<S, W, B>(app: App, s: State<S, W, B>, e: Event<S, W, B>, i: int)
    requires
        accepts(app, s, e),
        0 <= i < commands_after(app, s, e).len(),
        is_build_spawn(commands_after(app, s, e)[i]),
    ensures
        !build_in_flight(s) || is_build_end(e),
        commands_after(app, s, e)[i] == build_spawn::<S, W, B>(app),
        build_in_flight(state_after(app, s, e)),
        forall|j: int|
            0 <= j < commands_after(app, s, e).len() && is_build_spawn(#[trigger] commands_after(app, s, e)[j])
                ==> j == i,
{
}

/// A change of a path that git ignores does nothing.
pub proof fn ignored_change_does_nothing<S, W, B>(app: App, s: State<S, W, B>, e: Event<S, W, B>)
    requires
        accepts(app, s, e),
        e matches Event::Fs(FsEvent::Change(c)) && c.is_ignored,
    ensures
        step(app, s, e) == Some((Seq::<CommandView<S, W, B>>::empty(), s)),
{
}

/// While idle, a change of the sources runs the build command, with the
/// served directory in its environment.
pub proof fn change_when_idle_runs_build<S, W, B>(app: App, s: State<S, W, B>, e: Event<S, W, B>)
    requires
        s is Idle,
        e matches Event::Fs(FsEvent::Change(c)) && !c.is_ignored,
    ensures
        accepts(app, s, e),
        commands_after(app, s, e) == seq![build_spawn::<S, W, B>(app)],
        build_spawn::<S, W, B>(app) == CommandView::<S, W, B>::Build(
            BuildCommandView::Spawn {
                path: app.build_command_path,
                envs: seq![("SERVE_PATH"@, app.serve_path@)],
            },
        ),
        state_after(app, s, e) is BuildSpawning,
{
}

/// A build that succeeds reloads the page, unless it was being restarted.
pub proof fn successful_build_reloads<S, W, B>(app: App, s: State<S, W, B>)
    requires
        s matches State::BuildWaiting { is_restarting, .. } && !is_restarting,
    ensures
        accepts(app, s, Event::Build(BuildEvent::TerminatedSuccessfully)),
        commands_after(app, s, Event::Build(BuildEvent::TerminatedSuccessfully)) == seq![
            CommandView::<S, W, B>::Browser(BrowserCommandView::Reload(s->BuildWaiting_browser)),
        ],
        state_after(app, s, Event::Build(BuildEvent::TerminatedSuccessfully)) is Reloading,
{
}

/// A change while a build runs sends that build SIGTERM once; further changes
/// before it ends do nothing, and its end by the signal runs the build
/// afresh.
pub proof fn change_during_build_restarts_it<S, W, B>(app: App, s: State<S, W, B>, e: Event<S, W, B>)
    requires
        s is BuildWaiting,
        e matches Event::Fs(FsEvent::Change(c)) && !c.is_ignored,
    ensures
        accepts(app, s, e),
        !s->is_restarting ==> commands_after(app, s, e) == seq![
            CommandView::<S, W, B>::Build(BuildCommandView::Signal(s->pid, Signal::Sigterm)),
        ],
        state_after(app, s, e) matches State::BuildWaiting { pid, is_restarting, .. } && pid == s->pid
            && is_restarting,
        s->is_restarting ==> commands_after(app, s, e).len() == 0,
        s->is_restarting ==> commands_after(
            app,
            s,
            Event::Build(BuildEvent::TerminatedWithFailure(None)),
        ) == seq![build_spawn::<S, W, B>(app)],
{
}

/// What a sequence of events does from state `s`: all the commands, in
/// order, and the final state; `None` where one of the events cannot occur.
pub open spec fn run<S, W, B>(app: App, s: State<S, W, B>, es: Seq<Event<S, W, B>>) -> Option<
    Step<S, W, B>,
>
    decreases es.len(),
{
    if es.len() == 0 {
        Some((Seq::empty(), s))
    } else {
        match step(app, s, es[0]) {
            None => None,
            Some((commands, next)) => match run(app, next, es.drop_first()) {
                None => None,
                Some((more, last)) => Some((commands + more, last)),
            },
        }
    }
}

/// The commands that the events `es` call for from `s`.
pub open spec fn run_commands<S, W, B>(app: App, s: State<S, W, B>, es: Seq<Event<S, W, B>>) -> Seq<
    CommandView<S, W, B>,
> {
    match run(app, s, es) {
        Some((commands, _)) => commands,
        None => Seq::empty(),
    }
}

/// The events `es` can all occur from `s`, and they end in termination with
/// `Terminate` as the last command.
pub open spec fn ends_terminated<S, W, B>(app: App, s: State<S, W, B>, es: Seq<Event<S, W, B>>) -> bool {
    run(app, s, es) matches Some((commands, last)) && last is Terminating && commands.len() > 0
        && commands.last() == CommandView::<S, W, B>::Terminate
}

/// The events `es` from `s` release watcher `w`.
pub open spec fn releases<S, W, B>(app: App, s: State<S, W, B>, es: Seq<Event<S, W, B>>, w: W) -> bool {
    run(app, s, es) matches Some((commands, _)) && commands.contains(
        CommandView::<S, W, B>::Fs(FsCommand::Release(w)),
    )
}

/// Whether `e` reports how the server's termination went.
pub open spec fn is_server_end<S, W, B>(e: Event<S, W, B>) -> bool {
    ||| e == Event::<S, W, B>::Server(ServerEvent::Termination)
    ||| e == Event::<S, W, B>::Server(ServerEvent::TerminationError)
    ||| e == Event::<S, W, B>::Server(ServerEvent::TaskJoinError)
}

/// A shutdown begun by [`shut_down`] ends in termination, and releases every
/// watcher that arrives meanwhile, in each of these orders of the events that
/// can still come: the server's spawn (if it was still being spawned), how its
/// termination went (`ended`: normally, with an error, or with a failed join),
/// and the watcher (if it was still being created) arriving before that; also
/// a normal termination before the watcher arrives, and a server spawn failure
/// after it. (A server spawn failure before the watcher arrives terminates at
/// once, and the watcher can then no longer come; for an error before the
/// watcher arrives, see [`shutdown_stuck_after_server_error`].)
pub proof fn shutdown_terminates<S, W, B>(
    app: App,
    server: Option<Server<S>>,
    watcher: Option<W>,
    spawned: Server<S>,
    w: W,
    ended: Event<S, W, B>,
)
    requires
        is_server_end(ended),
    ensures
        ({
            let s = shut_down::<S, W, B>(server, watcher).1;
            let terminated = Event::<S, W, B>::Server(ServerEvent::Termination);
            let spawn = Event::<S, W, B>::Server(ServerEvent::Spawn(spawned));
            let failed = Event::<S, W, B>::Server(ServerEvent::SpawnError);
            let arrived = Event::<S, W, B>::Fs(FsEvent::Watching(w));
            &&& server is Some && watcher is Some ==> ends_terminated(app, s, seq![ended])
            &&& server is Some && watcher is None ==> ends_terminated(app, s, seq![arrived, ended])
                && releases(app, s, seq![arrived, ended], w) && ends_terminated(
                app,
                s,
                seq![terminated, arrived],
            ) && releases(app, s, seq![terminated, arrived], w)
            &&& server is None && watcher is Some ==> ends_terminated(app, s, seq![spawn, ended])
                && ends_terminated(app, s, seq![failed])
            &&& server is None && watcher is None ==> ends_terminated(
                app,
                s,
                seq![spawn, arrived, ended],
            ) && releases(app, s, seq![spawn, arrived, ended], w) && ends_terminated(
                app,
                s,
                seq![arrived, spawn, ended],
            ) && releases(app, s, seq![arrived, spawn, ended], w) && ends_terminated(
                app,
                s,
                seq![arrived, failed],
            ) && releases(app, s, seq![arrived, failed], w) && ends_terminated(
                app,
                s,
                seq![spawn, terminated, arrived],
            ) && releases(app, s, seq![spawn, terminated, arrived], w)
        }),
{
    reveal_with_fuel(run, 4);
    let s = shut_down::<S, W, B>(server, watcher).1;
    let terminated = Event::<S, W, B>::Server(ServerEvent::Termination);
    let spawn = Event::<S, W, B>::Server(ServerEvent::Spawn(spawned));
    let failed = Event::<S, W, B>::Server(ServerEvent::SpawnError);
    let arrived = Event::<S, W, B>::Fs(FsEvent::Watching(w));
    let release = CommandView::<S, W, B>::Fs(FsCommand::Release(w));
    assert(seq![terminated, arrived].drop_first() =~= seq![arrived]);
    assert(seq![arrived, ended].drop_first() =~= seq![ended]);
    assert(seq![spawn, ended].drop_first() =~= seq![ended]);
    assert(seq![arrived, failed].drop_first() =~= seq![failed]);
    assert(seq![spawn, terminated, arrived].drop_first() =~= seq![terminated, arrived]);
    assert(seq![spawn, arrived, ended].drop_first() =~= seq![arrived, ended]);
    assert(seq![arrived, spawn, ended].drop_first() =~= seq![spawn, ended]);
    if server is Some && watcher is None {
        let c1 = run_commands(app, s, seq![terminated, arrived]);
        assert(c1[0] == release);
        let c2 = run_commands(app, s, seq![arrived, ended]);
        assert(c2[0] == release);
    }
    if server is None && watcher is None {
        let c1 = run_commands(app, s, seq![spawn, terminated, arrived]);
        assert(c1[1] == release);
        let c2 = run_commands(app, s, seq![spawn, arrived, ended]);
        assert(c2[1] == release);
        let c3 = run_commands(app, s, seq![arrived, spawn, ended]);
        assert(c3[0] == release);
        let c4 = run_commands(app, s, seq![arrived, failed]);
        assert(c4[0] == release);
    }
}

/// A shutdown never terminates where the server's termination fails (with an
/// error, or with a failed join) before the watcher that was still being
/// created arrives: the watcher is released, but no `Terminate` is issued
/// and the program stays shutting down; after a failed join it accepts no
/// event of the server any more.
pub proof fn shutdown_stuck_after_server_error<S, W, B>(
    app: App,
    server: Server<S>,
    w: W,
    error: Event<S, W, B>,
    later: ServerEvent<S>,
)
    requires
        error == Event::<S, W, B>::Server(ServerEvent::TerminationError) || error == Event::<
            S,
            W,
            B,
        >::Server(ServerEvent::TaskJoinError),
    ensures
        ({
            let s = shut_down::<S, W, B>(Some(server), None).1;
            let arrived = Event::<S, W, B>::Fs(FsEvent::Watching(w));
            &&& run(app, s, seq![error, arrived]) matches Some((commands, last)) && last is ShuttingDown
                && commands == seq![CommandView::<S, W, B>::Fs(FsCommand::Release(w))]
            &&& error == Event::<S, W, B>::Server(ServerEvent::TaskJoinError) ==> !accepts(
                app,
                state_after(app, state_after(app, s, error), arrived),
                Event::Server(later),
            )
        }),
{
    reveal_with_fuel(run, 3);
    let arrived = Event::<S, W, B>::Fs(FsEvent::Watching(w));
    assert(seq![error, arrived].drop_first() =~= seq![arrived]);
    assert(seq![arrived].drop_first() =~= Seq::<Event<S, W, B>>::empty());
    let s = shut_down::<S, W, B>(Some(server), None).1;
    let c = run_commands(app, s, seq![error, arrived]);
    assert(c =~= seq![CommandView::<S, W, B>::Fs(FsCommand::Release(w))]);
}

/// The page is reloaded only when the build in flight has succeeded, and it
/// was not being restarted.
pub proof fn reload_only_after_success<S, W, B>(app: App, s: State<S, W, B>, e: Event<S, W, B>, i: int)
    requires
        accepts(app, s, e),
        0 <= i < commands_after(app, s, e).len(),
        commands_after(app, s, e)[i] matches CommandView::Browser(BrowserCommandView::Reload(_)),
    ensures
        s matches State::BuildWaiting { is_restarting, .. } && !is_restarting,
        e == Event::<S, W, B>::Build(BuildEvent::TerminatedSuccessfully),
{
}

/// SIGTERM is only ever sent to the build process in flight, and only once a
/// change asks for a restart.
pub proof fn sigterm_only_to_running_build<S, W, B>(
    app: App,
    s: State<S, W, B>,
    e: Event<S, W, B>,
    i: int,
)
    requires
        accepts(app, s, e),
        0 <= i < commands_after(app, s, e).len(),
        commands_after(app, s, e)[i] matches CommandView::Build(BuildCommandView::Signal(_, _)),
    ensures
        s matches State::BuildWaiting { pid, is_restarting, .. } && !is_restarting
            && commands_after(app, s, e)[i] == CommandView::<S, W, B>::Build(
            BuildCommandView::Signal(pid, Signal::Sigterm),
        ),
        e matches Event::Fs(FsEvent::Change(c)) && !c.is_ignored,
{
}

/// The browser is launched only during the initialization, once the initial
/// build has succeeded and both the server and the watcher are up, and it
/// is pointed at the server's address.
pub proof fn browser_launched_when_ready<S, W, B>(
    app: App,
    s: State<S, W, B>,
    e: Event<S, W, B>,
    i: int,
)
    requires
        accepts(app, s, e),
        0 <= i < commands_after(app, s, e).len(),
        commands_after(app, s, e)[i] is Browser,
        commands_after(app, s, e)[i]->Browser_0 is Spawn,
    ensures
        s matches State::Initializing { initial_build, .. } && (initial_build
            == InitialBuildState::Succeeded || e == Event::<S, W, B>::Build(
            BuildEvent::TerminatedSuccessfully,
        )),
        state_after(app, s, e) matches State::SpawningBrowser { server, .. } && commands_after(app, s, e)[i]->Browser_0->url == page_url(server),
{
}

/// A server that the program stops holding is told to terminate, and only
/// such a server is.
pub proof fn servers_are_terminated_when_let_go<S, W, B>(
    app: App,
    s: State<S, W, B>,
    e: Event<S, W, B>,
    h: S,
)
    requires
        accepts(app, s, e),
    ensures
        (held_server(s) == Some(h) || new_server(e) == Some(h)) ==> (held_server(state_after(app, s, e))
            == Some(h) || commands_after(app, s, e).contains(
            CommandView::<S, W, B>::Server(ServerCommandView::Terminate(h)),
        )),
        commands_after(app, s, e).contains(CommandView::<S, W, B>::Server(ServerCommandView::Terminate(h)))
            ==> (held_server(s) == Some(h) || new_server(e) == Some(h)),
{
    let cmds = commands_after(app, s, e);
    let next = state_after(app, s, e);
    let terminate = CommandView::<S, W, B>::Server(ServerCommandView::Terminate(h));
    if cmds.contains(terminate) {
        let i = choose|i: int| 0 <= i < cmds.len() && cmds[i] == terminate;
        assert(cmds[i] == terminate);
    }
    if (held_server(s) == Some(h) || new_server(e) == Some(h)) && held_server(next) != Some(h) {
        assert(cmds[0] == terminate);
    }
}

/// A file watcher that the program stops holding is released, and only such a
/// watcher is.
pub proof fn watchers_are_released_when_let_go<S, W, B>(
    app: App,
    s: State<S, W, B>,
    e: Event<S, W, B>,
    w: W,
)
    requires
        accepts(app, s, e),
    ensures
        (held_watcher(s) == Some(w) || new_watcher(e) == Some(w)) ==> (held_watcher(state_after(app, s, e))
            == Some(w) || commands_after(app, s, e).contains(
            CommandView::<S, W, B>::Fs(FsCommand::Release(w)),
        )),
        commands_after(app, s, e).contains(CommandView::<S, W, B>::Fs(FsCommand::Release(w))) ==> (
        held_watcher(s) == Some(w) || new_watcher(e) == Some(w)),
{
    let cmds = commands_after(app, s, e);
    let next = state_after(app, s, e);
    let release = CommandView::<S, W, B>::Fs(FsCommand::Release(w));
    if cmds.contains(release) {
        let i = choose|i: int| 0 <= i < cmds.len() && cmds[i] == release;
        assert(cmds[i] == release);
    }
    if (held_watcher(s) == Some(w) || new_watcher(e) == Some(w)) && held_watcher(next) != Some(w) {
        assert(cmds[cmds.len() - 1] == release || cmds[0] == release);
    }
}

/// In testing mode, the program reports its state once the browser is up:
/// the served directory, the server's port and the browser's process id and
/// debugging address.
pub proof fn state_reported_when_browser_up<S, W, B>(app: App, s: State<S, W, B>, e: Event<S, W, B>)
    requires
        app.testing_mode,
        s is SpawningBrowser,
        e matches Event::Browser(BrowserEvent::Spawn(_)),
    ensures
        accepts(app, s, e),
        commands_after(app, s, e).len() == 1,
        commands_after(app, s, e)[0] matches CommandView::PrintStateForTesting(report) && report.serve_path
            == app.serve_path@ && report.serve_port == s->SpawningBrowser_server.port
            && report.browser_pid == e->Browser_0->Spawn_0.pid
            && report.browser_debugging_address == e->Browser_0->Spawn_0.debugging_address@,
        state_after(app, s, e) is Idle,
{
}

/// Every state but the first takes every change of the sources. Outside the
/// idle state and a running build, a change does nothing: no command, and
/// the same state.
pub proof fn changes_are_taken_in_every_state_but_blank<S, W, B>(
    app: App,
    s: State<S, W, B>,
    c: FsChange,
)
    requires
        !(s is Blank),
    ensures
        accepts(app, s, Event::Fs(FsEvent::Change(c))),
        !(s is Idle) && !(s is BuildWaiting) ==> step(app, s, Event::Fs(FsEvent::Change(c))) == Some(
            (Seq::<CommandView<S, W, B>>::empty(), s),
        ),
{
}

/// Once the initial build has succeeded and both the server and the watcher
/// are up, whichever of the three came last, the browser is launched at
/// `http://` followed by the server's address, and nothing else is done.
pub proof fn browser_launched_once_all_are_up<S, W, B>(app: App, server: Server<S>, watcher: W)
    ensures
        ({
            let launched = Some(
                (
                    seq![
                        CommandView::<S, W, B>::Browser(
                            BrowserCommandView::Spawn { url: "http://"@ + server.address@ },
                        ),
                    ],
                    State::<S, W, B>::SpawningBrowser { server, watcher },
                ),
            );
            &&& step(
                app,
                State::<S, W, B>::Initializing {
                    initial_build: InitialBuildState::Succeeded,
                    server: Some(server),
                    watcher: None,
                },
                Event::Fs(FsEvent::Watching(watcher)),
            ) == launched
            &&& step(
                app,
                State::<S, W, B>::Initializing {
                    initial_build: InitialBuildState::Succeeded,
                    server: None,
                    watcher: Some(watcher),
                },
                Event::Server(ServerEvent::Spawn(server)),
            ) == launched
            &&& step(
                app,
                State::<S, W, B>::Initializing {
                    initial_build: InitialBuildState::Pending,
                    server: Some(server),
                    watcher: Some(watcher),
                },
                Event::Build(BuildEvent::TerminatedSuccessfully),
            ) == launched
        }),
{
}

/// From the start, the initial build's success, the server's spawn and the
/// watcher's arrival, in any of their six orders, run the build command, spawn
/// the server on the served directory, watch the project root, and then
/// launch the browser at `http://` followed by the server's address.
pub proof fn start_up_launches_browser<S, W, B>(
    app: App,
    server: Server<S>,
    watcher: W,
    order: Seq<Event<S, W, B>>,
)
    requires
        ({
            let built = Event::<S, W, B>::Build(BuildEvent::TerminatedSuccessfully);
            let served = Event::<S, W, B>::Server(ServerEvent::Spawn(server));
            let watched = Event::<S, W, B>::Fs(FsEvent::Watching(watcher));
            ||| order == seq![built, served, watched]
            ||| order == seq![built, watched, served]
            ||| order == seq![served, built, watched]
            ||| order == seq![served, watched, built]
            ||| order == seq![watched, built, served]
            ||| order == seq![watched, served, built]
        }),
    ensures
        run(app, State::<S, W, B>::Blank, seq![Event::<S, W, B>::Init] + order) == Some(
            (
                seq![
                    CommandView::<S, W, B>::Build(
                        BuildCommandView::Spawn {
                            path: app.build_command_path,
                            envs: seq![("SERVE_PATH"@, app.serve_path@)],
                        },
                    ),
                    CommandView::<S, W, B>::Server(ServerCommandView::Spawn(app.serve_path@)),
                    CommandView::<S, W, B>::Fs(FsCommand::Init(app.project_root)),
                    CommandView::<S, W, B>::Browser(
                        BrowserCommandView::Spawn { url: "http://"@ + server.address@ },
                    ),
                ],
                State::<S, W, B>::SpawningBrowser { server, watcher },
            ),
        ),
{
    reveal_with_fuel(run, 5);
    let es = seq![Event::<S, W, B>::Init] + order;
    assert(es.drop_first() =~= order);
    assert(order.drop_first().drop_first().drop_first() =~= Seq::<Event<S, W, B>>::empty());
    let r = run(app, State::<S, W, B>::Blank, es);
    assert(r matches Some((commands, _)) && commands =~= seq![
        CommandView::<S, W, B>::Build(
            BuildCommandView::Spawn {
                path: app.build_command_path,
                envs: seq![("SERVE_PATH"@, app.serve_path@)],
            },
        ),
        CommandView::<S, W, B>::Server(ServerCommandView::Spawn(app.serve_path@)),
        CommandView::<S, W, B>::Fs(FsCommand::Init(app.project_root)),
        CommandView::<S, W, B>::Browser(BrowserCommandView::Spawn { url: "http://"@ + server.address@ }),
    ]);
}

/// Once the browser is up, a failure to spawn the build command shuts the
/// program down: the server is told to terminate, the watcher is released,
/// and the program waits for the server to end. A failure to launch the
/// browser does the same.
pub proof fn vital_failure_after_start_up_shuts_down<S, W, B>(
    app: App,
    server: Server<S>,
    watcher: W,
    browser: B,
)
    ensures
        ({
            let stopping = Some(
                (
                    seq![
                        CommandView::<S, W, B>::Server(ServerCommandView::Terminate(server.handle)),
                        CommandView::<S, W, B>::Fs(FsCommand::Release(watcher)),
                    ],
                    State::<S, W, B>::ShuttingDown {
                        server: ShuttingDownServerState::Terminating,
                        watcher: ShuttingDownWatcherState::Dropped,
                    },
                ),
            );
            &&& step(
                app,
                State::<S, W, B>::BuildSpawning { server, watcher, browser },
                Event::Build(BuildEvent::SpawnError),
            ) == stopping
            &&& step(
                app,
                State::<S, W, B>::SpawningBrowser { server, watcher },
                Event::Browser(BrowserEvent::SpawnError),
            ) == stopping
        }),
{
    let s = shut_down::<S, W, B>(Some(server), Some(watcher));
    assert(s.0 =~= seq![
        CommandView::<S, W, B>::Server(ServerCommandView::Terminate(server.handle)),
        CommandView::<S, W, B>::Fs(FsCommand::Release(watcher)),
    ]);
}

/// Whether `e` is a failure that ends the initialization: the initial build
/// could not be spawned, failed, or could not be waited for once the server
/// is up; the server could not be spawned; or the watcher could not be
/// created or could not watch.
pub open spec fn is_initialization_failure<S, W, B>(
    initial_build: InitialBuildState,
    server: Option<Server<S>>,
    watcher: Option<W>,
    e: Event<S, W, B>,
) -> bool {
    ||| initial_build == InitialBuildState::Pending && e == Event::<S, W, B>::Build(BuildEvent::SpawnError)
    ||| initial_build == InitialBuildState::Pending && e matches Event::Build(BuildEvent::TerminatedWithFailure(_))
    ||| initial_build == InitialBuildState::Pending && server is Some && e == Event::<S, W, B>::Build(BuildEvent::WaitError)
    ||| e == Event::<S, W, B>::Server(ServerEvent::SpawnError)
    ||| watcher is None && e == Event::<S, W, B>::Fs(FsEvent::WatcherCreationError)
    ||| watcher is None && e == Event::<S, W, B>::Fs(FsEvent::WatcherWatchError)
}

/// A failure during the initialization shuts the program down: the server is
/// told to terminate if it is up, and the watcher is released if it is up;
/// the shutdown then waits for the server to end (if it was up) or to come
/// up (if not), and for the watcher to come up if it was not.
pub proof fn initialization_failure_shuts_down<S, W, B>(
    app: App,
    initial_build: InitialBuildState,
    server: Option<Server<S>>,
    watcher: Option<W>,
    e: Event<S, W, B>,
)
    requires
        is_initialization_failure(initial_build, server, watcher, e),
    ensures
        step(app, State::Initializing { initial_build, server, watcher }, e) matches Some((commands, next)) && ({
            &&& next == State::<S, W, B>::ShuttingDown {
                server: if server is Some {
                    ShuttingDownServerState::Terminating
                } else {
                    ShuttingDownServerState::Spawning
                },
                watcher: if watcher is Some {
                    ShuttingDownWatcherState::Dropped
                } else {
                    ShuttingDownWatcherState::Spawning
                },
            }
            &&& server is Some && watcher is Some ==> commands == seq![
                CommandView::<S, W, B>::Server(ServerCommandView::Terminate(server->0.handle)),
                CommandView::<S, W, B>::Fs(FsCommand::Release(watcher->0)),
            ]
            &&& server is Some && watcher is None ==> commands == seq![
                CommandView::<S, W, B>::Server(ServerCommandView::Terminate(server->0.handle)),
            ]
            &&& server is None && watcher is Some ==> commands == seq![
                CommandView::<S, W, B>::Fs(FsCommand::Release(watcher->0)),
            ]
            &&& server is None && watcher is None ==> commands.len() == 0
        }),
{
    let s = shut_down::<S, W, B>(server, watcher);
    if server is Some && watcher is Some {
        assert(s.0 =~= seq![
            CommandView::<S, W, B>::Server(ServerCommandView::Terminate(server->0.handle)),
            CommandView::<S, W, B>::Fs(FsCommand::Release(watcher->0)),
        ]);
    } else if server is Some {
        assert(s.0 =~= seq![
            CommandView::<S, W, B>::Server(ServerCommandView::Terminate(server->0.handle)),
        ]);
    } else if watcher is Some {
        assert(s.0 =~= seq![CommandView::<S, W, B>::Fs(FsCommand::Release(watcher->0))]);
    }
}

} // verus!
