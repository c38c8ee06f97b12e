//! Decision logic of a development server: it watches the sources of a
//! project, runs its build command on each change, serves the build output
//! over HTTP and reloads a browser page once a build succeeds.
//!
//! Everything that touches the operating system (processes, sockets, file
//! watching, the browser) lives outside this library; the library decides
//! what to do next and hands plain commands back.

pub mod app;
pub mod browser;
pub mod cli;
pub mod control;
pub mod project_path;
pub mod fswatch;
pub mod laws;
pub mod pathbuf;

use vstd::prelude::*;

verus! {

/// Name of the environment variable under which the program prints its
/// state for an end-to-end test harness.
pub const TESTING_MODE: &'static str = "_TESTING_MODE";

/// What the program reports to a test harness once the browser is up.
#[derive(Debug)]
pub struct StateForTesting {
    pub serve_path: String,
    pub serve_port: u16,
    pub browser_debugging_address: String,
    pub browser_pid: u32,
}

impl StateForTesting {
    /// Name of the environment variable that asks for the state to be
    /// printed.
    pub const ENV_VAR: &'static str = "_PRINT_STATE_FOR_TESTING";
}

/// The mathematical content of a [`StateForTesting`].
pub struct StateForTestingView {
    pub serve_path: Seq<char>,
    pub serve_port: u16,
    pub browser_debugging_address: Seq<char>,
    pub browser_pid: u32,
}

impl View for StateForTesting {
    type V = StateForTestingView;

    open spec fn view(&self) -> StateForTestingView {
        StateForTestingView {
            serve_path: self.serve_path@,
            serve_port: self.serve_port,
            browser_debugging_address: self.browser_debugging_address@,
            browser_pid: self.browser_pid,
        }
    }
}

} // verus!
