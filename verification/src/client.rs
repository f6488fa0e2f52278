use vstd::prelude::*;

use crate::config::ConfigModel;
use crate::config::InfiniConfig;

use std::io::Write;

verus! {

/// The InifinidashError type represents an error that occurs when making
/// an AWS API call.
///
/// The whole taxonomy is deliberately inert: no operation here can fail,
/// so no code constructs any of these variants. It is kept for the shape
/// of the interface, not omitted by oversight.
#[derive(Debug, Eq, PartialEq, Copy, Clone, Hash)]
pub enum InifinidashError {
    /// The operation failed.
    Error,
    /// The operation timed out.
    Timeout,
    /// The operation was canceled.
    Canceled,
    /// The operation was interrupted.
    Interrupted,
}

/// Relies on std::io::Stdout::write_fmt (reached through `writeln!`):
/// writes the line and a newline to standard output. A write error is
/// discarded: the run path has no failure semantics to report it on.
#[verifier::external_body]
fn print_line(s: &str) {
    let _ = writeln!(std::io::stdout(), "{}", s);
}

pub struct Application();

impl Application {
    /// Run the application on the Infinidash infrastructure. No field of
    /// the configuration is read on this path, and it cannot fail.
    pub fn run(config: InfiniConfig) -> (r: Result<(), InifinidashError>)
        ensures
            r == Ok::<(), InifinidashError>(()),
    {
        Backend::with_app(config).run()
    }
}

pub struct Backend {
    /// The InfiniDash client.
    infini: Client,
}

impl View for Backend {
    type V = ConfigModel;

    closed spec fn view(&self) -> ConfigModel {
        self.infini@
    }
}

impl Backend {
    /// Wrap a configuration in a backend holding a client for it.
    pub fn with_app(config: InfiniConfig) -> (r: Backend)
        ensures
            r@ == config@,
    {
        Backend { infini: Client::new(config) }
    }

    /// The one fixed line the run path writes to standard output.
    pub fn greeting() -> (r: String)
        ensures
            r@ == "Hello world!"@,
    {
        "Hello world!".to_string()
    }

    /// Run the backend: print the greeting and report success.
    pub fn run(&mut self) -> (r: Result<(), InifinidashError>)
        ensures
            r == Ok::<(), InifinidashError>(()),
            *final(self) == *old(self),
    {
        let line: String = Backend::greeting();
        print_line(line.as_str());
        Ok(())
    }
}

pub struct Client {
    /// The InfiniDash client configuration.
    #[allow(dead_code)]
    config: InfiniConfig,
}

impl View for Client {
    type V = ConfigModel;

    closed spec fn view(&self) -> ConfigModel {
        self.config@
    }
}

impl Client {
    /// Create a new InfiniDash client.
    pub fn new(config: InfiniConfig) -> (r: Client)
        ensures
            r@ == config@,
    {
        Client { config }
    }
}

} // verus!
