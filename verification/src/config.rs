//! The settings of the service.

use crate::text::{decimal, decimal_text};
use vstd::prelude::*;

verus! {

/// Where the service writes what went wrong.
#[derive(Debug, PartialEq, Eq)]
pub struct Log {
    pub path: String,
}

/// Whether the program runs as a service of the host.
#[derive(Clone, Copy, Debug, PartialEq, Eq, Structural)]
pub struct AsService {
    pub active: bool,
}

/// Where the service listens.
#[derive(Clone, Copy, Debug, PartialEq, Eq, Structural)]
pub struct Host {
    pub port: u16,
}

/// The settings, as the program is given them when it starts.
#[derive(Debug, PartialEq, Eq)]
pub struct Config {
    pub log: Log,
    pub service: AsService,
    pub host: Host,
}

/// The arguments that the service is started with: the path of the log,
/// then the port in decimal notation.
pub open spec fn launch_arguments(log: Seq<char>, port: u16) -> Seq<Seq<char>> {
    seq![log, decimal(port as nat)]
}

impl Config {
    /// The arguments to start the service with.
    pub fn service_arguments(&self) -> (arguments: Vec<String>)
        ensures
            arguments.deep_view() == launch_arguments(self.log.path@, self.host.port),
    {
        let mut arguments: Vec<String> = Vec::new();
        arguments.push(self.log.path.clone());
        arguments.push(decimal_text(self.host.port as u64));
        assert(arguments.deep_view() =~= launch_arguments(self.log.path@, self.host.port));
        arguments
    }
}

} // verus!
