//! The commands of the program that installs and runs the service.

use crate::service::SERVICE_NAME;
use crate::text::joined;
use vstd::prelude::*;

verus! {

/// What the program is asked to do with the service.
#[derive(Clone, Copy, Debug, PartialEq, Eq, Structural)]
pub enum Commands {
    /// Install the service (admin required)
    Install,
    /// Uninstall the service (admin required)
    Uninstall,
    /// Start the service
    Start,
    /// Stop the service
    Stop,
}

/// The command line of the program.
#[derive(Clone, Copy, Debug, PartialEq, Eq, Structural)]
pub struct Cli {
    pub command: Commands,
}

/// The line that tells that a command was carried out.
pub open spec fn confirmation(command: Commands) -> Seq<char> {
    match command {
        Commands::Install => "Service installed: "@ + SERVICE_NAME@,
        Commands::Uninstall => "Service uninstalled: "@ + SERVICE_NAME@,
        Commands::Start => "Service started: "@ + SERVICE_NAME@,
        Commands::Stop => "Service stopped: "@ + SERVICE_NAME@,
    }
}

impl Commands {
    /// Writes the line that tells that the command was carried out.
    pub fn confirm(self) -> (line: String)
        ensures
            line@ == confirmation(self),
    {
        match self {
            Commands::Install => joined("Service installed: ", SERVICE_NAME),
            Commands::Uninstall => joined("Service uninstalled: ", SERVICE_NAME),
            Commands::Start => joined("Service started: ", SERVICE_NAME),
            Commands::Stop => joined("Service stopped: ", SERVICE_NAME),
        }
    }
}

} // verus!
