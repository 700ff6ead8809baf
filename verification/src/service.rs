//! The service as the host's service manager sees it: the arguments it is
//! started with, the states it reports, and its answers to the manager.

use crate::config::launch_arguments;
use crate::text::{decimal, joined};
use vstd::prelude::*;

verus! {

/// The name under which the service is registered.
pub const SERVICE_NAME: &'static str = "Heim";

/// The name that the service manager shows.
pub const SERVICE_DISPLAY_NAME: &'static str = "Heim REST API (Windows Service)";

/// The description of the service.
pub const SERVICE_DESCRIPTION: &'static str = "Heim running as a Windows Service";

/// What the service was started with.
#[derive(Debug, PartialEq, Eq)]
pub struct ServiceArguments {
    /// The path of the file that takes what went wrong.
    pub log: String,
    /// The port to listen on, as text.
    pub port: String,
}

/// What a list of arguments says: the first is the log, the second the
/// port. A shorter list says nothing.
pub open spec fn read_arguments(arguments: Seq<Seq<char>>) -> Option<(Seq<char>, Seq<char>)> {
    if arguments.len() >= 2 {
        Some((arguments[0], arguments[1]))
    } else {
        None
    }
}

/// The address that the service listens on: the host itself, at the port.
pub open spec fn local_address(port: Seq<char>) -> Seq<char> {
    "127.0.0.1:"@ + port
}

impl ServiceArguments {
    /// Reads the arguments that the service was started with.
    pub fn read(arguments: &Vec<String>) -> (found: Option<ServiceArguments>)
        ensures
            match found {
                Some(read) => read_arguments(arguments.deep_view()) == Some((read.log@, read.port@)),
                None => read_arguments(arguments.deep_view()) is None,
            },
    {
        if arguments.len() >= 2 {
            assert(arguments.deep_view()[0] == arguments@[0]@);
            assert(arguments.deep_view()[1] == arguments@[1]@);
            Some(ServiceArguments { log: arguments[0].clone(), port: arguments[1].clone() })
        } else {
            None
        }
    }

    /// The address to listen on.
    pub fn address(&self) -> (address: String)
        ensures
            address@ == local_address(self.port@),
    {
        joined("127.0.0.1:", self.port.as_str())
    }
}

/// The arguments that the service is launched with are read back as the
/// path of the log and the port.
pub proof fn lemma_arguments_round_trip(log: Seq<char>, port: u16)
    ensures
        read_arguments(launch_arguments(log, port)) == Some((log, decimal(port as nat))),
{
}

/// What the service manager may ask of the service.
#[derive(Clone, Copy, Debug, PartialEq, Eq, Structural)]
pub enum Control {
    /// Report the state.
    Interrogate,
    /// Stop.
    Stop,
    /// Anything else.
    Other,
}

/// The answer to the service manager.
#[derive(Clone, Copy, Debug, PartialEq, Eq, Structural)]
pub enum ControlAnswer {
    NoError,
    NotImplemented,
}

/// How a request of the service manager is answered, and whether the
/// service is to stop on it.
pub open spec fn control_answer(control: Control) -> (ControlAnswer, bool) {
    match control {
        Control::Interrogate => (ControlAnswer::NoError, false),
        Control::Stop => (ControlAnswer::NoError, true),
        Control::Other => (ControlAnswer::NotImplemented, false),
    }
}

/// Answers a request of the service manager.
pub fn handle_control(control: Control) -> (answer: (ControlAnswer, bool))
    ensures
        answer == control_answer(control),
{
    match control {
        Control::Interrogate => (ControlAnswer::NoError, false),
        Control::Stop => (ControlAnswer::NoError, true),
        Control::Other => (ControlAnswer::NotImplemented, false),
    }
}

/// The states that the service goes through, in order.
#[derive(Clone, Copy, Debug, PartialEq, Eq, Structural)]
pub enum ServicePhase {
    StartPending,
    Running,
    StopPending,
    Stopped,
}

/// What the service reports to the service manager in a state.
#[derive(Clone, Copy, Debug, PartialEq, Eq, Structural)]
pub struct StatusReport {
    pub phase: ServicePhase,
    /// Whether the service takes a request to stop.
    pub accepts_stop: bool,
    /// The count of the steps of a pending change of state.
    pub checkpoint: u32,
    /// How many seconds the pending change may take.
    pub wait_hint_seconds: u64,
}

/// The report of a state: only the running service takes a request to
/// stop; starting may take ten seconds, stopping three.
pub open spec fn report_of(phase: ServicePhase) -> StatusReport {
    match phase {
        ServicePhase::StartPending => StatusReport {
            phase,
            accepts_stop: false,
            checkpoint: 1,
            wait_hint_seconds: 10,
        },
        ServicePhase::Running => StatusReport {
            phase,
            accepts_stop: true,
            checkpoint: 0,
            wait_hint_seconds: 0,
        },
        ServicePhase::StopPending => StatusReport {
            phase,
            accepts_stop: false,
            checkpoint: 0,
            wait_hint_seconds: 3,
        },
        ServicePhase::Stopped => StatusReport {
            phase,
            accepts_stop: false,
            checkpoint: 0,
            wait_hint_seconds: 0,
        },
    }
}

/// The state that follows, if one does.
pub open spec fn phase_after(phase: ServicePhase) -> Option<ServicePhase> {
    match phase {
        ServicePhase::StartPending => Some(ServicePhase::Running),
        ServicePhase::Running => Some(ServicePhase::StopPending),
        ServicePhase::StopPending => Some(ServicePhase::Stopped),
        ServicePhase::Stopped => None,
    }
}

impl ServicePhase {
    /// What to report to the service manager in this state.
    pub fn report(self) -> (report: StatusReport)
        ensures
            report == report_of(self),
    {
        match self {
            ServicePhase::StartPending => StatusReport {
                phase: self,
                accepts_stop: false,
                checkpoint: 1,
                wait_hint_seconds: 10,
            },
            ServicePhase::Running => StatusReport {
                phase: self,
                accepts_stop: true,
                checkpoint: 0,
                wait_hint_seconds: 0,
            },
            ServicePhase::StopPending => StatusReport {
                phase: self,
                accepts_stop: false,
                checkpoint: 0,
                wait_hint_seconds: 3,
            },
            ServicePhase::Stopped => StatusReport {
                phase: self,
                accepts_stop: false,
                checkpoint: 0,
                wait_hint_seconds: 0,
            },
        }
    }

    /// The state that follows this one.
    pub fn following(self) -> (then: Option<ServicePhase>)
        ensures
            then == phase_after(self),
    {
        match self {
            ServicePhase::StartPending => Some(ServicePhase::Running),
            ServicePhase::Running => Some(ServicePhase::StopPending),
            ServicePhase::StopPending => Some(ServicePhase::Stopped),
            ServicePhase::Stopped => None,
        }
    }
}

} // verus!
