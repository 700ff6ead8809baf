//! Hooks: the command that an artifact runs before or after its files are
//! installed, and how a run of it ended.

use crate::error::HookPhase;
use crate::manifest::{Artifact, ArtifactView};
use vstd::prelude::*;

verus! {

/// How a run of a hook ended.
#[derive(Debug, PartialEq, Eq)]
pub enum HookResult {
    /// The command ran and exited with code zero. The text is what it wrote.
    Success(String),
    /// The command ran and exited with another code.
    NonZeroExit(i32, String),
    /// The command was still running when its time was up, and was ended.
    TimedOut,
    /// The command could not be started.
    SpawnFailed(String),
}

/// The model of a [`HookResult`].
pub enum HookResultView {
    Success(Seq<char>),
    NonZeroExit(int, Seq<char>),
    TimedOut,
    SpawnFailed(Seq<char>),
}

impl View for HookResult {
    type V = HookResultView;

    open spec fn view(&self) -> HookResultView {
        match self {
            HookResult::Success(output) => HookResultView::Success(output@),
            HookResult::NonZeroExit(code, output) => HookResultView::NonZeroExit(
                *code as int,
                output@,
            ),
            HookResult::TimedOut => HookResultView::TimedOut,
            HookResult::SpawnFailed(reason) => HookResultView::SpawnFailed(reason@),
        }
    }
}

/// How the run of a command ended that exited by itself, from its exit
/// code, if it left one, and what it wrote. A command that left no code was
/// ended from outside and counts as failed, with the code -1.
pub open spec fn exit_result(code: Option<int>, output: Seq<char>) -> HookResultView {
    match code {
        Some(code) => if code == 0 {
            HookResultView::Success(output)
        } else {
            HookResultView::NonZeroExit(code, output)
        },
        None => HookResultView::NonZeroExit(-1, output),
    }
}

/// The command of a hook, where the artifact has one for the phase.
pub open spec fn hook_command(artifact: ArtifactView, phase: HookPhase) -> Option<Seq<char>> {
    let run = match phase {
        HookPhase::Before => artifact.run_before,
        HookPhase::After => artifact.run_after,
    };
    match run {
        Some(run) => run.powershell,
        None => None,
    }
}

impl HookResult {
    /// How the run of a command ended that exited by itself.
    pub fn from_exit(code: Option<i32>, output: String) -> (result: HookResult)
        ensures
            result@ == exit_result(
                match code {
                    Some(code) => Some(code as int),
                    None => None,
                },
                output@,
            ),
    {
        match code {
            Some(code) => if code == 0 {
                HookResult::Success(output)
            } else {
                HookResult::NonZeroExit(code, output)
            },
            None => HookResult::NonZeroExit(-1, output),
        }
    }

    /// Whether the deployment may go on after the hook: only after a run
    /// that succeeded.
    pub fn proceeds(&self) -> (yes: bool)
        ensures
            yes == (self@ is Success),
    {
        match self {
            HookResult::Success(_) => true,
            _ => false,
        }
    }
}

impl Artifact {
    /// The command of the artifact's hook for the phase, if it has one.
    pub fn hook(&self, phase: HookPhase) -> (command: Option<&String>)
        ensures
            command.deep_view() == hook_command(self@, phase),
    {
        let run = match phase {
            HookPhase::Before => &self.run_before,
            HookPhase::After => &self.run_after,
        };
        match run {
            Some(run) => match &run.powershell {
                Some(command) => Some(command),
                None => None,
            },
            None => None,
        }
    }
}

/// A program and the arguments to start it with.
#[derive(Debug, PartialEq, Eq)]
pub struct Invocation {
    pub program: String,
    pub arguments: Vec<String>,
}

/// The arguments that hand a command to the shell: no profile, no
/// prompting, then the command.
pub open spec fn shell_arguments(command: Seq<char>) -> Seq<Seq<char>> {
    seq!["-NoProfile"@, "-NonInteractive"@, "-Command"@, command]
}

/// How the command of a hook is started: it is handed to `powershell`.
pub fn invocation(command: &str) -> (start: Invocation)
    ensures
        start.program@ == "powershell"@,
        start.arguments.deep_view() == shell_arguments(command@),
{
    let mut arguments: Vec<String> = Vec::new();
    arguments.push(String::from_str("-NoProfile"));
    arguments.push(String::from_str("-NonInteractive"));
    arguments.push(String::from_str("-Command"));
    arguments.push(String::from_str(command));
    assert(arguments.deep_view() =~= shell_arguments(command@));
    Invocation { program: String::from_str("powershell"), arguments }
}

} // verus!
