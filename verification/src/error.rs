//! Error taxonomy of the deployment engine.

use vstd::prelude::*;

verus! {

/// The lifecycle phase a hook is bound to.
#[derive(Clone, Copy, Debug, PartialEq, Eq, Structural)]
pub enum HookPhase {
    /// Immediately before the files are installed.
    Before,
    /// Immediately after the files are installed.
    After,
}

/// What went wrong, by category.
#[derive(Clone, Copy, Debug, PartialEq, Eq, Structural)]
pub enum ErrorKind {
    /// The manifest bytes are not a well-formed manifest document.
    DecodeError,
    /// The manifest decoded, but breaks one of the validation rules.
    ValidationError,
    /// No artifact of the live manifest has the requested id.
    ArtifactNotFound,
    /// Another deployment of the same artifact is still running.
    DeploymentInProgress,
    /// The required backup of the destination could not be taken.
    BackupFailed,
    /// A lifecycle hook did not succeed.
    HookFailed { phase: HookPhase },
    /// The destination could not be replaced by the staged payload.
    InstallFailed,
    /// A read or write outside the other categories failed.
    IOError,
}

/// An error of the engine: its category and a fixed description.
#[derive(Debug)]
pub struct HeimError {
    pub kind: ErrorKind,
    pub message: &'static str,
}

impl ErrorKind {
    /// The name of the category, as `describe` prints it.
    pub open spec fn name(self) -> Seq<char> {
        match self {
            ErrorKind::DecodeError => "DecodeError"@,
            ErrorKind::ValidationError => "ValidationError"@,
            ErrorKind::ArtifactNotFound => "ArtifactNotFound"@,
            ErrorKind::DeploymentInProgress => "DeploymentInProgress"@,
            ErrorKind::BackupFailed => "BackupFailed"@,
            ErrorKind::HookFailed { phase: HookPhase::Before } => "HookFailed { phase: Before }"@,
            ErrorKind::HookFailed { phase: HookPhase::After } => "HookFailed { phase: After }"@,
            ErrorKind::InstallFailed => "InstallFailed"@,
            ErrorKind::IOError => "IOError"@,
        }
    }

    /// The name of the category as text.
    pub fn label(self) -> (text: &'static str)
        ensures
            text@ == self.name(),
    {
        match self {
            ErrorKind::DecodeError => "DecodeError",
            ErrorKind::ValidationError => "ValidationError",
            ErrorKind::ArtifactNotFound => "ArtifactNotFound",
            ErrorKind::DeploymentInProgress => "DeploymentInProgress",
            ErrorKind::BackupFailed => "BackupFailed",
            ErrorKind::HookFailed { phase: HookPhase::Before } => "HookFailed { phase: Before }",
            ErrorKind::HookFailed { phase: HookPhase::After } => "HookFailed { phase: After }",
            ErrorKind::InstallFailed => "InstallFailed",
            ErrorKind::IOError => "IOError",
        }
    }
}

/// The description that goes with a category where the manifest is loaded.
pub open spec fn message_of(kind: ErrorKind) -> Seq<char> {
    match kind {
        ErrorKind::ValidationError => "Heim.json is not a valid manifest."@,
        _ => "Failed to read Heim.json."@,
    }
}

impl HeimError {
    /// Whether the error is what `of` gives for its category.
    pub open spec fn plain(self) -> bool {
        self.message@ == message_of(self.kind)
    }

    /// The error of a category, with the description that goes with it.
    pub fn of(kind: ErrorKind) -> (error: HeimError)
        ensures
            error.kind == kind,
            error.plain(),
    {
        let message = match kind {
            ErrorKind::ValidationError => "Heim.json is not a valid manifest.",
            _ => "Failed to read Heim.json.",
        };
        HeimError { kind, message }
    }

    /// An error of the given category with the given description.
    pub fn new(kind: ErrorKind, message: &'static str) -> (error: HeimError)
        ensures
            error.kind == kind,
            error.message@ == message@,
    {
        HeimError { kind, message }
    }

    /// The text of the error: the category's name, a colon and a space, then
    /// the description.
    pub open spec fn text(self) -> Seq<char> {
        self.kind.name() + ": "@ + self.message@
    }

    /// Renders the error as one line of text.
    pub fn describe(&self) -> (line: String)
        ensures
            line@ == self.text(),
    {
        let mut line = String::from_str(self.kind.label());
        line.append(": ");
        line.append(self.message);
        line
    }
}

} // verus!
