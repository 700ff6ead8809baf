//! The deployment of one artifact, step by step.
//!
//! A deployment is a state that says which step is due. Whoever drives it
//! asks for the action of that step, carries it out, and reports how it
//! went; the report moves the deployment to the next step that applies, or
//! ends it. The steps come in one order: stage the payload, back up the
//! destination, run the hook before, install, run the hook after. A step
//! that fails ends the deployment at once.

use crate::backup::{backup_location, backup_place, staging_location, staging_place};
use crate::error::{ErrorKind, HookPhase};
use crate::hook::{hook_command, HookResult, HookResultView};
use crate::locks::{may_start, InFlight};
use crate::manifest::{copy_texts, resolve, Artifact, ArtifactView};
use crate::paths::{
    absolute, any_parent, climbs, is_absolute, runs, segments, split, stays_below,
};
use crate::plan::{plan_install, plan_of, InstallPlan};
use crate::store::Store;
use crate::text::{joined, signed, signed_text};
use vstd::prelude::*;

verus! {

/// The step of a deployment that is due.
#[derive(Clone, Copy, Debug, PartialEq, Eq, Structural)]
pub enum Step {
    /// Put the payload into a staging directory of its own.
    Stage,
    /// Copy the destination aside.
    Backup,
    /// Run the hook that comes before the install.
    RunBefore,
    /// Put the staged files in the place of the destination's files.
    Install,
    /// Run the hook that comes after the install.
    RunAfter,
    /// Nothing is left to do.
    Done,
}

/// How a step went, as reported by whoever carried it out.
#[derive(Debug, PartialEq, Eq)]
pub enum Event {
    /// The payload is staged; these are the paths of its files below the
    /// staging directory.
    Staged(Vec<String>),
    StageFailed(String),
    BackedUp,
    BackupFailed(String),
    HookFinished(HookResult),
    Installed,
    InstallFailed(String),
}

/// The model of an [`Event`].
pub enum EventView {
    Staged(Seq<Seq<char>>),
    StageFailed(Seq<char>),
    BackedUp,
    BackupFailed(Seq<char>),
    HookFinished(HookResultView),
    Installed,
    InstallFailed(Seq<char>),
}

impl View for Event {
    type V = EventView;

    open spec fn view(&self) -> EventView {
        match self {
            Event::Staged(paths) => EventView::Staged(paths.deep_view()),
            Event::StageFailed(reason) => EventView::StageFailed(reason@),
            Event::BackedUp => EventView::BackedUp,
            Event::BackupFailed(reason) => EventView::BackupFailed(reason@),
            Event::HookFinished(result) => EventView::HookFinished(result@),
            Event::Installed => EventView::Installed,
            Event::InstallFailed(reason) => EventView::InstallFailed(reason@),
        }
    }
}

/// What is to be done for the step that is due. Paths are relative to the
/// root directory of the manifest.
#[derive(Debug, PartialEq, Eq)]
pub enum Action {
    /// Put the files of the payload below `location`.
    Stage { location: String },
    /// Copy the files below `destination` to `location`.
    Backup { destination: String, location: String },
    /// Run the command of the hook.
    RunHook { phase: HookPhase, command: String },
    /// Carry out the plan of the install from `staging` to `destination`.
    Install { staging: String, destination: String },
    /// Give the result to whoever asked for the deployment.
    Finish,
}

/// The model of an [`Action`].
pub enum ActionView {
    Stage { location: Seq<char> },
    Backup { destination: Seq<char>, location: Seq<char> },
    RunHook { phase: HookPhase, command: Seq<char> },
    Install { staging: Seq<char>, destination: Seq<char> },
    Finish,
}

impl View for Action {
    type V = ActionView;

    open spec fn view(&self) -> ActionView {
        match self {
            Action::Stage { location } => ActionView::Stage { location: location@ },
            Action::Backup { destination, location } => ActionView::Backup {
                destination: destination@,
                location: location@,
            },
            Action::RunHook { phase, command } => ActionView::RunHook {
                phase: *phase,
                command: command@,
            },
            Action::Install { staging, destination } => ActionView::Install {
                staging: staging@,
                destination: destination@,
            },
            Action::Finish => ActionView::Finish,
        }
    }
}

/// What a deployment came to.
#[derive(Debug, PartialEq, Eq)]
pub struct DeployResult {
    pub artifact_id: String,
    /// Whether every step that applied was carried out and went well.
    pub success: bool,
    /// Where the backup lies, relative to the root directory, if one was taken.
    pub backup_location: Option<String>,
    /// One line for each step that was reported, in order.
    pub messages: Vec<String>,
    /// Why the deployment did not go through, if it did not.
    pub failure: Option<ErrorKind>,
}

/// The model of a [`DeployResult`].
pub struct DeployResultView {
    pub artifact_id: Seq<char>,
    pub success: bool,
    pub backup_location: Option<Seq<char>>,
    pub messages: Seq<Seq<char>>,
    pub failure: Option<ErrorKind>,
}

impl View for DeployResult {
    type V = DeployResultView;

    open spec fn view(&self) -> DeployResultView {
        DeployResultView {
            artifact_id: self.artifact_id@,
            success: self.success,
            backup_location: self.backup_location.deep_view(),
            messages: self.messages.deep_view(),
            failure: self.failure,
        }
    }
}

/// The model of a [`Deployment`].
pub struct DeploymentView {
    /// The root directory of the manifest as it was when the deployment began.
    pub root_path: Seq<char>,
    /// The artifact as the manifest had it when the deployment began.
    pub artifact: ArtifactView,
    /// The number that tells this attempt from the others.
    pub attempt: nat,
    pub step: Step,
    /// The paths of the staged files, once the payload is staged.
    pub staged: Seq<Seq<char>>,
    pub backup_location: Option<Seq<char>>,
    pub failure: Option<ErrorKind>,
    pub messages: Seq<Seq<char>>,
}

/// The artifact of a deployment with the step that is due. A hook is only
/// ever due where the artifact has a command for it.
#[derive(Debug)]
struct Course {
    artifact: Artifact,
    step: Step,
}

impl Course {
    #[verifier::type_invariant]
    spec fn hooks_exist(self) -> bool {
        &&& self.step == Step::RunBefore ==> hook_command(self.artifact@, HookPhase::Before) is Some
        &&& self.step == Step::RunAfter ==> hook_command(self.artifact@, HookPhase::After) is Some
    }
}

/// A deployment under way.
#[derive(Debug)]
pub struct Deployment {
    root_path: String,
    course: Course,
    attempt: u64,
    staged: Vec<String>,
    backup_location: Option<String>,
    failure: Option<ErrorKind>,
    messages: Vec<String>,
}

impl View for Deployment {
    type V = DeploymentView;

    closed spec fn view(&self) -> DeploymentView {
        DeploymentView {
            root_path: self.root_path@,
            artifact: self.course.artifact@,
            attempt: self.attempt as nat,
            step: self.course.step,
            staged: self.staged.deep_view(),
            backup_location: self.backup_location.deep_view(),
            failure: self.failure,
            messages: self.messages.deep_view(),
        }
    }
}

/// The place of a step in the order of the steps.
pub open spec fn rank(step: Step) -> int {
    match step {
        Step::Stage => 0,
        Step::Backup => 1,
        Step::RunBefore => 2,
        Step::Install => 3,
        Step::RunAfter => 4,
        Step::Done => 5,
    }
}

/// The step that is due once the destination is safe: the hook before the
/// install, where the artifact has one, else the install.
pub open spec fn step_before_install(artifact: ArtifactView) -> Step {
    if hook_command(artifact, HookPhase::Before) is Some {
        Step::RunBefore
    } else {
        Step::Install
    }
}

/// The step that is due after `step` went well: the next one in order
/// that applies to the artifact.
pub open spec fn step_after(artifact: ArtifactView, step: Step) -> Step {
    match step {
        Step::Stage => if artifact.backup {
            Step::Backup
        } else {
            step_before_install(artifact)
        },
        Step::Backup => step_before_install(artifact),
        Step::RunBefore => Step::Install,
        Step::Install => if hook_command(artifact, HookPhase::After) is Some {
            Step::RunAfter
        } else {
            Step::Done
        },
        Step::RunAfter => Step::Done,
        Step::Done => Step::Done,
    }
}

/// Whether the event reports on the step.
pub open spec fn fits(step: Step, event: EventView) -> bool {
    match step {
        Step::Stage => event is Staged || event is StageFailed,
        Step::Backup => event is BackedUp || event is BackupFailed,
        Step::RunBefore => event is HookFinished,
        Step::Install => event is Installed || event is InstallFailed,
        Step::RunAfter => event is HookFinished,
        Step::Done => false,
    }
}

/// Whether a staged path stays in the staging directory and names a file.
pub open spec fn sound_path(path: Seq<char>) -> bool {
    !is_absolute(path) && !climbs(path) && segments(path).len() > 0
}

/// Whether every staged path stays in the staging directory.
pub open spec fn sound_payload(paths: Seq<Seq<char>>) -> bool {
    forall|i: int| 0 <= i < paths.len() ==> sound_path(#[trigger] paths[i])
}

/// The phase of the hook that runs at a step.
pub open spec fn phase_at(step: Step) -> HookPhase {
    if step == Step::RunAfter {
        HookPhase::After
    } else {
        HookPhase::Before
    }
}

/// The name of a phase, as the manifest has it.
pub open spec fn phase_name(phase: HookPhase) -> Seq<char> {
    match phase {
        HookPhase::Before => "run_before"@,
        HookPhase::After => "run_after"@,
    }
}

/// The line that tells how a hook ended.
pub open spec fn hook_note(phase: HookPhase, result: HookResultView) -> Seq<char> {
    match result {
        HookResultView::Success(output) => phase_name(phase) + " succeeded: "@ + output,
        HookResultView::NonZeroExit(code, output) => phase_name(phase) + " exited with code "@
            + signed(code) + ": "@ + output,
        HookResultView::TimedOut => phase_name(phase) + " timed out"@,
        HookResultView::SpawnFailed(reason) => phase_name(phase) + " could not be started: "@
            + reason,
    }
}

/// The line that a report adds to the messages.
pub open spec fn note(state: DeploymentView, event: EventView) -> Seq<char> {
    match event {
        EventView::Staged(paths) => if sound_payload(paths) {
            "payload staged"@
        } else {
            "payload refused: a path leaves the staging directory"@
        },
        EventView::StageFailed(reason) => "staging failed: "@ + reason,
        EventView::BackedUp => "backup taken: "@ + backup_place(state.artifact.id, state.attempt),
        EventView::BackupFailed(reason) => "backup failed: "@ + reason,
        EventView::HookFinished(result) => hook_note(phase_at(state.step), result),
        EventView::Installed => "files installed"@,
        EventView::InstallFailed(reason) => "install failed: "@ + reason,
    }
}

/// The category of the failure that an event reports at a step, if it
/// reports one.
pub open spec fn failure_of(step: Step, event: EventView) -> Option<ErrorKind> {
    match event {
        EventView::Staged(paths) => if sound_payload(paths) {
            None
        } else {
            Some(ErrorKind::IOError)
        },
        EventView::StageFailed(_) => Some(ErrorKind::IOError),
        EventView::BackedUp => None,
        EventView::BackupFailed(_) => Some(ErrorKind::BackupFailed),
        EventView::HookFinished(result) => if result is Success {
            None
        } else {
            Some(ErrorKind::HookFailed { phase: phase_at(step) })
        },
        EventView::Installed => None,
        EventView::InstallFailed(_) => Some(ErrorKind::InstallFailed),
    }
}

/// The deployment after a report. A report that is not about the step that
/// is due changes nothing. One that is adds its line to the messages; then a
/// failure ends the deployment, and a success makes the next step due.
pub open spec fn next(state: DeploymentView, event: EventView) -> DeploymentView {
    if !fits(state.step, event) {
        state
    } else {
        let messages = state.messages.push(note(state, event));
        match failure_of(state.step, event) {
            Some(kind) => DeploymentView {
                step: Step::Done,
                failure: Some(kind),
                messages,
                ..state
            },
            None => DeploymentView {
                step: step_after(state.artifact, state.step),
                staged: match event {
                    EventView::Staged(paths) => paths,
                    _ => state.staged,
                },
                backup_location: match event {
                    EventView::BackedUp => Some(backup_place(state.artifact.id, state.attempt)),
                    _ => state.backup_location,
                },
                messages,
                ..state
            },
        }
    }
}

/// A deployment that has just begun.
pub open spec fn started(
    root_path: Seq<char>,
    artifact: ArtifactView,
    attempt: nat,
) -> DeploymentView {
    DeploymentView {
        root_path,
        artifact,
        attempt,
        step: Step::Stage,
        staged: Seq::empty(),
        backup_location: None,
        failure: None,
        messages: Seq::empty(),
    }
}

/// What is to be done at the step that is due.
pub open spec fn action_of(state: DeploymentView) -> ActionView {
    match state.step {
        Step::Stage => ActionView::Stage {
            location: staging_place(state.artifact.id, state.attempt),
        },
        Step::Backup => ActionView::Backup {
            destination: state.artifact.destination,
            location: backup_place(state.artifact.id, state.attempt),
        },
        Step::RunBefore => ActionView::RunHook {
            phase: HookPhase::Before,
            command: hook_command(state.artifact, HookPhase::Before)->0,
        },
        Step::Install => ActionView::Install {
            staging: staging_place(state.artifact.id, state.attempt),
            destination: state.artifact.destination,
        },
        Step::RunAfter => ActionView::RunHook {
            phase: HookPhase::After,
            command: hook_command(state.artifact, HookPhase::After)->0,
        },
        Step::Done => ActionView::Finish,
    }
}

/// What the deployment has come to: a success once nothing is left to do
/// and nothing failed.
pub open spec fn result_of(state: DeploymentView) -> DeployResultView {
    DeployResultView {
        artifact_id: state.artifact.id,
        success: state.step == Step::Done && state.failure is None,
        backup_location: state.backup_location,
        messages: state.messages,
        failure: state.failure,
    }
}

/// The answer to a request that does not start a deployment.
pub open spec fn refusal(id: Seq<char>, kind: ErrorKind) -> DeployResultView {
    DeployResultView {
        artifact_id: id,
        success: false,
        backup_location: None,
        messages: seq![
            match kind {
                ErrorKind::DeploymentInProgress => "a deployment of this artifact is under way"@,
                _ => "the manifest has no artifact with this id"@,
            },
        ],
        failure: Some(kind),
    }
}

/// The entries of `excluded_files`: none where the field is absent.
pub open spec fn exclusions(artifact: ArtifactView) -> Seq<Seq<char>> {
    match artifact.excluded_files {
        Some(entries) => entries,
        None => Seq::empty(),
    }
}


/// Whether every staged path stays in the staging directory.
pub fn sound(paths: &Vec<String>) -> (yes: bool)
    ensures
        yes == sound_payload(paths.deep_view()),
{
    let ghost all = paths.deep_view();
    let mut i: usize = 0;
    while i < paths.len()
        invariant
            i <= paths@.len(),
            all == paths.deep_view(),
            forall|k: int| 0 <= k < i ==> sound_path(#[trigger] all[k]),
        decreases paths@.len() - i,
    {
        assert(all[i as int] == paths@[i as int]@);
        let path = paths[i].as_str();
        let parts = split(path);
        assert(runs(parts@).len() == parts@.len());
        if absolute(path) || any_parent(&parts) || parts.len() == 0 {
            assert(!sound_path(all[i as int]));
            return false;
        }
        i += 1;
    }
    true
}

/// The name of a phase.
fn phase_text(phase: HookPhase) -> (name: &'static str)
    ensures
        name@ == phase_name(phase),
{
    match phase {
        HookPhase::Before => "run_before",
        HookPhase::After => "run_after",
    }
}

/// Writes the line that tells how a hook ended.
fn hook_line(phase: HookPhase, result: &HookResult) -> (line: String)
    ensures
        line@ == hook_note(phase, result@),
{
    let mut line = String::from_str(phase_text(phase));
    match result {
        HookResult::Success(output) => {
            line.append(" succeeded: ");
            line.append(output.as_str());
        },
        HookResult::NonZeroExit(code, output) => {
            line.append(" exited with code ");
            let number = signed_text(*code);
            line.append(number.as_str());
            line.append(": ");
            line.append(output.as_str());
        },
        HookResult::TimedOut => {
            line.append(" timed out");
        },
        HookResult::SpawnFailed(reason) => {
            line.append(" could not be started: ");
            line.append(reason.as_str());
        },
    }
    line
}

/// A copy of an optional text.
fn copy_optional(text: &Option<String>) -> (copy: Option<String>)
    ensures
        copy.deep_view() == text.deep_view(),
{
    match text {
        Some(text) => Some(text.clone()),
        None => None,
    }
}

impl DeployResult {
    /// The answer to a request that does not start a deployment.
    fn refused(id: &str, kind: ErrorKind) -> (result: DeployResult)
        ensures
            result@ == refusal(id@, kind),
    {
        let line = match kind {
            ErrorKind::DeploymentInProgress => "a deployment of this artifact is under way",
            _ => "the manifest has no artifact with this id",
        };
        let mut messages: Vec<String> = Vec::new();
        messages.push(String::from_str(line));
        assert(messages.deep_view() =~= refusal(id@, kind).messages);
        DeployResult {
            artifact_id: String::from_str(id),
            success: false,
            backup_location: None,
            messages,
            failure: Some(kind),
        }
    }
}

impl Deployment {
    /// Begins the deployment of the artifact with the given id. It is
    /// refused where the live manifest has no such artifact, and where a
    /// deployment of the artifact is under way; else the artifact is entered
    /// in the table and the first step is due.
    pub fn begin(store: &Store, table: &mut InFlight, id: &str, attempt: u64) -> (outcome: Result<
        Deployment,
        DeployResult,
    >)
        ensures
            match resolve(store@, id@) {
                None => {
                    &&& outcome matches Err(result)
                    &&& result@ == refusal(id@, ErrorKind::ArtifactNotFound)
                    &&& final(table)@ == old(table)@
                },
                Some(artifact) => if may_start(old(table)@, id@) {
                    &&& outcome matches Ok(deployment)
                    &&& deployment@ == started(store@.deploy.root_path, artifact, attempt as nat)
                    &&& stays_below(store@.deploy.root_path, artifact.destination)
                    &&& final(table)@ == old(table)@.insert(id@)
                } else {
                    &&& outcome matches Err(result)
                    &&& result@ == refusal(id@, ErrorKind::DeploymentInProgress)
                    &&& final(table)@ == old(table)@
                },
            },
    {
        match store.artifact(id) {
            None => Err(DeployResult::refused(id, ErrorKind::ArtifactNotFound)),
            Some(artifact) => {
                if table.acquire(id) {
                    let deployment = Deployment {
                        root_path: store.root_path(),
                        course: Course { artifact, step: Step::Stage },
                        attempt,
                        staged: Vec::new(),
                        backup_location: None,
                        failure: None,
                        messages: Vec::new(),
                    };
                    assert(deployment@.staged =~= Seq::<Seq<char>>::empty());
                    assert(deployment@.messages =~= Seq::<Seq<char>>::empty());
                    Ok(deployment)
                } else {
                    assert(table@ =~= old(table)@);
                    Err(DeployResult::refused(id, ErrorKind::DeploymentInProgress))
                }
            },
        }
    }

    /// The root directory that the paths of the actions are relative to.
    pub fn root_path(&self) -> (root_path: &String)
        ensures
            root_path@ == self@.root_path,
    {
        &self.root_path
    }

    /// The step that is due.
    pub fn step(&self) -> (step: Step)
        ensures
            step == self@.step,
    {
        self.course.step
    }

    /// Whether nothing is left to do.
    pub fn is_done(&self) -> (done: bool)
        ensures
            done == (self@.step == Step::Done),
    {
        match self.course.step {
            Step::Done => true,
            _ => false,
        }
    }

    /// What is to be done at the step that is due.
    pub fn action(&self) -> (action: Action)
        ensures
            action@ == action_of(self@),
    {
        proof {
            use_type_invariant(&self.course);
        }
        match self.course.step {
            Step::Stage => Action::Stage {
                location: staging_location(self.course.artifact.id.as_str(), self.attempt),
            },
            Step::Backup => Action::Backup {
                destination: self.course.artifact.destination.clone(),
                location: backup_location(self.course.artifact.id.as_str(), self.attempt),
            },
            Step::RunBefore => match self.course.artifact.hook(HookPhase::Before) {
                Some(command) => Action::RunHook {
                    phase: HookPhase::Before,
                    command: command.clone(),
                },
                None => Action::Finish,
            },
            Step::Install => Action::Install {
                staging: staging_location(self.course.artifact.id.as_str(), self.attempt),
                destination: self.course.artifact.destination.clone(),
            },
            Step::RunAfter => match self.course.artifact.hook(HookPhase::After) {
                Some(command) => Action::RunHook { phase: HookPhase::After, command: command.clone() },
                None => Action::Finish,
            },
            Step::Done => Action::Finish,
        }
    }

    /// The step that is due after `step` went well.
    fn following(&self, step: Step) -> (then: Step)
        ensures
            then == step_after(self@.artifact, step),
    {
        let before_install = if self.course.artifact.hook(HookPhase::Before).is_some() {
            Step::RunBefore
        } else {
            Step::Install
        };
        match step {
            Step::Stage => if self.course.artifact.backup {
                Step::Backup
            } else {
                before_install
            },
            Step::Backup => before_install,
            Step::RunBefore => Step::Install,
            Step::Install => if self.course.artifact.hook(HookPhase::After).is_some() {
                Step::RunAfter
            } else {
                Step::Done
            },
            Step::RunAfter => Step::Done,
            Step::Done => Step::Done,
        }
    }

    /// Whether the event reports on the step that is due.
    fn awaits(&self, event: &Event) -> (yes: bool)
        ensures
            yes == fits(self@.step, event@),
    {
        match self.course.step {
            Step::Stage => match event {
                Event::Staged(_) => true,
                Event::StageFailed(_) => true,
                _ => false,
            },
            Step::Backup => match event {
                Event::BackedUp => true,
                Event::BackupFailed(_) => true,
                _ => false,
            },
            Step::RunBefore => match event {
                Event::HookFinished(_) => true,
                _ => false,
            },
            Step::Install => match event {
                Event::Installed => true,
                Event::InstallFailed(_) => true,
                _ => false,
            },
            Step::RunAfter => match event {
                Event::HookFinished(_) => true,
                _ => false,
            },
            Step::Done => false,
        }
    }

    /// Ends the deployment with a failure.
    fn fail(&mut self, kind: ErrorKind, line: String)
        ensures
            final(self)@ == (DeploymentView {
                step: Step::Done,
                failure: Some(kind),
                messages: old(self)@.messages.push(line@),
                ..old(self)@
            }),
    {
        let ghost lines = self.messages.deep_view();
        self.messages.push(line);
        assert(self.messages.deep_view() =~= lines.push(line@));
        self.failure = Some(kind);
        self.course.step = Step::Done;
    }

    /// Makes the next step due after the one that went well.
    fn pass(&mut self, line: String)
        ensures
            final(self)@ == (DeploymentView {
                step: step_after(old(self)@.artifact, old(self)@.step),
                messages: old(self)@.messages.push(line@),
                ..old(self)@
            }),
    {
        let ghost lines = self.messages.deep_view();
        let then = self.following(self.course.step);
        self.messages.push(line);
        assert(self.messages.deep_view() =~= lines.push(line@));
        self.course.step = then;
    }

    /// Takes the report on the step that is due and moves on. A report on
    /// another step is passed over, and the answer is `false`.
    pub fn advance(&mut self, event: Event) -> (accepted: bool)
        ensures
            accepted == fits(old(self)@.step, event@),
            final(self)@ == next(old(self)@, event@),
    {
        if !self.awaits(&event) {
            return false;
        }
        match event {
            Event::Staged(paths) => {
                if sound(&paths) {
                    self.staged = paths;
                    self.pass(String::from_str("payload staged"));
                } else {
                    self.fail(
                        ErrorKind::IOError,
                        String::from_str("payload refused: a path leaves the staging directory"),
                    );
                }
            },
            Event::StageFailed(reason) => {
                self.fail(ErrorKind::IOError, joined("staging failed: ", reason.as_str()));
            },
            Event::BackedUp => {
                let location = backup_location(self.course.artifact.id.as_str(), self.attempt);
                let line = joined("backup taken: ", location.as_str());
                self.backup_location = Some(location);
                self.pass(line);
            },
            Event::BackupFailed(reason) => {
                self.fail(ErrorKind::BackupFailed, joined("backup failed: ", reason.as_str()));
            },
            Event::HookFinished(result) => {
                let phase = match self.course.step {
                    Step::RunAfter => HookPhase::After,
                    _ => HookPhase::Before,
                };
                let line = hook_line(phase, &result);
                if result.proceeds() {
                    self.pass(line);
                } else {
                    self.fail(ErrorKind::HookFailed { phase }, line);
                }
            },
            Event::Installed => {
                self.pass(String::from_str("files installed"));
            },
            Event::InstallFailed(reason) => {
                self.fail(ErrorKind::InstallFailed, joined("install failed: ", reason.as_str()));
            },
        }
        true
    }

    /// Plans the install, from the paths of the files that the destination
    /// has now: what no entry of `excluded_files` protects is removed, and is
    /// then copied from the staged files.
    pub fn plan(&self, existing: &Vec<String>) -> (plan: InstallPlan)
        ensures
            plan@ == plan_of(existing.deep_view(), self@.staged, exclusions(self@.artifact)),
    {
        match &self.course.artifact.excluded_files {
            Some(entries) => plan_install(existing, &self.staged, entries),
            None => {
                let entries: Vec<String> = Vec::new();
                assert(entries.deep_view() =~= Seq::<Seq<char>>::empty());
                plan_install(existing, &self.staged, &entries)
            },
        }
    }

    /// What the deployment has come to so far.
    pub fn result(&self) -> (result: DeployResult)
        ensures
            result@ == result_of(self@),
    {
        let success = self.is_done() && self.failure.is_none();
        DeployResult {
            artifact_id: self.course.artifact.id.clone(),
            success,
            backup_location: copy_optional(&self.backup_location),
            messages: copy_texts(&self.messages),
            failure: self.failure,
        }
    }

    /// Ends the deployment: the artifact leaves the table, and the answer
    /// is what the deployment came to.
    pub fn finish(self, table: &mut InFlight) -> (result: DeployResult)
        ensures
            result@ == result_of(self@),
            final(table)@ == old(table)@.remove(self@.artifact.id),
    {
        table.release(self.course.artifact.id.as_str());
        self.result()
    }
}

} // verus!
