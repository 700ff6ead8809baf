//! The deployment manifest: a root directory and the artifacts that are
//! deployed below it.

use crate::paths::{below, stays_below};
use vstd::prelude::*;

verus! {

/// The model of a [`Run`].
pub struct RunView {
    pub powershell: Option<Seq<char>>,
}

/// The model of an [`Artifact`].
pub struct ArtifactView {
    pub id: Seq<char>,
    pub kind: Seq<char>,
    pub backup: bool,
    pub destination: Seq<char>,
    pub excluded_files: Option<Seq<Seq<char>>>,
    pub run_before: Option<RunView>,
    pub run_after: Option<RunView>,
}

/// The model of a [`Deploy`].
pub struct DeployView {
    pub root_path: Seq<char>,
    pub artifacts: Seq<ArtifactView>,
}

/// The model of a [`Heim`].
pub struct HeimView {
    pub deploy: DeployView,
}

/// The manifest document.
#[derive(Debug, PartialEq, Eq)]
pub struct Heim {
    pub deploy: Deploy,
}

/// The body of the manifest.
#[derive(Debug, PartialEq, Eq)]
pub struct Deploy {
    /// The directory below which every artifact lives.
    pub root_path: String,
    /// The artifacts, in the order of the document.
    pub artifacts: Vec<Artifact>,
}

/// One deployable unit.
#[derive(Debug, PartialEq, Eq)]
pub struct Artifact {
    /// The key by which a deployment names the artifact.
    pub id: String,
    /// A label for the kind of artifact. Nothing in the engine depends on it.
    pub kind: String,
    /// Whether the destination is copied aside before it is overwritten.
    pub backup: bool,
    /// Where the artifact's files live, relative to the root directory.
    pub destination: String,
    /// The files below the destination that an install leaves as they are.
    pub excluded_files: Option<Vec<String>>,
    /// The command that runs right before the files are installed.
    pub run_before: Option<Run>,
    /// The command that runs right after the files are installed.
    pub run_after: Option<Run>,
}

/// A hook: one command for the shell.
#[derive(Debug, PartialEq, Eq)]
pub struct Run {
    pub powershell: Option<String>,
}

impl DeepView for Run {
    type V = RunView;

    open spec fn deep_view(&self) -> RunView {
        RunView { powershell: self.powershell.deep_view() }
    }
}

impl View for Run {
    type V = RunView;

    open spec fn view(&self) -> RunView {
        self.deep_view()
    }
}

impl DeepView for Artifact {
    type V = ArtifactView;

    open spec fn deep_view(&self) -> ArtifactView {
        ArtifactView {
            id: self.id@,
            kind: self.kind@,
            backup: self.backup,
            destination: self.destination@,
            excluded_files: self.excluded_files.deep_view(),
            run_before: self.run_before.deep_view(),
            run_after: self.run_after.deep_view(),
        }
    }
}

impl View for Artifact {
    type V = ArtifactView;

    open spec fn view(&self) -> ArtifactView {
        self.deep_view()
    }
}

impl DeepView for Deploy {
    type V = DeployView;

    open spec fn deep_view(&self) -> DeployView {
        DeployView { root_path: self.root_path@, artifacts: self.artifacts.deep_view() }
    }
}

impl View for Deploy {
    type V = DeployView;

    open spec fn view(&self) -> DeployView {
        self.deep_view()
    }
}

impl DeepView for Heim {
    type V = HeimView;

    open spec fn deep_view(&self) -> HeimView {
        HeimView { deploy: self.deploy.deep_view() }
    }
}

impl View for Heim {
    type V = HeimView;

    open spec fn view(&self) -> HeimView {
        self.deep_view()
    }
}

/// A copy of a list of texts.
pub fn copy_texts(list: &Vec<String>) -> (copy: Vec<String>)
    ensures
        copy.deep_view() == list.deep_view(),
{
    let mut copy: Vec<String> = Vec::new();
    let mut i: usize = 0;
    while i < list.len()
        invariant
            i <= list@.len(),
            copy@.len() == i,
            forall|k: int| 0 <= k < i ==> copy@[k]@ == list@[k]@,
        decreases list@.len() - i,
    {
        copy.push(list[i].clone());
        i += 1;
    }
    assert(copy.deep_view() =~= list.deep_view());
    copy
}

impl Clone for Run {
    fn clone(&self) -> (copy: Run)
        ensures
            copy@ == self@,
    {
        Run {
            powershell: match &self.powershell {
                Some(command) => Some(command.clone()),
                None => None,
            },
        }
    }
}

impl Clone for Artifact {
    fn clone(&self) -> (copy: Artifact)
        ensures
            copy@ == self@,
    {
        Artifact {
            id: self.id.clone(),
            kind: self.kind.clone(),
            backup: self.backup,
            destination: self.destination.clone(),
            excluded_files: match &self.excluded_files {
                Some(list) => Some(copy_texts(list)),
                None => None,
            },
            run_before: match &self.run_before {
                Some(run) => Some(run.clone()),
                None => None,
            },
            run_after: match &self.run_after {
                Some(run) => Some(run.clone()),
                None => None,
            },
        }
    }
}

impl Clone for Deploy {
    fn clone(&self) -> (copy: Deploy)
        ensures
            copy@ == self@,
    {
        let mut artifacts: Vec<Artifact> = Vec::new();
        let mut i: usize = 0;
        while i < self.artifacts.len()
            invariant
                i <= self.artifacts@.len(),
                artifacts@.len() == i,
                forall|k: int| 0 <= k < i ==> artifacts@[k]@ == self.artifacts@[k]@,
            decreases self.artifacts@.len() - i,
        {
            artifacts.push(self.artifacts[i].clone());
            i += 1;
        }
        assert(artifacts.deep_view() =~= self.artifacts.deep_view());
        Deploy { root_path: self.root_path.clone(), artifacts }
    }
}

impl Clone for Heim {
    fn clone(&self) -> (copy: Heim)
        ensures
            copy@ == self@,
    {
        Heim { deploy: self.deploy.clone() }
    }
}


/// Why a manifest is refused.
#[derive(Clone, Copy, Debug, PartialEq, Eq, Structural)]
pub enum ValidationError {
    /// The root directory is the empty text.
    EmptyRootPath,
    /// The artifact at `index` has the empty text as its destination.
    EmptyDestination { index: usize },
    /// The destination of the artifact at `index` leaves the tree below the
    /// root directory.
    UnsafeDestination { index: usize },
    /// The artifact at `index` has the id of an artifact before it.
    DuplicateId { index: usize },
}

/// Whether no two artifacts share an id.
pub open spec fn distinct_ids(artifacts: Seq<ArtifactView>) -> bool {
    forall|i: int, j: int|
        0 <= i < j < artifacts.len() ==> (#[trigger] artifacts[i]).id != (#[trigger] artifacts[j]).id
}

/// Whether the manifest keeps every rule: the root directory is named,
/// every destination is named and stays below the root directory, and no
/// two artifacts share an id.
pub open spec fn valid(manifest: HeimView) -> bool {
    let deploy = manifest.deploy;
    &&& deploy.root_path.len() > 0
    &&& forall|i: int|
        0 <= i < deploy.artifacts.len() ==> {
            &&& (#[trigger] deploy.artifacts[i]).destination.len() > 0
            &&& stays_below(deploy.root_path, deploy.artifacts[i].destination)
        }
    &&& distinct_ids(deploy.artifacts)
}

/// Whether the artifact at `i` has the id of an artifact before it.
pub open spec fn repeats(artifacts: Seq<ArtifactView>, i: int) -> bool {
    exists|j: int| 0 <= j < i && (#[trigger] artifacts[j]).id == artifacts[i].id
}

/// The rule that the artifact at `i` breaks, if any: the destination is
/// looked at first, then the id.
pub open spec fn fault(deploy: DeployView, i: int) -> Option<ValidationError> {
    let artifact = deploy.artifacts[i];
    if artifact.destination.len() == 0 {
        Some(ValidationError::EmptyDestination { index: i as usize })
    } else if !stays_below(deploy.root_path, artifact.destination) {
        Some(ValidationError::UnsafeDestination { index: i as usize })
    } else if repeats(deploy.artifacts, i) {
        Some(ValidationError::DuplicateId { index: i as usize })
    } else {
        None
    }
}

/// Whether the artifact at `i` is the first that breaks a rule.
pub open spec fn first_fault(deploy: DeployView, i: int) -> bool {
    &&& 0 <= i < deploy.artifacts.len()
    &&& fault(deploy, i) is Some
    &&& forall|j: int| 0 <= j < i ==> (#[trigger] fault(deploy, j)) is None
}

/// What validation answers: the root directory is looked at first, then
/// the artifacts in order, and the first broken rule is reported.
pub open spec fn validation(manifest: HeimView) -> Result<(), ValidationError> {
    let deploy = manifest.deploy;
    if deploy.root_path.len() == 0 {
        Err(ValidationError::EmptyRootPath)
    } else if exists|i: int| first_fault(deploy, i) {
        Err(fault(deploy, choose|i: int| first_fault(deploy, i))->0)
    } else {
        Ok(())
    }
}

/// Validation accepts exactly the manifests that keep every rule.
pub proof fn lemma_validation_accepts_valid(manifest: HeimView)
    ensures
        validation(manifest) is Ok <==> valid(manifest),
{
    let deploy = manifest.deploy;
    if validation(manifest) is Ok {
        assert forall|i: int| 0 <= i < deploy.artifacts.len() implies fault(deploy, i) is None by {
            lemma_no_first_fault(deploy, i);
        }
        assert forall|i: int, j: int| 0 <= i < j < deploy.artifacts.len() implies (
        #[trigger] deploy.artifacts[i]).id != (#[trigger] deploy.artifacts[j]).id by {
            assert(fault(deploy, j) is None);
            assert(!repeats(deploy.artifacts, j));
        }
        assert forall|i: int| 0 <= i < deploy.artifacts.len() implies (
        #[trigger] deploy.artifacts[i]).destination.len() > 0 && stays_below(
            deploy.root_path,
            deploy.artifacts[i].destination,
        ) by {
            assert(fault(deploy, i) is None);
        }
    }
    if valid(manifest) {
        assert forall|i: int| 0 <= i < deploy.artifacts.len() implies fault(deploy, i) is None by {
            let artifact = deploy.artifacts[i];
            assert(artifact.destination.len() > 0);
            assert(!repeats(deploy.artifacts, i));
        }
    }
}

/// Where no artifact is the first to break a rule, none breaks one.
proof fn lemma_no_first_fault(deploy: DeployView, i: int)
    requires
        !exists|k: int| first_fault(deploy, k),
        0 <= i < deploy.artifacts.len(),
    ensures
        fault(deploy, i) is None,
    decreases i,
{
    if fault(deploy, i) is Some {
        assert forall|j: int| 0 <= j < i implies (#[trigger] fault(deploy, j)) is None by {
            lemma_no_first_fault(deploy, j);
        }
        assert(first_fault(deploy, i));
    }
}

impl Heim {
    /// Holds the manifest to the rules and reports the first one it breaks.
    pub fn validate(&self) -> (verdict: Result<(), ValidationError>)
        ensures
            verdict == validation(self@),
            verdict is Ok <==> valid(self@),
    {
        proof {
            lemma_validation_accepts_valid(self@);
        }
        let ghost deploy = self@.deploy;
        if self.deploy.root_path.as_str().is_empty() {
            return Err(ValidationError::EmptyRootPath);
        }
        let artifacts = &self.deploy.artifacts;
        let mut i: usize = 0;
        while i < artifacts.len()
            invariant
                artifacts == &self.deploy.artifacts,
                deploy == self@.deploy,
                deploy.root_path.len() > 0,
                i <= artifacts@.len(),
                forall|k: int| 0 <= k < i ==> (#[trigger] fault(deploy, k)) is None,
            decreases artifacts@.len() - i,
        {
            let artifact = &artifacts[i];
            assert(deploy.artifacts[i as int] == artifact@);
            let found = if artifact.destination.as_str().is_empty() {
                Some(ValidationError::EmptyDestination { index: i })
            } else if !below(self.deploy.root_path.as_str(), artifact.destination.as_str()) {
                Some(ValidationError::UnsafeDestination { index: i })
            } else if self.repeated(i) {
                Some(ValidationError::DuplicateId { index: i })
            } else {
                None
            };
            assert(found == fault(deploy, i as int));
            if let Some(error) = found {
                assert(first_fault(deploy, i as int));
                let ghost chosen = choose|k: int| first_fault(deploy, k);
                assert(chosen == i) by {
                    if chosen < i {
                        assert(fault(deploy, chosen) is None);
                    }
                    if i < chosen {
                        assert(fault(deploy, i as int) is None);
                    }
                }
                return Err(error);
            }
            i += 1;
        }
        assert(!exists|k: int| first_fault(deploy, k));
        Ok(())
    }

    /// Whether the artifact at `i` has the id of an artifact before it.
    fn repeated(&self, i: usize) -> (yes: bool)
        requires
            i < self.deploy.artifacts@.len(),
        ensures
            yes == repeats(self@.deploy.artifacts, i as int),
    {
        let artifacts = &self.deploy.artifacts;
        let ghost views = self@.deploy.artifacts;
        let mut j: usize = 0;
        while j < i
            invariant
                artifacts == &self.deploy.artifacts,
                views == self@.deploy.artifacts,
                j <= i < artifacts@.len(),
                forall|k: int| 0 <= k < j ==> (#[trigger] views[k]).id != views[i as int].id,
            decreases i - j,
        {
            assert(views[j as int] == artifacts@[j as int]@);
            assert(views[i as int] == artifacts@[i as int]@);
            if artifacts[j].id == artifacts[i].id {
                return true;
            }
            j += 1;
        }
        false
    }
}


/// Whether the artifact at `i` is the first one with the id.
pub open spec fn first_with_id(artifacts: Seq<ArtifactView>, id: Seq<char>, i: int) -> bool {
    &&& 0 <= i < artifacts.len()
    &&& artifacts[i].id == id
    &&& forall|j: int| 0 <= j < i ==> (#[trigger] artifacts[j]).id != id
}

/// The artifact that a deployment of `id` is about: the first one with
/// that id. In a valid manifest it is the only one.
pub open spec fn resolve(manifest: HeimView, id: Seq<char>) -> Option<ArtifactView> {
    let artifacts = manifest.deploy.artifacts;
    if exists|i: int| first_with_id(artifacts, id, i) {
        Some(artifacts[choose|i: int| first_with_id(artifacts, id, i)])
    } else {
        None
    }
}

/// An id resolves exactly where some artifact has it.
pub proof fn lemma_resolve_finds(manifest: HeimView, id: Seq<char>)
    ensures
        resolve(manifest, id) is Some <==> exists|i: int|
            0 <= i < manifest.deploy.artifacts.len() && (
            #[trigger] manifest.deploy.artifacts[i]).id == id,
        resolve(manifest, id) matches Some(artifact) ==> artifact.id == id,
{
    let artifacts = manifest.deploy.artifacts;
    if exists|i: int| 0 <= i < artifacts.len() && (#[trigger] artifacts[i]).id == id {
        let i = choose|i: int| 0 <= i < artifacts.len() && (#[trigger] artifacts[i]).id == id;
        lemma_first_with_id(artifacts, id, i);
    }
}

/// In a manifest that keeps every rule, the artifact that an id resolves
/// to has a destination that is named and stays below the root directory.
pub proof fn lemma_resolved_is_safe(manifest: HeimView, id: Seq<char>)
    requires
        valid(manifest),
        resolve(manifest, id) is Some,
    ensures
        resolve(manifest, id)->0.id == id,
        resolve(manifest, id)->0.destination.len() > 0,
        stays_below(manifest.deploy.root_path, resolve(manifest, id)->0.destination),
{
    let artifacts = manifest.deploy.artifacts;
    let i = choose|i: int| first_with_id(artifacts, id, i);
    assert(artifacts[i].destination.len() > 0);
}

/// Where some artifact up to `i` has the id, one is the first with it.
proof fn lemma_first_with_id(artifacts: Seq<ArtifactView>, id: Seq<char>, i: int)
    requires
        0 <= i < artifacts.len(),
        artifacts[i].id == id,
    ensures
        exists|k: int| first_with_id(artifacts, id, k),
    decreases i,
{
    if exists|j: int| 0 <= j < i && (#[trigger] artifacts[j]).id == id {
        let j = choose|j: int| 0 <= j < i && (#[trigger] artifacts[j]).id == id;
        lemma_first_with_id(artifacts, id, j);
    } else {
        assert(first_with_id(artifacts, id, i));
    }
}

impl Heim {
    /// Looks up the artifact with the given id.
    pub fn artifact(&self, id: &str) -> (found: Option<&Artifact>)
        ensures
            found.deep_view() == resolve(self@, id@),
    {
        let artifacts = &self.deploy.artifacts;
        let ghost views = self@.deploy.artifacts;
        let wanted = String::from_str(id);
        let mut i: usize = 0;
        while i < artifacts.len()
            invariant
                artifacts == &self.deploy.artifacts,
                views == self@.deploy.artifacts,
                wanted@ == id@,
                i <= artifacts@.len(),
                forall|k: int| 0 <= k < i ==> (#[trigger] views[k]).id != id@,
            decreases artifacts@.len() - i,
        {
            assert(views[i as int] == artifacts@[i as int]@);
            if artifacts[i].id == wanted {
                proof {
                    assert(first_with_id(views, id@, i as int));
                    let chosen = choose|k: int| first_with_id(views, id@, k);
                    if chosen < i {
                        assert(views[chosen].id != id@);
                    }
                    if i < chosen {
                        assert(views[i as int].id != id@);
                    }
                }
                return Some(&artifacts[i]);
            }
            i += 1;
        }
        assert(!exists|k: int| first_with_id(views, id@, k));
        None
    }
}

} // verus!
