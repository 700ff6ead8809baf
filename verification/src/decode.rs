//! The manifest as a JSON document: reading one, and writing one.
//!
//! A manifest is an object with the field `deploy`; every artifact needs
//! `id`, `kind`, `backup` and `destination`, and may have `excluded_files`,
//! `run_before` and `run_after`. Fields that the manifest does not know are
//! passed over. An optional field that is missing or null is absent.

use crate::error::{ErrorKind, HeimError};
use crate::json::{text_tree, Json, JsonTree};
use crate::manifest::{
    valid, Artifact, ArtifactView, Deploy, DeployView, Heim, HeimView, Run, RunView,
};
use vstd::prelude::*;

verus! {

/// The value of an optional field: none where the field is missing or null.
pub open spec fn present(tree: JsonTree, key: Seq<char>) -> Option<JsonTree> {
    match tree.field(key) {
        Some(JsonTree::Null) => None,
        other => other,
    }
}

/// The text under a key, where the field is there and is a string.
pub open spec fn text_in(tree: JsonTree, key: Seq<char>) -> Option<Seq<char>> {
    match tree.field(key) {
        Some(JsonTree::Text(text)) => Some(text),
        _ => None,
    }
}

/// The boolean under a key, where the field is there and is a boolean.
pub open spec fn flag_in(tree: JsonTree, key: Seq<char>) -> Option<bool> {
    match tree.field(key) {
        Some(JsonTree::Bool(flag)) => Some(flag),
        _ => None,
    }
}

/// The texts of an array of strings.
pub open spec fn texts_of(tree: JsonTree) -> Option<Seq<Seq<char>>> {
    match tree {
        JsonTree::Array(items) => {
            if forall|i: int| 0 <= i < items.len() ==> (#[trigger] items[i]) is Text {
                Some(Seq::new(items.len(), |i: int| items[i]->Text_0))
            } else {
                None
            }
        },
        _ => None,
    }
}

/// The optional list of texts under a key. The outer `None` says that the
/// field is there and is no list of strings.
pub open spec fn texts_in(tree: JsonTree, key: Seq<char>) -> Option<Option<Seq<Seq<char>>>> {
    match present(tree, key) {
        None => Some(None),
        Some(value) => match texts_of(value) {
            Some(texts) => Some(Some(texts)),
            None => None,
        },
    }
}

/// The hook that an object stands for.
pub open spec fn run_of(tree: JsonTree) -> Option<RunView> {
    if !(tree is Object) {
        None
    } else {
        match present(tree, "powershell"@) {
            None => Some(RunView { powershell: None }),
            Some(JsonTree::Text(command)) => Some(RunView { powershell: Some(command) }),
            Some(_) => None,
        }
    }
}

/// The optional hook under a key. The outer `None` says that the field is
/// there and is no hook.
pub open spec fn run_in(tree: JsonTree, key: Seq<char>) -> Option<Option<RunView>> {
    match present(tree, key) {
        None => Some(None),
        Some(value) => match run_of(value) {
            Some(run) => Some(Some(run)),
            None => None,
        },
    }
}

/// The artifact that an object stands for.
pub open spec fn artifact_of(tree: JsonTree) -> Option<ArtifactView> {
    if text_in(tree, "id"@) is Some && text_in(tree, "kind"@) is Some && flag_in(
        tree,
        "backup"@,
    ) is Some && text_in(tree, "destination"@) is Some && texts_in(tree, "excluded_files"@) is Some
        && run_in(tree, "run_before"@) is Some && run_in(tree, "run_after"@) is Some {
        Some(
            ArtifactView {
                id: text_in(tree, "id"@)->0,
                kind: text_in(tree, "kind"@)->0,
                backup: flag_in(tree, "backup"@)->0,
                destination: text_in(tree, "destination"@)->0,
                excluded_files: texts_in(tree, "excluded_files"@)->0,
                run_before: run_in(tree, "run_before"@)->0,
                run_after: run_in(tree, "run_after"@)->0,
            },
        )
    } else {
        None
    }
}

/// The artifacts that an array of objects stands for.
pub open spec fn artifacts_of(tree: JsonTree) -> Option<Seq<ArtifactView>> {
    match tree {
        JsonTree::Array(items) => {
            if forall|i: int| 0 <= i < items.len() ==> artifact_of(#[trigger] items[i]) is Some {
                Some(Seq::new(items.len(), |i: int| artifact_of(items[i])->0))
            } else {
                None
            }
        },
        _ => None,
    }
}

/// The body of a manifest that an object stands for.
pub open spec fn deploy_of(tree: JsonTree) -> Option<DeployView> {
    match (text_in(tree, "root_path"@), tree.field("artifacts"@)) {
        (Some(root_path), Some(list)) => match artifacts_of(list) {
            Some(artifacts) => Some(DeployView { root_path, artifacts }),
            None => None,
        },
        _ => None,
    }
}

/// The manifest that a document stands for, where it stands for one.
pub open spec fn heim_of(tree: JsonTree) -> Option<HeimView> {
    match tree.field("deploy"@) {
        Some(body) => match deploy_of(body) {
            Some(deploy) => Some(HeimView { deploy }),
            None => None,
        },
        None => None,
    }
}

/// Reads the text under a key.
fn read_text(json: &Json, key: &str) -> (found: Option<String>)
    ensures
        found.deep_view() == text_in(json@, key@),
{
    match json.field(key) {
        Some(value) => match value.text() {
            Some(text) => Some(text.clone()),
            None => None,
        },
        None => None,
    }
}

/// Reads the boolean under a key.
fn read_flag(json: &Json, key: &str) -> (found: Option<bool>)
    ensures
        found == flag_in(json@, key@),
{
    match json.field(key) {
        Some(value) => value.flag(),
        None => None,
    }
}

/// Reads the value of an optional field.
fn read_present<'a>(json: &'a Json, key: &str) -> (found: Option<&'a Json>)
    ensures
        match found {
            Some(value) => present(json@, key@) == Some(value@),
            None => present(json@, key@) is None,
        },
{
    match json.field(key) {
        Some(value) => if value.is_null() {
            None
        } else {
            Some(value)
        },
        None => None,
    }
}

/// Reads an array of strings.
fn read_texts(json: &Json) -> (found: Option<Vec<String>>)
    ensures
        found.deep_view() == texts_of(json@),
{
    match json.items() {
        Some(items) => {
            let ghost trees = json@->Array_0;
            let mut texts: Vec<String> = Vec::new();
            let mut i: usize = 0;
            while i < items.len()
                invariant
                    i <= items@.len(),
                    json@ == JsonTree::Array(trees),
                    trees.len() == items@.len(),
                    forall|k: int| 0 <= k < items@.len() ==> trees[k] == (#[trigger] items@[k])@,
                    texts@.len() == i,
                    forall|k: int|
                        0 <= k < i ==> (#[trigger] trees[k]) == JsonTree::Text(texts@[k]@),
                decreases items@.len() - i,
            {
                match items[i].text() {
                    Some(text) => {
                        texts.push(text.clone());
                    },
                    None => {
                        assert(!(trees[i as int] is Text));
                        return None;
                    },
                }
                i += 1;
            }
            assert(texts.deep_view() =~= texts_of(json@)->0);
            Some(texts)
        },
        None => None,
    }
}

/// Reads the optional list of texts under a key.
fn read_texts_in(json: &Json, key: &str) -> (found: Option<Option<Vec<String>>>)
    ensures
        found.deep_view() == texts_in(json@, key@),
{
    match read_present(json, key) {
        None => Some(None),
        Some(value) => match read_texts(value) {
            Some(texts) => Some(Some(texts)),
            None => None,
        },
    }
}

/// Reads a hook.
fn read_run(json: &Json) -> (found: Option<Run>)
    ensures
        found.deep_view() == run_of(json@),
{
    match json {
        Json::Object(_) => match read_present(json, "powershell") {
            None => Some(Run { powershell: None }),
            Some(value) => match value.text() {
                Some(command) => Some(Run { powershell: Some(command.clone()) }),
                None => None,
            },
        },
        _ => None,
    }
}

/// Reads the optional hook under a key.
fn read_run_in(json: &Json, key: &str) -> (found: Option<Option<Run>>)
    ensures
        found.deep_view() == run_in(json@, key@),
{
    match read_present(json, key) {
        None => Some(None),
        Some(value) => match read_run(value) {
            Some(run) => Some(Some(run)),
            None => None,
        },
    }
}

/// Reads an artifact.
fn read_artifact(json: &Json) -> (found: Option<Artifact>)
    ensures
        found.deep_view() == artifact_of(json@),
{
    let id = read_text(json, "id");
    let kind = read_text(json, "kind");
    let backup = read_flag(json, "backup");
    let destination = read_text(json, "destination");
    let excluded_files = read_texts_in(json, "excluded_files");
    let run_before = read_run_in(json, "run_before");
    let run_after = read_run_in(json, "run_after");
    match (id, kind, backup, destination, excluded_files, run_before, run_after) {
        (
            Some(id),
            Some(kind),
            Some(backup),
            Some(destination),
            Some(excluded_files),
            Some(run_before),
            Some(run_after),
        ) => Some(
            Artifact { id, kind, backup, destination, excluded_files, run_before, run_after },
        ),
        _ => None,
    }
}

/// Reads an array of artifacts.
fn read_artifacts(json: &Json) -> (found: Option<Vec<Artifact>>)
    ensures
        found.deep_view() == artifacts_of(json@),
{
    match json.items() {
        Some(items) => {
            let ghost trees = json@->Array_0;
            let mut artifacts: Vec<Artifact> = Vec::new();
            let mut i: usize = 0;
            while i < items.len()
                invariant
                    i <= items@.len(),
                    json@ == JsonTree::Array(trees),
                    trees.len() == items@.len(),
                    forall|k: int| 0 <= k < items@.len() ==> trees[k] == (#[trigger] items@[k])@,
                    artifacts@.len() == i,
                    forall|k: int|
                        0 <= k < i ==> artifact_of(#[trigger] trees[k]) == Some(artifacts@[k]@),
                decreases items@.len() - i,
            {
                match read_artifact(&items[i]) {
                    Some(artifact) => {
                        artifacts.push(artifact);
                    },
                    None => {
                        assert(artifact_of(trees[i as int]) is None);
                        return None;
                    },
                }
                i += 1;
            }
            assert(artifacts.deep_view() =~= artifacts_of(json@)->0);
            Some(artifacts)
        },
        None => None,
    }
}

/// Reads the body of a manifest.
fn read_deploy(json: &Json) -> (found: Option<Deploy>)
    ensures
        found.deep_view() == deploy_of(json@),
{
    let root_path = read_text(json, "root_path");
    match (root_path, json.field("artifacts")) {
        (Some(root_path), Some(list)) => match read_artifacts(list) {
            Some(artifacts) => Some(Deploy { root_path, artifacts }),
            None => None,
        },
        _ => None,
    }
}


/// The manifest that a text holds, where it is a JSON document that stands
/// for one.
pub open spec fn manifest_in(text: Seq<char>) -> Option<HeimView> {
    match text_tree(text) {
        Some(tree) => heim_of(tree),
        None => None,
    }
}

/// What loading the manifest answers, given what was read of the file, if
/// anything: the manifest, or the category of the failure.
pub open spec fn loaded(content: Option<Seq<char>>) -> Result<HeimView, ErrorKind> {
    match content {
        None => Err(ErrorKind::IOError),
        Some(text) => match manifest_in(text) {
            None => Err(ErrorKind::DecodeError),
            Some(manifest) => if valid(manifest) {
                Ok(manifest)
            } else {
                Err(ErrorKind::ValidationError)
            },
        },
    }
}

/// An answer by its model: the manifest's view, or the error's category.
pub open spec fn answer(outcome: Result<Heim, HeimError>) -> Result<HeimView, ErrorKind> {
    match outcome {
        Ok(manifest) => Ok(manifest@),
        Err(error) => Err(error.kind),
    }
}

impl Heim {
    /// Reads the manifest that a JSON document stands for.
    pub fn decode(json: &Json) -> (outcome: Result<Heim, HeimError>)
        ensures
            match outcome {
                Ok(manifest) => heim_of(json@) == Some(manifest@),
                Err(error) => heim_of(json@) is None && error.kind == ErrorKind::DecodeError
                    && error.plain(),
            },
    {
        let found = match json.field("deploy") {
            Some(body) => read_deploy(body),
            None => None,
        };
        match found {
            Some(deploy) => Ok(Heim { deploy }),
            None => Err(HeimError::of(ErrorKind::DecodeError)),
        }
    }

    /// Reads the manifest that a JSON text holds.
    pub fn parse(text: &str) -> (outcome: Result<Heim, HeimError>)
        ensures
            match outcome {
                Ok(manifest) => manifest_in(text@) == Some(manifest@),
                Err(error) => manifest_in(text@) is None && error.kind == ErrorKind::DecodeError
                    && error.plain(),
            },
    {
        match Json::parse(text) {
            Ok(json) => Heim::decode(&json),
            Err(error) => Err(error),
        }
    }

    /// Holds the manifest to the rules, as `validate` does, and answers
    /// with an error of the engine.
    pub fn check(&self) -> (outcome: Result<(), HeimError>)
        ensures
            outcome is Ok <==> valid(self@),
            outcome matches Err(error) ==> error.kind == ErrorKind::ValidationError && error.plain(),
    {
        match self.validate() {
            Ok(()) => Ok(()),
            Err(_) => Err(HeimError::of(ErrorKind::ValidationError)),
        }
    }
}

/// Loads the manifest from what was read of its file: `None` where the file
/// could not be read. The manifest is decoded and then held to the rules;
/// one that breaks a rule is refused as a whole.
pub fn load_heim(content: Option<&str>) -> (outcome: Result<Heim, HeimError>)
    ensures
        answer(outcome) == loaded(
            match content {
                Some(text) => Some(text@),
                None => None,
            },
        ),
        outcome matches Err(error) ==> error.plain(),
{
    match content {
        None => Err(HeimError::of(ErrorKind::IOError)),
        Some(text) => match Heim::parse(text) {
            Err(error) => Err(error),
            Ok(manifest) => match manifest.check() {
                Ok(()) => Ok(manifest),
                Err(error) => Err(error),
            },
        },
    }
}

} // verus!
