//! Writing the manifest as a JSON document, and the law that reading it
//! back gives the same manifest.

use crate::decode::{
    artifact_of, artifacts_of, deploy_of, heim_of, loaded, manifest_in, run_in, run_of, texts_in,
    texts_of,
};
use crate::error::ErrorKind;
use crate::json::{
    lemma_array_view, lemma_field_at, lemma_object_view, text_tree, Json, JsonTree,
};
use crate::manifest::{
    valid, validation, lemma_validation_accepts_valid, Artifact, ArtifactView, Deploy, DeployView,
    Heim, HeimView, Run, RunView,
};
use vstd::prelude::*;

verus! {

/// The document of an optional text: null where there is none.
pub open spec fn optional_text_tree(text: Option<Seq<char>>) -> JsonTree {
    match text {
        Some(text) => JsonTree::Text(text),
        None => JsonTree::Null,
    }
}

/// The document of a hook.
pub open spec fn run_tree(run: RunView) -> JsonTree {
    JsonTree::Object(seq![("powershell"@, optional_text_tree(run.powershell))])
}

/// The document of an optional hook: null where there is none.
pub open spec fn optional_run_tree(run: Option<RunView>) -> JsonTree {
    match run {
        Some(run) => run_tree(run),
        None => JsonTree::Null,
    }
}

/// The document of a list of texts.
pub open spec fn texts_tree(texts: Seq<Seq<char>>) -> JsonTree {
    JsonTree::Array(Seq::new(texts.len(), |i: int| JsonTree::Text(texts[i])))
}

/// The document of an optional list of texts: null where there is none.
pub open spec fn optional_texts_tree(texts: Option<Seq<Seq<char>>>) -> JsonTree {
    match texts {
        Some(texts) => texts_tree(texts),
        None => JsonTree::Null,
    }
}

/// The document of an artifact: an object with the seven fields in the
/// order of the declaration.
pub open spec fn artifact_tree(artifact: ArtifactView) -> JsonTree {
    JsonTree::Object(
        seq![
            ("id"@, JsonTree::Text(artifact.id)),
            ("kind"@, JsonTree::Text(artifact.kind)),
            ("backup"@, JsonTree::Bool(artifact.backup)),
            ("destination"@, JsonTree::Text(artifact.destination)),
            ("excluded_files"@, optional_texts_tree(artifact.excluded_files)),
            ("run_before"@, optional_run_tree(artifact.run_before)),
            ("run_after"@, optional_run_tree(artifact.run_after)),
        ],
    )
}

/// The document of a list of artifacts.
pub open spec fn artifacts_tree(artifacts: Seq<ArtifactView>) -> JsonTree {
    JsonTree::Array(Seq::new(artifacts.len(), |i: int| artifact_tree(artifacts[i])))
}

/// The document of the body of a manifest.
pub open spec fn deploy_tree(deploy: DeployView) -> JsonTree {
    JsonTree::Object(
        seq![
            ("root_path"@, JsonTree::Text(deploy.root_path)),
            ("artifacts"@, artifacts_tree(deploy.artifacts)),
        ],
    )
}

/// The document of a manifest.
pub open spec fn heim_tree(manifest: HeimView) -> JsonTree {
    JsonTree::Object(seq![("deploy"@, deploy_tree(manifest.deploy))])
}

/// The names of the fields differ from each other.
proof fn lemma_field_names()
    ensures
        "id"@.len() == 2,
        "kind"@.len() == 4,
        "backup"@.len() == 6,
        "destination"@.len() == 11,
        "excluded_files"@.len() == 14,
        "run_before"@.len() == 10,
        "run_after"@.len() == 9,
        "root_path"@.len() == 9,
        "artifacts"@.len() == 9,
        "root_path"@ != "artifacts"@,
{
    reveal_strlit("id");
    reveal_strlit("kind");
    reveal_strlit("backup");
    reveal_strlit("destination");
    reveal_strlit("excluded_files");
    reveal_strlit("run_before");
    reveal_strlit("run_after");
    reveal_strlit("root_path");
    reveal_strlit("artifacts");
    assert("root_path"@[0] == 'r');
    assert("artifacts"@[0] == 'a');
}

/// Reading the document of a hook gives the hook.
pub proof fn lemma_run_round_trip(run: RunView)
    ensures
        run_of(run_tree(run)) == Some(run),
{
    let entries = seq![("powershell"@, optional_text_tree(run.powershell))];
    lemma_field_at(entries, "powershell"@, 0);
}

/// Reading the document of a list of texts gives the list.
pub proof fn lemma_texts_round_trip(texts: Seq<Seq<char>>)
    ensures
        texts_of(texts_tree(texts)) == Some(texts),
{
    assert(texts_of(texts_tree(texts))->0 =~= texts);
}

/// Reading the document of an artifact gives the artifact.
pub proof fn lemma_artifact_round_trip(artifact: ArtifactView)
    ensures
        artifact_of(artifact_tree(artifact)) == Some(artifact),
{
    let tree = artifact_tree(artifact);
    let entries = tree->Object_0;
    lemma_field_names();
    lemma_field_at(entries, "id"@, 0);
    lemma_field_at(entries, "kind"@, 1);
    lemma_field_at(entries, "backup"@, 2);
    lemma_field_at(entries, "destination"@, 3);
    lemma_field_at(entries, "excluded_files"@, 4);
    lemma_field_at(entries, "run_before"@, 5);
    lemma_field_at(entries, "run_after"@, 6);
    if artifact.excluded_files is Some {
        lemma_texts_round_trip(artifact.excluded_files->0);
    }
    if artifact.run_before is Some {
        lemma_run_round_trip(artifact.run_before->0);
    }
    if artifact.run_after is Some {
        lemma_run_round_trip(artifact.run_after->0);
    }
    assert(texts_in(tree, "excluded_files"@) == Some(artifact.excluded_files));
    assert(run_in(tree, "run_before"@) == Some(artifact.run_before));
    assert(run_in(tree, "run_after"@) == Some(artifact.run_after));
}

/// Reading the document of a manifest gives the manifest.
pub proof fn lemma_round_trip(manifest: HeimView)
    ensures
        heim_of(heim_tree(manifest)) == Some(manifest),
{
    let deploy = manifest.deploy;
    let list = artifacts_tree(deploy.artifacts);
    assert forall|i: int| 0 <= i < deploy.artifacts.len() implies artifact_of(
        #[trigger] list->Array_0[i],
    ) == Some(deploy.artifacts[i]) by {
        lemma_artifact_round_trip(deploy.artifacts[i]);
    }
    assert(artifacts_of(list)->0 =~= deploy.artifacts);
    lemma_field_names();
    let body = deploy_tree(deploy);
    lemma_field_at(body->Object_0, "root_path"@, 0);
    lemma_field_at(body->Object_0, "artifacts"@, 1);
    assert(deploy_of(body) == Some(deploy));
    lemma_field_at(heim_tree(manifest)->Object_0, "deploy"@, 0);
}

/// A manifest that keeps every rule still keeps them after it was written
/// as a document and read back.
pub proof fn lemma_round_trip_stays_valid(manifest: HeimView)
    requires
        valid(manifest),
    ensures
        heim_of(heim_tree(manifest)) is Some,
        validation(heim_of(heim_tree(manifest))->0) is Ok,
{
    lemma_round_trip(manifest);
    lemma_validation_accepts_valid(manifest);
}


/// A text that reads as the document of a manifest holds that manifest,
/// and loads as it where the manifest keeps every rule.
pub proof fn lemma_written_text_loads(manifest: HeimView, text: Seq<char>)
    ensures
        text_tree(text) == Some(heim_tree(manifest)) ==> manifest_in(text) == Some(manifest),
        text_tree(text) == Some(heim_tree(manifest)) && valid(manifest) ==> loaded(Some(text))
            == Ok::<HeimView, ErrorKind>(manifest),
{
    lemma_round_trip(manifest);
}

/// Writes an optional text.
fn write_optional_text(text: &Option<String>) -> (json: Json)
    ensures
        json@ == optional_text_tree(text.deep_view()),
{
    match text {
        Some(text) => Json::Text(text.clone()),
        None => Json::Null,
    }
}

/// Writes a hook.
fn write_run(run: &Run) -> (json: Json)
    ensures
        json@ == run_tree(run@),
{
    let mut entries: Vec<(String, Json)> = Vec::new();
    entries.push((String::from_str("powershell"), write_optional_text(&run.powershell)));
    proof {
        lemma_object_view(entries);
    }
    let json = Json::Object(entries);
    assert(json@->Object_0 =~= run_tree(run@)->Object_0);
    json
}

/// Writes an optional hook.
fn write_optional_run(run: &Option<Run>) -> (json: Json)
    ensures
        json@ == optional_run_tree(run.deep_view()),
{
    match run {
        Some(run) => write_run(run),
        None => Json::Null,
    }
}

/// Writes a list of texts.
fn write_texts(texts: &Vec<String>) -> (json: Json)
    ensures
        json@ == texts_tree(texts.deep_view()),
{
    let mut items: Vec<Json> = Vec::new();
    let mut i: usize = 0;
    while i < texts.len()
        invariant
            i <= texts@.len(),
            items@.len() == i,
            forall|k: int| 0 <= k < i ==> (#[trigger] items@[k])@ == JsonTree::Text(texts@[k]@),
        decreases texts@.len() - i,
    {
        items.push(Json::Text(texts[i].clone()));
        i += 1;
    }
    proof {
        lemma_array_view(items);
    }
    let json = Json::Array(items);
    assert(json@->Array_0 =~= texts_tree(texts.deep_view())->Array_0);
    json
}

/// Writes an optional list of texts.
fn write_optional_texts(texts: &Option<Vec<String>>) -> (json: Json)
    ensures
        json@ == optional_texts_tree(texts.deep_view()),
{
    match texts {
        Some(texts) => write_texts(texts),
        None => Json::Null,
    }
}

/// Writes an artifact.
fn write_artifact(artifact: &Artifact) -> (json: Json)
    ensures
        json@ == artifact_tree(artifact@),
{
    let mut entries: Vec<(String, Json)> = Vec::new();
    entries.push((String::from_str("id"), Json::Text(artifact.id.clone())));
    entries.push((String::from_str("kind"), Json::Text(artifact.kind.clone())));
    entries.push((String::from_str("backup"), Json::Bool(artifact.backup)));
    entries.push((String::from_str("destination"), Json::Text(artifact.destination.clone())));
    entries.push(
        (String::from_str("excluded_files"), write_optional_texts(&artifact.excluded_files)),
    );
    entries.push((String::from_str("run_before"), write_optional_run(&artifact.run_before)));
    entries.push((String::from_str("run_after"), write_optional_run(&artifact.run_after)));
    proof {
        lemma_object_view(entries);
    }
    let json = Json::Object(entries);
    assert(json@->Object_0 =~= artifact_tree(artifact@)->Object_0);
    json
}

/// Writes the body of a manifest.
fn write_deploy(deploy: &Deploy) -> (json: Json)
    ensures
        json@ == deploy_tree(deploy@),
{
    let mut items: Vec<Json> = Vec::new();
    let mut i: usize = 0;
    while i < deploy.artifacts.len()
        invariant
            i <= deploy.artifacts@.len(),
            items@.len() == i,
            forall|k: int|
                0 <= k < i ==> (#[trigger] items@[k])@ == artifact_tree(deploy.artifacts@[k]@),
        decreases deploy.artifacts@.len() - i,
    {
        items.push(write_artifact(&deploy.artifacts[i]));
        i += 1;
    }
    proof {
        lemma_array_view(items);
    }
    let list = Json::Array(items);
    assert(list@->Array_0 =~= artifacts_tree(deploy@.artifacts)->Array_0);
    let mut entries: Vec<(String, Json)> = Vec::new();
    entries.push((String::from_str("root_path"), Json::Text(deploy.root_path.clone())));
    entries.push((String::from_str("artifacts"), list));
    proof {
        lemma_object_view(entries);
    }
    let json = Json::Object(entries);
    assert(json@->Object_0 =~= deploy_tree(deploy@)->Object_0);
    json
}

impl Heim {
    /// Writes the manifest as a JSON document. An optional field that is
    /// absent is written as null.
    pub fn encode(&self) -> (json: Json)
        ensures
            json@ == heim_tree(self@),
            heim_of(json@) == Some(self@),
    {
        let mut entries: Vec<(String, Json)> = Vec::new();
        entries.push((String::from_str("deploy"), write_deploy(&self.deploy)));
        proof {
            lemma_object_view(entries);
            lemma_round_trip(self@);
        }
        let json = Json::Object(entries);
        assert(json@->Object_0 =~= heim_tree(self@)->Object_0);
        json
    }
}

} // verus!
