use heim::engine::Engine;
use heim::error::ErrorKind;
use heim::locks::InFlight;
use heim::manifest::{Artifact, Deploy, Heim};
use heim::store::Store;

fn artifact(id: &str, destination: &str) -> Artifact {
    Artifact {
        id: id.to_string(),
        kind: "java".to_string(),
        backup: false,
        destination: destination.to_string(),
        excluded_files: None,
        run_before: None,
        run_after: None,
    }
}

fn manifest(root: &str, artifacts: Vec<Artifact>) -> Heim {
    Heim { deploy: Deploy { root_path: root.to_string(), artifacts } }
}

const GOOD: &str = r#"{"deploy": {"root_path": "/new", "artifacts": [
    {"id": "a", "kind": "java", "backup": true, "destination": "a"},
    {"id": "b", "kind": "java", "backup": true, "destination": "b"},
    {"id": "c", "kind": "java", "backup": true, "destination": "c"}
]}}"#;

const BROKEN: &str = r#"{"deploy": {"root_path": "/new", "artifacts": [
    {"id": "a", "kind": "java", "backup": true, "destination": "a"},
    {"id": "a", "kind": "java", "backup": true, "destination": "b"}
]}}"#;

#[test]
fn store_takes_only_valid_manifests() {
    let store = Store::new(manifest("/srv", vec![artifact("a", "a")])).expect("the manifest is valid");
    assert_eq!(store.current(), manifest("/srv", vec![artifact("a", "a")]));
    assert_eq!(store.artifact_count(), 1);
    let error = Store::new(manifest("", vec![])).err().expect("the manifest has no root");
    assert_eq!(error.kind, ErrorKind::ValidationError);
    let error = Store::new(manifest("/srv", vec![artifact("a", "a"), artifact("a", "b")])).err().unwrap();
    assert_eq!(error.kind, ErrorKind::ValidationError);
    assert_eq!(error.message, "Heim.json is not a valid manifest.");
}

#[test]
fn replace_swaps_the_whole_manifest_or_nothing() {
    let mut store = Store::new(manifest("/srv", vec![artifact("a", "a")])).unwrap();
    assert!(store.replace(manifest("/other", vec![artifact("b", "b"), artifact("c", "c")])).is_ok());
    assert_eq!(store.current(), manifest("/other", vec![artifact("b", "b"), artifact("c", "c")]));
    let error = store.replace(manifest("/third", vec![artifact("x", "../x")])).unwrap_err();
    assert_eq!(error.kind, ErrorKind::ValidationError);
    assert_eq!(store.current(), manifest("/other", vec![artifact("b", "b"), artifact("c", "c")]));
    assert_eq!(store.current().validate(), Ok(()));
}

#[test]
fn failed_reload_keeps_the_live_manifest() {
    let first = manifest("/srv", vec![artifact("a", "a")]);
    let mut store = Store::new(manifest("/srv", vec![artifact("a", "a")])).unwrap();
    assert_eq!(store.reload(None).unwrap_err().kind, ErrorKind::IOError);
    assert_eq!(store.current(), first);
    assert_eq!(store.reload(Some("{ not json")).unwrap_err().kind, ErrorKind::DecodeError);
    assert_eq!(store.current(), first);
    assert_eq!(store.reload(Some("{\"deploy\": {}}")).unwrap_err().kind, ErrorKind::DecodeError);
    assert_eq!(store.current(), first);
    assert_eq!(store.reload(Some(BROKEN)).unwrap_err().kind, ErrorKind::ValidationError);
    assert_eq!(store.current(), first);
    assert_eq!(store.current().validate(), Ok(()));
}

#[test]
fn reload_installs_the_manifest_and_counts_its_artifacts() {
    let mut store = Store::new(manifest("/srv", vec![artifact("a", "a")])).unwrap();
    assert_eq!(store.reload(Some(GOOD)).ok(), Some(3));
    assert_eq!(store.current().deploy.root_path, "/new");
    assert_eq!(store.artifact_count(), 3);
    assert_eq!(store.artifact("b").map(|found| found.destination), Some("b".to_string()));
    assert!(store.artifact("z").is_none());
    assert_eq!(store.reload(Some(r#"{"deploy": {"root_path": "/x", "artifacts": []}}"#)).ok(), Some(0));
    assert_eq!(store.artifact_count(), 0);
}

#[test]
fn table_grants_one_deployment_for_each_artifact() {
    let mut table = InFlight::new();
    assert!(!table.holds("a"));
    assert!(table.acquire("a"));
    assert!(table.holds("a"));
    assert!(!table.acquire("a"));
    assert!(table.acquire("b"));
    assert!(!table.acquire("b"));
    table.release("a");
    assert!(!table.holds("a"));
    assert!(table.holds("b"));
    assert!(table.acquire("a"));
    table.release("c");
    assert!(table.holds("a"));
    assert!(table.holds("b"));
    table.release("a");
    table.release("b");
    assert!(!table.holds("a"));
    assert!(!table.holds("b"));
    assert!(table.acquire(""));
    assert!(!table.acquire(""));
}

#[test]
fn engine_serves_the_last_valid_manifest() {
    let engine = Engine::new(Store::new(manifest("/srv", vec![artifact("a", "a")])).unwrap());
    assert_eq!(engine.current(), manifest("/srv", vec![artifact("a", "a")]));
    assert_eq!(engine.reload(Some(BROKEN)).unwrap_err().kind, ErrorKind::ValidationError);
    assert_eq!(engine.reload(None).unwrap_err().kind, ErrorKind::IOError);
    assert_eq!(engine.reload(Some("]")).unwrap_err().kind, ErrorKind::DecodeError);
    assert_eq!(engine.current(), manifest("/srv", vec![artifact("a", "a")]));
    assert_eq!(engine.reload(Some(GOOD)).ok(), Some(3));
    assert_eq!(engine.current().deploy.artifacts.len(), 3);
    assert_eq!(engine.current().validate(), Ok(()));
}

#[test]
fn engine_runs_one_deployment_for_each_artifact() {
    let engine = Engine::new(Store::new(manifest("/srv", vec![artifact("a", "a"), artifact("b", "b")])).unwrap());
    let first = engine.begin("a", 1).expect("nothing is under way");
    let refused = engine.begin("a", 2).unwrap_err();
    assert_eq!(refused.failure, Some(ErrorKind::DeploymentInProgress));
    let other = engine.begin("b", 3).expect("another artifact is free");
    let unknown = engine.begin("c", 4).unwrap_err();
    assert_eq!(unknown.failure, Some(ErrorKind::ArtifactNotFound));
    let result = engine.finish(first);
    assert_eq!(result.artifact_id, "a");
    assert!(!result.success);
    let again = engine.begin("a", 5).expect("the first has ended");
    engine.finish(again);
    engine.finish(other);
    assert!(engine.begin("b", 6).is_ok());
}

fn shared<T: Send + Sync + 'static>() {}

#[test]
fn engine_can_be_shared_between_threads() {
    shared::<Engine>();
    shared::<Store>();
    shared::<InFlight>();
    shared::<heim::deploy::Deployment>();
}
