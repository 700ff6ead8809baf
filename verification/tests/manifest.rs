use heim::manifest::Heim;

#[test]
fn test_deserialize_heim_example() {
    let data = r#"
        {
          "deploy": {
            "root_path": "D:\\projects\\artifacts",
            "artifacts": [
              {
                "id": "example-service",
                "kind": "java",
                "backup": true,
                "destination": "example-service",
                "excluded_files": [
                  "up.ps1"
                ],
                "run_after": {
                  "powershell": "Start-Process powershell -ArgumentList 'D:\\projects\\artifacts\\example-service\\up.ps1'"
                }
              },
              {
                "id": "example-client",
                "kind": "angular",
                "backup": true,
                "destination": "example-client\\example"
              }
            ]
          }
        }
        "#;

    let heim: Heim = Heim::parse(data).expect("Deserialization failed");

    assert_eq!(heim.deploy.root_path, "D:\\projects\\artifacts");
    assert_eq!(heim.deploy.artifacts.len(), 2);

    let service = &heim.deploy.artifacts[0];
    assert_eq!(service.id, "example-service");
    assert_eq!(service.kind, "java");
    assert_eq!(service.backup, true);
    assert_eq!(service.destination, "example-service");
    assert_eq!(service.excluded_files.as_ref().unwrap(), &vec!["up.ps1"]);
    assert!(service.run_before.is_none());
    assert!(service.run_after.is_some());
    assert_eq!(
        service
            .run_after
            .as_ref()
            .unwrap()
            .powershell
            .as_ref()
            .unwrap(),
        "Start-Process powershell -ArgumentList 'D:\\projects\\artifacts\\example-service\\up.ps1'"
    );

    let client = &heim.deploy.artifacts[1];
    assert_eq!(client.id, "example-client");
    assert_eq!(client.kind, "angular");
    assert_eq!(client.backup, true);
    assert_eq!(client.destination, "example-client\\example");
    assert!(client.excluded_files.is_none());
    assert!(client.run_before.is_none());
    assert!(client.run_after.is_none());
}

fn artifact(id: &str, destination: &str) -> heim::manifest::Artifact {
    heim::manifest::Artifact {
        id: id.to_string(),
        kind: "java".to_string(),
        backup: true,
        destination: destination.to_string(),
        excluded_files: None,
        run_before: None,
        run_after: None,
    }
}

fn manifest(root: &str, artifacts: Vec<heim::manifest::Artifact>) -> Heim {
    Heim { deploy: heim::manifest::Deploy { root_path: root.to_string(), artifacts } }
}

#[test]
fn example_manifest_is_valid() {
    let heim = manifest(
        "D:\\projects\\artifacts",
        vec![artifact("example-service", "example-service"), artifact("example-client", "example-client\\example")],
    );
    assert_eq!(heim.validate(), Ok(()));
    assert!(heim.check().is_ok());
}

#[test]
fn two_artifacts_with_one_id_fail_validation() {
    let text = r#"{"deploy": {"root_path": "/srv", "artifacts": [
        {"id": "svc", "kind": "java", "backup": true, "destination": "a"},
        {"id": "web", "kind": "angular", "backup": false, "destination": "b"},
        {"id": "svc", "kind": "java", "backup": true, "destination": "c"}
    ]}}"#;
    let heim = Heim::parse(text).expect("the document is a manifest");
    assert_eq!(heim.validate(), Err(heim::manifest::ValidationError::DuplicateId { index: 2 }));
    let error = heim.check().unwrap_err();
    assert_eq!(error.kind, heim::error::ErrorKind::ValidationError);
    assert_eq!(error.message, "Heim.json is not a valid manifest.");
}

#[test]
fn empty_root_path_fails_validation() {
    let heim = manifest("", vec![artifact("svc", "svc")]);
    assert_eq!(heim.validate(), Err(heim::manifest::ValidationError::EmptyRootPath));
}

#[test]
fn empty_destination_fails_validation() {
    let heim = manifest("/srv", vec![artifact("a", "a"), artifact("b", "")]);
    assert_eq!(heim.validate(), Err(heim::manifest::ValidationError::EmptyDestination { index: 1 }));
}

#[test]
fn climbing_destination_fails_validation() {
    let heim = manifest("/srv/artifacts", vec![artifact("a", "../etc")]);
    assert_eq!(heim.validate(), Err(heim::manifest::ValidationError::UnsafeDestination { index: 0 }));
    let heim = manifest("/srv/artifacts", vec![artifact("a", "ok"), artifact("b", "x\\..\\..\\y")]);
    assert_eq!(heim.validate(), Err(heim::manifest::ValidationError::UnsafeDestination { index: 1 }));
}

#[test]
fn absolute_destination_must_lie_below_the_root() {
    let outside = manifest("/srv/artifacts", vec![artifact("a", "/etc/passwd")]);
    assert_eq!(outside.validate(), Err(heim::manifest::ValidationError::UnsafeDestination { index: 0 }));
    let inside = manifest("/srv/artifacts", vec![artifact("a", "/srv/artifacts/a")]);
    assert_eq!(inside.validate(), Ok(()));
    let drive = manifest("D:\\projects", vec![artifact("a", "C:\\windows")]);
    assert_eq!(drive.validate(), Err(heim::manifest::ValidationError::UnsafeDestination { index: 0 }));
}

#[test]
fn the_first_broken_rule_is_reported() {
    let heim = manifest("/srv", vec![artifact("a", "a"), artifact("a", ""), artifact("a", "..")]);
    assert_eq!(heim.validate(), Err(heim::manifest::ValidationError::EmptyDestination { index: 1 }));
    let heim = manifest("/srv", vec![artifact("a", "a"), artifact("a", ".."), artifact("b", "")]);
    assert_eq!(heim.validate(), Err(heim::manifest::ValidationError::UnsafeDestination { index: 1 }));
}

#[test]
fn a_manifest_without_artifacts_is_valid() {
    let heim = manifest("/srv", vec![]);
    assert_eq!(heim.validate(), Ok(()));
}

#[test]
fn artifact_is_found_by_its_id() {
    let heim = manifest("/srv", vec![artifact("a", "x"), artifact("b", "y")]);
    assert_eq!(heim.artifact("b").map(|a| a.destination.as_str()), Some("y"));
    assert_eq!(heim.artifact("a").map(|a| a.destination.as_str()), Some("x"));
    assert!(heim.artifact("c").is_none());
    assert!(heim.artifact("").is_none());
}

#[test]
fn clone_copies_every_field() {
    let mut first = artifact("a", "x");
    first.excluded_files = Some(vec!["up.ps1".to_string(), "conf/local.json".to_string()]);
    first.run_before = Some(heim::manifest::Run { powershell: Some("stop".to_string()) });
    first.run_after = Some(heim::manifest::Run { powershell: None });
    let heim = manifest("/srv", vec![first, artifact("b", "y")]);
    let copy = heim.clone();
    assert_eq!(copy, heim);
}
