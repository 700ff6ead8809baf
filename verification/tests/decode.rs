use heim::decode::load_heim;
use heim::error::ErrorKind;
use heim::json::Json;
use heim::manifest::{Artifact, Deploy, Heim, Run};

fn to_value(json: &Json) -> serde_json::Value {
    match json {
        Json::Null => serde_json::Value::Null,
        Json::Bool(flag) => serde_json::Value::Bool(*flag),
        Json::Number(notation) => serde_json::from_str(notation).unwrap(),
        Json::Text(text) => serde_json::Value::String(text.clone()),
        Json::Array(items) => serde_json::Value::Array(items.iter().map(to_value).collect()),
        Json::Object(entries) => {
            let mut map = serde_json::Map::new();
            for (key, value) in entries {
                map.insert(key.clone(), to_value(value));
            }
            serde_json::Value::Object(map)
        }
    }
}

fn sample() -> Heim {
    Heim {
        deploy: Deploy {
            root_path: "D:\\projects\\artifacts".to_string(),
            artifacts: vec![
                Artifact {
                    id: "example-service".to_string(),
                    kind: "java".to_string(),
                    backup: true,
                    destination: "example-service".to_string(),
                    excluded_files: Some(vec!["up.ps1".to_string(), "conf/\"local\".json".to_string()]),
                    run_before: Some(Run { powershell: None }),
                    run_after: Some(Run { powershell: Some("Start-Process 'up.ps1'\n".to_string()) }),
                },
                Artifact {
                    id: "example-client".to_string(),
                    kind: "angular".to_string(),
                    backup: false,
                    destination: "example-client\\example".to_string(),
                    excluded_files: None,
                    run_before: None,
                    run_after: None,
                },
            ],
        },
    }
}

#[test]
fn written_manifest_reads_back_the_same() {
    let heim = sample();
    let document = heim.encode();
    let back = Heim::decode(&document).expect("the document stands for a manifest");
    assert_eq!(back, heim);
    assert_eq!(back.validate(), Ok(()));
}

#[test]
fn written_manifest_reads_back_through_text() {
    let heim = sample();
    let text = serde_json::to_string(&to_value(&heim.encode())).unwrap();
    let back = Heim::parse(&text).expect("the text holds a manifest");
    assert_eq!(back, heim);
    assert_eq!(back.validate(), Ok(()));
    let loaded = load_heim(Some(&text)).expect("the manifest is valid");
    assert_eq!(loaded, heim);
}

#[test]
fn encode_writes_the_fields_in_order() {
    let heim = Heim {
        deploy: Deploy {
            root_path: "/srv".to_string(),
            artifacts: vec![Artifact {
                id: "a".to_string(),
                kind: "k".to_string(),
                backup: true,
                destination: "d".to_string(),
                excluded_files: Some(vec!["x".to_string()]),
                run_before: None,
                run_after: Some(Run { powershell: Some("go".to_string()) }),
            }],
        },
    };
    let expected = Json::Object(vec![(
        "deploy".to_string(),
        Json::Object(vec![
            ("root_path".to_string(), Json::Text("/srv".to_string())),
            (
                "artifacts".to_string(),
                Json::Array(vec![Json::Object(vec![
                    ("id".to_string(), Json::Text("a".to_string())),
                    ("kind".to_string(), Json::Text("k".to_string())),
                    ("backup".to_string(), Json::Bool(true)),
                    ("destination".to_string(), Json::Text("d".to_string())),
                    ("excluded_files".to_string(), Json::Array(vec![Json::Text("x".to_string())])),
                    ("run_before".to_string(), Json::Null),
                    (
                        "run_after".to_string(),
                        Json::Object(vec![("powershell".to_string(), Json::Text("go".to_string()))]),
                    ),
                ])]),
            ),
        ]),
    )]);
    assert_eq!(heim.encode(), expected);
}

#[test]
fn missing_required_field_is_a_decode_error() {
    for missing in ["id", "kind", "backup", "destination"] {
        let mut fields = vec![
            ("id", "\"a\""),
            ("kind", "\"java\""),
            ("backup", "true"),
            ("destination", "\"a\""),
        ];
        fields.retain(|(name, _)| *name != missing);
        let body: Vec<String> = fields.iter().map(|(name, value)| format!("\"{}\": {}", name, value)).collect();
        let text = format!("{{\"deploy\": {{\"root_path\": \"/srv\", \"artifacts\": [{{{}}}]}}}}", body.join(", "));
        let error = Heim::parse(&text).unwrap_err();
        assert_eq!(error.kind, ErrorKind::DecodeError);
        assert_eq!(error.message, "Failed to read Heim.json.");
    }
}

#[test]
fn missing_deploy_or_root_path_or_artifacts_is_a_decode_error() {
    for text in [
        "{}",
        "{\"deploy\": {}}",
        "{\"deploy\": {\"root_path\": \"/srv\"}}",
        "{\"deploy\": {\"artifacts\": []}}",
        "{\"deploy\": null}",
        "[]",
        "null",
        "\"deploy\"",
    ] {
        assert_eq!(Heim::parse(text).unwrap_err().kind, ErrorKind::DecodeError);
    }
}

#[test]
fn wrong_types_are_a_decode_error() {
    for artifact in [
        r#"{"id": 1, "kind": "java", "backup": true, "destination": "a"}"#,
        r#"{"id": "a", "kind": null, "backup": true, "destination": "a"}"#,
        r#"{"id": "a", "kind": "java", "backup": "true", "destination": "a"}"#,
        r#"{"id": "a", "kind": "java", "backup": true, "destination": ["a"]}"#,
        r#"{"id": "a", "kind": "java", "backup": true, "destination": "a", "excluded_files": "up.ps1"}"#,
        r#"{"id": "a", "kind": "java", "backup": true, "destination": "a", "excluded_files": ["up.ps1", 2]}"#,
        r#"{"id": "a", "kind": "java", "backup": true, "destination": "a", "run_before": "stop"}"#,
        r#"{"id": "a", "kind": "java", "backup": true, "destination": "a", "run_after": {"powershell": 3}}"#,
        r#""a""#,
    ] {
        let text = format!("{{\"deploy\": {{\"root_path\": \"/srv\", \"artifacts\": [{}]}}}}", artifact);
        assert_eq!(Heim::parse(&text).unwrap_err().kind, ErrorKind::DecodeError);
    }
    let text = r#"{"deploy": {"root_path": "/srv", "artifacts": {"id": "a"}}}"#;
    assert_eq!(Heim::parse(text).unwrap_err().kind, ErrorKind::DecodeError);
    let text = r#"{"deploy": {"root_path": 7, "artifacts": []}}"#;
    assert_eq!(Heim::parse(text).unwrap_err().kind, ErrorKind::DecodeError);
}

#[test]
fn malformed_text_is_a_decode_error() {
    for text in ["", "{", "{\"deploy\": }", "{\"deploy\": {\"root_path\": \"/srv\", \"artifacts\": []}} x", "nul"] {
        assert_eq!(Heim::parse(text).unwrap_err().kind, ErrorKind::DecodeError);
    }
}

#[test]
fn unknown_fields_are_passed_over() {
    let text = r#"{"version": 3, "deploy": {"root_path": "/srv", "owner": {"name": "ops"}, "artifacts": [
        {"id": "a", "kind": "java", "backup": false, "destination": "a", "color": "red", "tags": [1, 2.5, null]}
    ]}, "extra": [true]}"#;
    let heim = Heim::parse(text).expect("unknown fields do no harm");
    assert_eq!(heim.deploy.root_path, "/srv");
    assert_eq!(heim.deploy.artifacts.len(), 1);
    assert_eq!(heim.deploy.artifacts[0].id, "a");
    assert_eq!(heim.deploy.artifacts[0].backup, false);
}

#[test]
fn optional_fields_that_are_null_are_absent() {
    let text = r#"{"deploy": {"root_path": "/srv", "artifacts": [
        {"id": "a", "kind": "java", "backup": false, "destination": "a",
         "excluded_files": null, "run_before": null, "run_after": {"powershell": null}}
    ]}}"#;
    let heim = Heim::parse(text).expect("null stands for an absent field");
    let artifact = &heim.deploy.artifacts[0];
    assert!(artifact.excluded_files.is_none());
    assert!(artifact.run_before.is_none());
    assert_eq!(artifact.run_after, Some(Run { powershell: None }));
}

#[test]
fn empty_lists_stay_empty_lists() {
    let text = r#"{"deploy": {"root_path": "/srv", "artifacts": [
        {"id": "a", "kind": "java", "backup": false, "destination": "a", "excluded_files": [], "run_after": {}}
    ]}}"#;
    let heim = Heim::parse(text).expect("the document is a manifest");
    assert_eq!(heim.deploy.artifacts[0].excluded_files, Some(vec![]));
    assert_eq!(heim.deploy.artifacts[0].run_after, Some(Run { powershell: None }));
}

#[test]
fn load_heim_tells_the_failures_apart() {
    assert_eq!(load_heim(None).unwrap_err().kind, ErrorKind::IOError);
    assert_eq!(load_heim(None).unwrap_err().message, "Failed to read Heim.json.");
    assert_eq!(load_heim(Some("{")).unwrap_err().kind, ErrorKind::DecodeError);
    let invalid = r#"{"deploy": {"root_path": "", "artifacts": []}}"#;
    assert_eq!(load_heim(Some(invalid)).unwrap_err().kind, ErrorKind::ValidationError);
    let valid = r#"{"deploy": {"root_path": "/srv", "artifacts": []}}"#;
    let heim = load_heim(Some(valid)).expect("the manifest is valid");
    assert_eq!(heim.deploy.root_path, "/srv");
    assert!(heim.deploy.artifacts.is_empty());
}

#[test]
fn decode_takes_the_first_entry_of_a_repeated_key() {
    let document = Json::Object(vec![
        (
            "deploy".to_string(),
            Json::Object(vec![
                ("root_path".to_string(), Json::Text("/first".to_string())),
                ("root_path".to_string(), Json::Text("/second".to_string())),
                ("artifacts".to_string(), Json::Array(vec![])),
            ]),
        ),
        ("deploy".to_string(), Json::Null),
    ]);
    let heim = Heim::decode(&document).expect("the first entries make a manifest");
    assert_eq!(heim.deploy.root_path, "/first");
}
