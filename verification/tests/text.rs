use heim::backup::{backup_location, safe_name_text, staging_location};
use heim::error::{ErrorKind, HeimError, HookPhase};
use heim::text::{decimal_text, joined, signed_text};

#[test]
fn decimal_text_writes_numbers() {
    assert_eq!(decimal_text(0), "0");
    assert_eq!(decimal_text(7), "7");
    assert_eq!(decimal_text(10), "10");
    assert_eq!(decimal_text(8080), "8080");
    assert_eq!(decimal_text(1234567890), "1234567890");
    assert_eq!(decimal_text(u64::MAX), "18446744073709551615");
}

#[test]
fn signed_text_writes_negative_numbers() {
    assert_eq!(signed_text(0), "0");
    assert_eq!(signed_text(1), "1");
    assert_eq!(signed_text(-1), "-1");
    assert_eq!(signed_text(i32::MAX), "2147483647");
    assert_eq!(signed_text(i32::MIN), "-2147483648");
}

#[test]
fn joined_puts_two_texts_together() {
    assert_eq!(joined("a", "b"), "ab");
    assert_eq!(joined("", "b"), "b");
    assert_eq!(joined("a", ""), "a");
}

#[test]
fn safe_name_replaces_what_is_not_plain() {
    assert_eq!(safe_name_text("example-service"), "example-service");
    assert_eq!(safe_name_text("svc_1.v2"), "svc_1.v2");
    assert_eq!(safe_name_text("a/b\\c:d e"), "a_b_c_d_e");
    assert_eq!(safe_name_text("../.."), ".._..");
    assert_eq!(safe_name_text("été"), "_t_");
    assert_eq!(safe_name_text(""), "");
}

#[test]
fn backup_location_names_artifact_and_attempt() {
    assert_eq!(backup_location("svc1", 7), ".backups/svc1-7");
    assert_eq!(backup_location("example-service", 1700000000), ".backups/example-service-1700000000");
    assert_eq!(backup_location("../../etc", 0), ".backups/.._.._etc-0");
    assert_eq!(backup_location("", 12), ".backups/-12");
}

#[test]
fn staging_location_names_artifact_and_attempt() {
    assert_eq!(staging_location("svc1", 7), ".staging/svc1-7");
    assert_eq!(staging_location("a b", 10), ".staging/a_b-10");
    assert!(heim::paths::below("/srv", &staging_location("../x", 1)));
    assert!(!heim::paths::same(&staging_location("svc1", 7), &backup_location("svc1", 7)));
}

#[test]
fn backup_location_is_two_segments_below_any_root() {
    for id in ["svc1", "..", "/", "a/b", "C:\\x", ""] {
        let place = backup_location(id, 3);
        assert_eq!(heim::paths::split(&place).len(), 2);
        assert!(!heim::paths::absolute(&place));
        assert!(heim::paths::below("/srv", &place));
    }
}

#[test]
fn describe_prints_category_and_description() {
    let error = HeimError::new(ErrorKind::DecodeError, "Failed to read Heim.json.");
    assert_eq!(error.describe(), "DecodeError: Failed to read Heim.json.");
    assert_eq!(error.describe(), format!("{:?}: {}", error.kind, error.message));
    for kind in [
        ErrorKind::DecodeError,
        ErrorKind::ValidationError,
        ErrorKind::ArtifactNotFound,
        ErrorKind::DeploymentInProgress,
        ErrorKind::BackupFailed,
        ErrorKind::HookFailed { phase: HookPhase::Before },
        ErrorKind::HookFailed { phase: HookPhase::After },
        ErrorKind::InstallFailed,
        ErrorKind::IOError,
    ] {
        let error = HeimError::new(kind, "what happened");
        assert_eq!(error.describe(), format!("{:?}: {}", error.kind, error.message));
        assert_eq!(kind.label(), format!("{:?}", kind));
    }
}

#[test]
fn error_of_a_category_carries_its_description() {
    assert_eq!(HeimError::of(ErrorKind::ValidationError).message, "Heim.json is not a valid manifest.");
    assert_eq!(HeimError::of(ErrorKind::DecodeError).message, "Failed to read Heim.json.");
    assert_eq!(HeimError::of(ErrorKind::IOError).message, "Failed to read Heim.json.");
    assert_eq!(HeimError::of(ErrorKind::IOError).kind, ErrorKind::IOError);
}
