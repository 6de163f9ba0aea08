use agentfs_core::errors::ErrorKind;
use agentfs_core::errors::{diagnostic, exit_code};
use agentfs_core::identity::{
    generate_id, resolve_instance_ref, resolve_storage_path, timestamp_id, validate,
};

#[test]
fn accepts_identity_alphabet() {
    assert!(validate("agent-1"));
    assert!(validate("A"));
    assert!(validate("abc_XYZ-079"));
    assert!(validate("_-_"));
}

#[test]
fn rejects_other_characters() {
    assert!(!validate(""));
    assert!(!validate("a/b"));
    assert!(!validate("has space"));
    assert!(!validate("dot.name"));
    assert!(!validate("uni\u{e9}"));
    assert!(!validate("tab\there"));
}

#[test]
fn storage_path_is_root_id_db() {
    let p = resolve_storage_path("/home/u/.agentfs", "agent-1");
    assert_eq!(p, "/home/u/.agentfs/agent-1.db");
}

#[test]
fn timestamp_identity_spells_decimal() {
    assert_eq!(timestamp_id(0), "agent-0");
    assert_eq!(timestamp_id(7), "agent-7");
    assert_eq!(timestamp_id(1234567890), "agent-1234567890");
    assert_eq!(timestamp_id(u64::MAX), format!("agent-{}", u64::MAX));
}

#[test]
fn instance_reference_resolves_identity_or_path() {
    assert_eq!(resolve_instance_ref("/r", "agent-1"), "/r/agent-1.db");
    assert_eq!(resolve_instance_ref("/r", "/tmp/other.db"), "/tmp/other.db");
}

#[test]
fn generated_identity_is_valid() {
    let id = generate_id();
    assert!(id.starts_with("agent-"));
    assert!(validate(&id));
    assert!(id.len() > "agent-".len());
}

#[test]
fn exit_codes_are_distinct_and_nonzero() {
    let kinds = [
        ErrorKind::InvalidIdentity,
        ErrorKind::InvalidBase,
        ErrorKind::AlreadyExists,
        ErrorKind::CleanupFailed,
        ErrorKind::StoreOpenFailed,
        ErrorKind::MalformedMount,
        ErrorKind::UnsupportedMountType,
        ErrorKind::IncompleteMount,
        ErrorKind::UnknownMountKey,
        ErrorKind::MountSourceNotFound,
        ErrorKind::MountFailed,
        ErrorKind::InvalidMountpoint,
        ErrorKind::NotFound,
        ErrorKind::NotADirectory,
        ErrorKind::IsADirectory,
    ];
    let mut seen: Vec<i32> = Vec::new();
    for k in kinds {
        let c = exit_code(k);
        assert_ne!(c, 0);
        assert!(!seen.contains(&c));
        seen.push(c);
    }
}

#[test]
fn diagnostic_names_category_and_subject() {
    let line = diagnostic(ErrorKind::AlreadyExists, "agent-1");
    assert_eq!(line, "agent already exists: agent-1");
    let line = diagnostic(ErrorKind::NotFound, "/missing/file");
    assert_eq!(line, "path not found: /missing/file");
}
