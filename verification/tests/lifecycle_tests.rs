use agentfs_core::errors::ErrorKind;
use agentfs_core::lifecycle::{creation_notice, file_owned_by, init_plan};

fn names(v: &[&str]) -> Vec<String> {
    v.iter().map(|s| s.to_string()).collect()
}

#[test]
fn fresh_init_plans_creation() {
    let entries = names(&[]);
    let plan = init_plan("agent-1", false, false, false, false, "/root/.agentfs", false, &entries)
        .unwrap();
    assert_eq!(plan.id, "agent-1");
    assert_eq!(plan.storage_path, "/root/.agentfs/agent-1.db");
    assert!(plan.remove.is_empty());
    assert!(!plan.overlay);
}

#[test]
fn invalid_identity_is_rejected_first() {
    let entries = names(&[]);
    let e = init_plan("bad id", true, true, false, false, "/r", true, &entries).unwrap_err();
    assert_eq!(e, ErrorKind::InvalidIdentity);
}

#[test]
fn unusable_base_is_rejected() {
    let entries = names(&[]);
    let e = init_plan("agent-1", false, true, false, false, "/r", false, &entries).unwrap_err();
    assert_eq!(e, ErrorKind::InvalidBase);
    let e = init_plan("agent-1", false, true, true, false, "/r", false, &entries).unwrap_err();
    assert_eq!(e, ErrorKind::InvalidBase);
}

#[test]
fn second_init_without_force_already_exists() {
    let entries = names(&["agent-1.db"]);
    let first = init_plan("agent-1", false, false, false, false, "/r", false, &entries);
    assert!(first.is_ok());
    let second = init_plan("agent-1", false, false, false, false, "/r", true, &entries);
    assert_eq!(second.unwrap_err(), ErrorKind::AlreadyExists);
}

#[test]
fn forced_reinit_removes_owned_files_only() {
    let entries = names(&[
        "agent-1.db",
        "agent-10.db",
        "agent-1.db-wal",
        "agent-1",
        "other.db",
        "agent-1x.db",
    ]);
    let plan = init_plan("agent-1", true, false, false, false, "/r", true, &entries).unwrap();
    assert_eq!(plan.remove, names(&["agent-1.db", "agent-1.db-wal", "agent-1"]));
}

#[test]
fn overlay_init_records_base() {
    let entries = names(&[]);
    let plan = init_plan("agent-1", false, true, true, true, "/r", false, &entries).unwrap();
    assert!(plan.overlay);
    let notice = creation_notice(&plan, "/srv/base");
    assert_eq!(
        notice,
        "Created overlay filesystem: /r/agent-1.db\nAgent ID: agent-1\nBase: /srv/base"
    );
}

#[test]
fn plain_init_notice_has_no_base() {
    let entries = names(&[]);
    let plan = init_plan("agent-1", false, false, false, false, "/r", false, &entries).unwrap();
    let notice = creation_notice(&plan, "");
    assert_eq!(notice, "Created agent filesystem: /r/agent-1.db\nAgent ID: agent-1");
}

#[test]
fn ownership_stops_at_the_dot() {
    assert!(file_owned_by("agent-1.db", "agent-1"));
    assert!(file_owned_by("agent-1.db-wal", "agent-1"));
    assert!(file_owned_by("agent-1", "agent-1"));
    assert!(!file_owned_by("agent-10.db", "agent-1"));
    assert!(!file_owned_by("agent-1x", "agent-1"));
    assert!(!file_owned_by("agent", "agent-1"));
}
