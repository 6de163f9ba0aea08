use agentfs_core::errors::ErrorKind;
use agentfs_core::fsquery::{list_outcome, read_outcome};
use agentfs_core::fuse::{mount_plan, MountHandle, MountMode};

fn handle(foreground: bool, uid: Option<u32>, gid: Option<u32>) -> MountHandle {
    MountHandle {
        instance: "agent-1".to_string(),
        mountpoint: "/mnt/agent".to_string(),
        uid,
        gid,
        auto_unmount: true,
        allow_root: false,
        foreground,
    }
}

#[test]
fn fresh_instance_lists_empty_root() {
    let r = list_outcome(true, true, vec![]).unwrap();
    assert!(r.is_empty());
}

#[test]
fn listing_missing_path_is_not_found() {
    assert_eq!(list_outcome(false, false, vec![]).unwrap_err(), ErrorKind::NotFound);
}

#[test]
fn listing_a_file_is_not_a_directory() {
    assert_eq!(
        list_outcome(true, false, vec!["x".to_string()]).unwrap_err(),
        ErrorKind::NotADirectory
    );
}

#[test]
fn reading_missing_path_is_not_found() {
    assert_eq!(read_outcome(false, false, vec![]).unwrap_err(), ErrorKind::NotFound);
}

#[test]
fn reading_a_directory_fails() {
    assert_eq!(read_outcome(true, true, vec![1]).unwrap_err(), ErrorKind::IsADirectory);
}

#[test]
fn reading_a_file_returns_its_bytes() {
    assert_eq!(read_outcome(true, false, vec![104, 105]).unwrap(), vec![104, 105]);
}

#[test]
fn bad_mountpoint_is_rejected() {
    let e = mount_plan(handle(false, None, None), 1000, 1000, false, false).unwrap_err();
    assert_eq!(e, ErrorKind::InvalidMountpoint);
    let e = mount_plan(handle(false, None, None), 1000, 1000, true, false).unwrap_err();
    assert_eq!(e, ErrorKind::InvalidMountpoint);
}

#[test]
fn ownership_defaults_to_invoking_user() {
    let s = mount_plan(handle(false, None, None), 1000, 100, true, true).unwrap();
    assert_eq!(s.uid, 1000);
    assert_eq!(s.gid, 100);
    assert!(s.auto_unmount);
    assert!(!s.allow_root);
    assert_eq!(s.mode, MountMode::Daemon);
}

#[test]
fn explicit_ownership_overrides_and_foreground_blocks() {
    let s = mount_plan(handle(true, Some(0), Some(0)), 1000, 100, true, true).unwrap();
    assert_eq!(s.uid, 0);
    assert_eq!(s.gid, 0);
    assert_eq!(s.mode, MountMode::Foreground);
    assert_eq!(s.instance, "agent-1");
    assert_eq!(s.mountpoint, "/mnt/agent");
}
