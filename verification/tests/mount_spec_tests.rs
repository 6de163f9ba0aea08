use agentfs_core::errors::ErrorKind;
use agentfs_core::mount_spec::{parse_mount_spec, parse_mount_specs, MountKind};

#[test]
fn parses_one_bind_descriptor() {
    let m = parse_mount_spec("type=bind,src=/tmp/x,dst=/data").unwrap();
    assert!(matches!(m.kind, MountKind::Bind));
    assert_eq!(m.source, "/tmp/x");
    assert_eq!(m.destination, "/data");
}

#[test]
fn missing_destination_is_incomplete() {
    let e = parse_mount_spec("type=bind,src=/tmp/x").unwrap_err();
    assert_eq!(e, ErrorKind::IncompleteMount);
}

#[test]
fn missing_source_is_incomplete() {
    let e = parse_mount_spec("type=bind,dst=/data").unwrap_err();
    assert_eq!(e, ErrorKind::IncompleteMount);
}

#[test]
fn missing_type_is_incomplete() {
    let e = parse_mount_spec("src=/tmp/x,dst=/data").unwrap_err();
    assert_eq!(e, ErrorKind::IncompleteMount);
}

#[test]
fn non_bind_type_is_unsupported() {
    let e = parse_mount_spec("type=nfs,src=/a,dst=/b").unwrap_err();
    assert_eq!(e, ErrorKind::UnsupportedMountType);
    let e = parse_mount_spec("type=Bind,src=/a,dst=/b").unwrap_err();
    assert_eq!(e, ErrorKind::UnsupportedMountType);
}

#[test]
fn token_without_equals_is_malformed() {
    let e = parse_mount_spec("nonsense").unwrap_err();
    assert_eq!(e, ErrorKind::MalformedMount);
    let e = parse_mount_spec("type=bind,src=/a,dst=/b,").unwrap_err();
    assert_eq!(e, ErrorKind::MalformedMount);
    let e = parse_mount_spec("").unwrap_err();
    assert_eq!(e, ErrorKind::MalformedMount);
}

#[test]
fn unknown_key_is_rejected_not_ignored() {
    let e = parse_mount_spec("type=bind,src=/a,dst=/b,mode=ro").unwrap_err();
    assert_eq!(e, ErrorKind::UnknownMountKey);
}

#[test]
fn later_token_overrides_earlier_one() {
    let m = parse_mount_spec("type=bind,src=/a,src=/b,dst=/data").unwrap();
    assert_eq!(m.source, "/b");
}

#[test]
fn empty_destination_is_malformed() {
    let e = parse_mount_spec("type=bind,src=/a,dst=").unwrap_err();
    assert_eq!(e, ErrorKind::MalformedMount);
}

#[test]
fn traversal_destination_is_malformed() {
    let e = parse_mount_spec("type=bind,src=/a,dst=/data/../../etc").unwrap_err();
    assert_eq!(e, ErrorKind::MalformedMount);
    let e = parse_mount_spec("type=bind,src=/a,dst=..").unwrap_err();
    assert_eq!(e, ErrorKind::MalformedMount);
    let m = parse_mount_spec("type=bind,src=/a,dst=/data/..dots").unwrap();
    assert_eq!(m.destination, "/data/..dots");
}

#[test]
fn value_may_hold_equals_sign() {
    let m = parse_mount_spec("type=bind,src=/a=b,dst=/c").unwrap();
    assert_eq!(m.source, "/a=b");
}

#[test]
fn list_keeps_order_and_first_error_wins() {
    let specs = vec![
        "type=bind,src=/one,dst=/1".to_string(),
        "type=bind,src=/two,dst=/2".to_string(),
    ];
    let ms = parse_mount_specs(&specs).unwrap();
    assert_eq!(ms.len(), 2);
    assert_eq!(ms[0].source, "/one");
    assert_eq!(ms[1].source, "/two");

    let specs = vec![
        "type=bind,src=/one,dst=/1".to_string(),
        "type=nfs,src=/a,dst=/b".to_string(),
        "plain".to_string(),
    ];
    let e = parse_mount_specs(&specs).unwrap_err();
    assert_eq!(e, ErrorKind::UnsupportedMountType);
}
