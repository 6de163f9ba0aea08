use agentfs_core::errors::ErrorKind;
use agentfs_core::mount_spec::parse_mount_spec;
use agentfs_core::sandbox::{
    effective_mounts, exit_outcome, plan_run, propagate_outcome, trace_line, ExitOutcome,
    SandboxSession,
};

fn mount(src: &str, dst: &str) -> agentfs_core::mount_spec::MountDescriptor {
    parse_mount_spec(&format!("type=bind,src={},dst={}", src, dst)).unwrap()
}

#[test]
fn later_mount_wins_at_same_destination() {
    let mounts = vec![mount("/a", "/data"), mount("/b", "/data")];
    let eff = effective_mounts(&mounts);
    assert_eq!(eff.len(), 1);
    assert_eq!(eff[0].source, "/b");
    assert_eq!(eff[0].destination, "/data");
}

#[test]
fn distinct_destinations_keep_declaration_order() {
    let mounts = vec![
        mount("/a", "/1"),
        mount("/b", "/2"),
        mount("/c", "/1"),
        mount("/d", "/3"),
    ];
    let eff = effective_mounts(&mounts);
    let pairs: Vec<(&str, &str)> =
        eff.iter().map(|m| (m.source.as_str(), m.destination.as_str())).collect();
    assert_eq!(pairs, vec![("/b", "/2"), ("/c", "/1"), ("/d", "/3")]);
}

#[test]
fn missing_source_fails_before_any_launch() {
    let session = SandboxSession {
        mounts: vec![mount("/present", "/1"), mount("/absent", "/2")],
        trace_enabled: false,
        command: "/bin/true".to_string(),
        args: vec![],
    };
    let exists = vec![true, false];
    let e = plan_run(session, &exists).unwrap_err();
    assert_eq!(e, ErrorKind::MountSourceNotFound);
}

#[test]
fn run_plan_carries_invocation_and_effective_mounts() {
    let session = SandboxSession {
        mounts: vec![mount("/a", "/data"), mount("/b", "/data")],
        trace_enabled: true,
        command: "/bin/echo".to_string(),
        args: vec!["hi".to_string()],
    };
    let exists = vec![true, true];
    let plan = plan_run(session, &exists).unwrap();
    assert!(plan.trace_enabled);
    assert_eq!(plan.command, "/bin/echo");
    assert_eq!(plan.args, vec!["hi".to_string()]);
    assert_eq!(plan.mounts.len(), 1);
    assert_eq!(plan.mounts[0].source, "/b");
}

#[test]
fn outcome_translation_prefers_exit_code() {
    assert_eq!(exit_outcome(Some(3), None), ExitOutcome::Code(3));
    assert_eq!(exit_outcome(Some(0), Some(9)), ExitOutcome::Code(0));
    assert_eq!(exit_outcome(None, Some(9)), ExitOutcome::Signal(9));
}

#[test]
fn outcome_propagation_follows_shell_convention() {
    assert_eq!(propagate_outcome(ExitOutcome::Code(42)), 42);
    assert_eq!(propagate_outcome(ExitOutcome::Signal(9)), 137);
    assert_eq!(propagate_outcome(ExitOutcome::Signal(-1)), 255);
}

#[test]
fn trace_lines_name_call_and_result() {
    let line = trace_line("openat", "AT_FDCWD, \"/etc/hosts\", O_RDONLY", "3");
    assert_eq!(line, "openat(AT_FDCWD, \"/etc/hosts\", O_RDONLY) = 3");
}
