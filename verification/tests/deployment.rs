//! Deployment decision scenarios.

use oxideterm::deploy::{AgentDeployer, DeployAction, DeployError};
use oxideterm::deploy::{AgentStatus, DeployProgress};

#[test]
fn version_match_skips_upload_commands() {
    // The probe returns the exact local version: no mkdir, upload or chmod,
    // start proceeds directly, then the two handshake calls.
    let plan = AgentDeployer::plan_deployment("x86_64\n", Some("oxideterm-agent 1.4.0"), "1.4.0");
    let (target, actions) = plan.unwrap();
    assert_eq!(target, "x86_64-linux-musl");
    assert_eq!(
        actions,
        vec![DeployAction::StartAgent, DeployAction::Ping, DeployAction::SysInfo]
    );
}

#[test]
fn empty_probe_runs_full_sequence_in_order() {
    let plan = AgentDeployer::plan_deployment("aarch64\n", Some(""), "1.4.0");
    let (target, actions) = plan.unwrap();
    assert_eq!(target, "aarch64-linux-musl");
    assert_eq!(
        actions,
        vec![
            DeployAction::Mkdir,
            DeployAction::Upload,
            DeployAction::Chmod,
            DeployAction::StartAgent,
            DeployAction::Ping,
            DeployAction::SysInfo,
        ]
    );
}

#[test]
fn unrecognized_arch_is_terminal() {
    let plan = AgentDeployer::plan_deployment("riscv64\n", Some("1.4.0"), "1.4.0");
    match plan {
        Err(DeployError::UnsupportedArch(a)) => assert_eq!(a, "riscv64"),
        other => panic!("expected UnsupportedArch, got {:?}", other),
    }
}

#[test]
fn empty_identity_output_is_a_detection_failure() {
    let plan = AgentDeployer::plan_deployment("  \n", Some("1.4.0"), "1.4.0");
    assert!(matches!(plan, Err(DeployError::ArchDetection(_))));
}

#[test]
fn arch_names_map_to_their_targets() {
    assert_eq!(AgentDeployer::arch_to_target("x86_64").unwrap(), "x86_64-linux-musl");
    assert_eq!(AgentDeployer::arch_to_target("amd64").unwrap(), "x86_64-linux-musl");
    assert_eq!(AgentDeployer::arch_to_target("aarch64").unwrap(), "aarch64-linux-musl");
    assert_eq!(AgentDeployer::arch_to_target("arm64").unwrap(), "aarch64-linux-musl");
    assert!(matches!(
        AgentDeployer::arch_to_target("mips"),
        Err(DeployError::UnsupportedArch(_))
    ));
}

#[test]
fn probe_outcomes_decide_the_upload() {
    // Probe failure: conservative upload.
    assert!(AgentDeployer::needs_upload(None, "1.4.0"));
    // Missing binary marker.
    assert!(AgentDeployer::needs_upload(Some("NOT_FOUND"), "1.4.0"));
    // Empty output.
    assert!(AgentDeployer::needs_upload(Some("   "), "1.4.0"));
    // Version mismatch.
    assert!(AgentDeployer::needs_upload(Some("oxideterm-agent 1.3.9"), "1.4.0"));
    // Exact version match: skip.
    assert!(!AgentDeployer::needs_upload(Some("oxideterm-agent 1.4.0\n"), "1.4.0"));
}

#[test]
fn remote_commands_are_assembled_from_the_paths() {
    let dir = oxideterm::deploy::agent_remote_dir();
    let path = oxideterm::deploy::agent_remote_path();
    assert_eq!(dir, "~/.oxideterm");
    assert_eq!(path, "~/.oxideterm/oxideterm-agent");
    assert_eq!(oxideterm::deploy::mkdir_command(&dir), "mkdir -p ~/.oxideterm");
    assert_eq!(
        oxideterm::deploy::chmod_command(&path),
        "chmod +x ~/.oxideterm/oxideterm-agent"
    );
    assert_eq!(
        oxideterm::deploy::version_probe_command(&path),
        "~/.oxideterm/oxideterm-agent --version 2>/dev/null || echo 'NOT_FOUND'"
    );
    assert_eq!(
        oxideterm::deploy::binary_name_for_target("x86_64-linux-musl"),
        "agents/oxideterm-agent-x86_64-linux-musl"
    );
}

#[test]
fn command_warning_policy_is_non_fatal() {
    assert!(!AgentDeployer::command_warns(Some(0), ""));
    assert!(AgentDeployer::command_warns(Some(1), ""));
    assert!(!AgentDeployer::command_warns(None, "  \n"));
    assert!(AgentDeployer::command_warns(None, "mkdir: boom"));
}

#[test]
fn sys_info_must_deserialize_whole() {
    let v: serde_json::Value = serde_json::from_str(
        "{\"version\": \"1.4.0\", \"arch\": \"x86_64-linux-musl\", \"os\": \"linux\", \"pid\": 4242}",
    )
    .unwrap();
    let info = oxideterm::codec::read_sys_info(&v).unwrap();
    assert_eq!(info.version, "1.4.0");
    assert_eq!(info.arch, "x86_64-linux-musl");
    assert_eq!(info.os, "linux");
    assert_eq!(info.pid, 4242);

    let missing: serde_json::Value =
        serde_json::from_str("{\"version\": \"1.4.0\", \"arch\": \"x\"}").unwrap();
    assert!(oxideterm::codec::read_sys_info(&missing).is_none());
}

#[test]
fn status_progress_moves_monotonically() {
    let mut p = DeployProgress::new();
    assert!(matches!(p.status(), AgentStatus::NotDeployed));
    p.advance(AgentStatus::Deploying);
    p.advance(AgentStatus::Ready {
        version: "1.4.0".to_string(),
        arch: "x86_64-linux-musl".to_string(),
        pid: 4242,
    });
    assert!(matches!(p.status(), AgentStatus::Ready { .. }));
    // A new attempt restarts from the beginning.
    p.advance(AgentStatus::NotDeployed);
    assert!(matches!(p.status(), AgentStatus::NotDeployed));
}

#[test]
fn status_text_renders_each_state() {
    assert_eq!(AgentStatus::NotDeployed.status_text(), "Not deployed");
    assert_eq!(AgentStatus::Deploying.status_text(), "Deploying...");
    assert_eq!(
        AgentStatus::Ready {
            version: "1.4.0".to_string(),
            arch: "x86_64-linux-musl".to_string(),
            pid: 4242,
        }
        .status_text(),
        "Ready v1.4.0 x86_64-linux-musl (pid 4242)"
    );
    assert_eq!(
        AgentStatus::Failed { reason: "no route".to_string() }.status_text(),
        "Failed: no route"
    );
    assert_eq!(
        AgentStatus::UnsupportedArch { arch: "riscv64".to_string() }.status_text(),
        "Unsupported arch: riscv64"
    );
}
