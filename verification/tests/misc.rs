//! Uptime formatting, password policy, error classification and defaults.

use oxideterm::health::{format_uptime, HealthStatus, HealthStatusResponse, QuickHealthCheck};
use oxideterm::oxide::validate_password;
use oxideterm::sftp_err::{IoKind, SftpError};
use oxideterm::tree::{build_auth, build_connection, topology_auth_to_session_auth, AuthMethod};
use oxideterm::metrics::{make_empty_metrics, store_metrics, MetricsHistory, MetricsSource};
use oxideterm::rpc;
use oxideterm::config::SavedConnection;

#[test]
fn test_format_uptime() {
    assert_eq!(format_uptime(45), "45s");
    assert_eq!(format_uptime(90), "1m 30s");
    assert_eq!(format_uptime(3661), "1h 1m");
    assert_eq!(format_uptime(90061), "1d 1h");
}

#[test]
fn test_password_validation() {
    // Too short
    assert!(validate_password("Short1!").is_err());

    // No uppercase
    assert!(validate_password("nouppercase1!").is_err());

    // No lowercase
    assert!(validate_password("NOLOWERCASE1!").is_err());

    // No digits
    assert!(validate_password("NoDigits!abc").is_err());

    // No special characters
    assert!(validate_password("NoSpecial123Abc").is_err());

    // Valid
    assert!(validate_password("ValidPass123!").is_ok());
    assert!(validate_password("MySecureP@ssw0rd").is_ok());
}

#[test]
fn health_display_fields_follow_the_status() {
    let check = QuickHealthCheck {
        session_id: "s1".to_string(),
        status: HealthStatus::Healthy,
        latency_ms: Some(12),
        message: "all good".to_string(),
    };
    let resp = HealthStatusResponse::from_check(check, 3661);
    assert_eq!(resp.session_id, "s1");
    assert_eq!(resp.status, "healthy");
    assert_eq!(resp.status_color, "#22c55e");
    assert_eq!(resp.latency_ms, Some(12));
    assert_eq!(resp.message, "all good");
    assert_eq!(resp.uptime_formatted, "1h 1m");

    let check2 = QuickHealthCheck {
        session_id: "s2".to_string(),
        status: HealthStatus::Unresponsive,
        latency_ms: None,
        message: "silent".to_string(),
    };
    let resp2 = HealthStatusResponse::from_check(check2, 5);
    assert_eq!(resp2.status, "unresponsive");
    assert_eq!(resp2.status_color, "#ef4444");
}

#[test]
fn channel_recoverability_follows_the_classification() {
    assert!(SftpError::ChannelError("x".into()).is_channel_recoverable());
    assert!(SftpError::ProtocolError("x".into()).is_channel_recoverable());
    assert!(SftpError::SubsystemNotAvailable("x".into()).is_channel_recoverable());
    assert!(SftpError::IoError(IoKind::BrokenPipe).is_channel_recoverable());
    assert!(SftpError::IoError(IoKind::TimedOut).is_channel_recoverable());
    assert!(!SftpError::IoError(IoKind::OtherIo).is_channel_recoverable());
    assert!(!SftpError::PermissionDenied("x".into()).is_channel_recoverable());
    assert!(!SftpError::FileNotFound("x".into()).is_channel_recoverable());
    assert!(!SftpError::FileTooLarge { size: 10, max: 5 }.is_channel_recoverable());
    assert!(!SftpError::TransferCancelled.is_channel_recoverable());
}

#[test]
fn auth_building_follows_the_request() {
    match build_auth("password", Some("pw".to_string()), None, None).unwrap() {
        AuthMethod::Password { password } => assert_eq!(password, "pw"),
        _ => panic!(),
    }
    assert!(build_auth("password", None, None, None).is_err());
    match build_auth("key", None, Some("/k".to_string()), Some("pp".to_string())).unwrap() {
        AuthMethod::Key { key_path, passphrase } => {
            assert_eq!(key_path, "/k");
            assert_eq!(passphrase.as_deref(), Some("pp"));
        }
        _ => panic!(),
    }
    assert!(matches!(
        build_auth("agent", None, None, None).unwrap(),
        AuthMethod::Agent
    ));
    assert!(build_auth("hardware-token", None, None, None).is_err());

    let conn = build_connection(
        "h".to_string(),
        2222,
        "u".to_string(),
        AuthMethod::Agent,
        Some("display".to_string()),
    );
    assert_eq!(conn.host, "h");
    assert_eq!(conn.port, 2222);
    assert_eq!(conn.display_name.as_deref(), Some("display"));

    assert!(topology_auth_to_session_auth("password", &None).is_err());
    assert!(matches!(
        topology_auth_to_session_auth("agent", &None).unwrap(),
        AuthMethod::Agent
    ));
    match topology_auth_to_session_auth("key", &Some("/k".to_string())).unwrap() {
        AuthMethod::Key { key_path, passphrase } => {
            assert_eq!(key_path, "/k");
            assert!(passphrase.is_none());
        }
        _ => panic!(),
    }
}

#[test]
fn metrics_history_is_a_bounded_ring() {
    let mut h = MetricsHistory::new();
    assert!(h.latest().is_none());
    for _ in 0..70 {
        let m = make_empty_metrics(MetricsSource::RttOnly);
        store_metrics(&mut h, &m);
    }
    assert_eq!(h.history().len(), 60);
    assert!(h.latest().is_some());
}

#[test]
fn protocol_defaults_and_responses() {
    assert_eq!(rpc::default_max_size(), 10 * 1024 * 1024);
    assert_eq!(rpc::default_max_depth(), 3);
    assert_eq!(rpc::default_max_entries(), 5000);
    assert_eq!(rpc::default_grep_max(), 500);
    assert_eq!(oxideterm::search::default_max_matches(), 100);
    assert_eq!(oxideterm::tree::default_auth_type(), "agent");
    assert_eq!(oxideterm::tree::default_cols(), 80);
    assert_eq!(oxideterm::tree::default_rows(), 24);
    assert_eq!(oxideterm::config::default_port(), 22);
    assert_eq!(oxideterm::types::default_max_lines(), 100000);
    assert!(oxideterm::types::default_save_on_disconnect());

    let ok = rpc::Response::ok(1, serde_json::Value::Bool(true));
    assert_eq!(ok.id, 1);
    assert!(ok.result.is_some());
    assert!(ok.error.is_none());
    let err = rpc::Response::err(2, rpc::ERR_METHOD_NOT_FOUND, "nope".to_string());
    assert_eq!(err.id, 2);
    assert!(err.result.is_none());
    assert_eq!(err.error.as_ref().unwrap().code, -32601);
}

#[test]
fn fresh_connections_carry_distinct_generated_ids() {
    let a = SavedConnection::new_password("a", "h", 22, "u", "kc");
    let b = SavedConnection::new_password("b", "h", 22, "u", "kc");
    assert_eq!(a.id.len(), 36);
    assert_eq!(b.id.len(), 36);
    assert_ne!(a.id, b.id);
}
