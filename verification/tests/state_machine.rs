//! Session state machine lifecycle tests.

use oxideterm::session_state::{SessionState, SessionStateMachine};

#[test]
fn test_happy_path() {
    let mut sm = SessionStateMachine::new();
    assert_eq!(sm.state(), SessionState::Disconnected);

    sm.start_connecting().unwrap();
    assert_eq!(sm.state(), SessionState::Connecting);

    sm.connect_success().unwrap();
    assert_eq!(sm.state(), SessionState::Connected);

    sm.start_disconnecting().unwrap();
    assert_eq!(sm.state(), SessionState::Disconnecting);

    sm.disconnect_complete().unwrap();
    assert_eq!(sm.state(), SessionState::Disconnected);
}

#[test]
fn test_connect_failure() {
    let mut sm = SessionStateMachine::new();
    sm.start_connecting().unwrap();
    sm.connect_failed("Connection refused".to_string()).unwrap();

    assert_eq!(sm.state(), SessionState::Error);
    assert_eq!(sm.error(), Some("Connection refused"));
}

#[test]
fn test_invalid_transition() {
    let mut sm = SessionStateMachine::new();
    // Cannot go directly to Connected
    assert!(sm.connect_success().is_err());
}

#[test]
fn reset_clears_error_and_counts() {
    let mut sm = SessionStateMachine::new();
    sm.start_connecting().unwrap();
    sm.connect_failed("boom".to_string()).unwrap();
    assert_eq!(sm.transition_count(), 2);
    sm.reset();
    assert_eq!(sm.state(), SessionState::Disconnected);
    assert_eq!(sm.error(), None);
    assert_eq!(sm.transition_count(), 3);
    assert!(sm.is_terminal());
    assert!(!sm.is_active());
}

#[test]
fn state_labels_are_lower_case_words() {
    assert_eq!(SessionState::Disconnected.label(), "disconnected");
    assert_eq!(SessionState::Connecting.label(), "connecting");
    assert_eq!(SessionState::Connected.label(), "connected");
    assert_eq!(SessionState::Disconnecting.label(), "disconnecting");
    assert_eq!(SessionState::Error.label(), "error");
}
