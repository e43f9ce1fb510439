use octos_tui::connection::{ConnectionStatus, ProtocolConnectionState};

#[test]
fn new_status_is_disconnected_and_unreported() {
    let s = ConnectionStatus::new();
    assert!(!s.is_connected());
    assert_eq!(s.state, ProtocolConnectionState::Disconnected);
    assert!(!s.disconnected_status_reported);
    assert!(!s.should_reopen_session(true));
}

#[test]
fn first_connect_reports_nothing() {
    let mut s = ConnectionStatus::new();
    assert_eq!(s.mark_connected("ws://a"), None);
    assert!(s.is_connected());
}

#[test]
fn drop_is_reported_once() {
    let mut s = ConnectionStatus::new();
    s.mark_connected("ws://a");
    assert_eq!(s.mark_disconnected("lost".to_string()), Some("lost".to_string()));
    assert_eq!(s.mark_disconnected("lost again".to_string()), None);
    assert!(s.should_reopen_session(true));
    assert!(!s.should_reopen_session(false));
}

#[test]
fn reconnect_is_reported_after_a_reported_drop() {
    let mut s = ConnectionStatus::new();
    s.mark_connected("ws://a");
    s.mark_disconnected("lost".to_string());
    assert_eq!(s.mark_connected("ws://a"), Some("UI protocol reconnected to ws://a.".to_string()));
    assert_eq!(s.mark_connected("ws://a"), None);
    assert_eq!(s.mark_disconnected("lost".to_string()), Some("lost".to_string()));
}

#[test]
fn drop_before_any_connect_is_reported() {
    let mut s = ConnectionStatus::new();
    assert_eq!(s.mark_disconnected("offline".to_string()), Some("offline".to_string()));
    assert_eq!(s.mark_disconnected("offline".to_string()), None);
}

#[test]
fn protocol_backend_records_disconnected_status() {
    let mut s = ConnectionStatus::new();
    s.mark_connected("wss://example.test/ui-protocol");
    let line = s.mark_disconnected("UI protocol disconnected for test.".to_string()).expect("status line");
    assert_eq!(s.state, ProtocolConnectionState::Disconnected);
    assert!(line.contains("disconnected"));
}
