use octos_tui::transport::{bounded_send_error, stdio_command, stdio_text_frame_event, TransportEvent, TransportFrame};
use octos_tui::json::JsonValue;
use octos_tui::model::auth::{AuthLogoutResult, AuthSendCodeResult, ProfileLocalCreateResult};
use octos_tui::model::protocol_types::{ProfileSkillsListResult, ProfileSkillsMutationResult};
use octos_tui::transport::{
    auth_logout_event, auth_send_code_event, profile_local_create_event, profile_skills_list_event,
    profile_skills_mutation_event,
};
use octos_tui::model::auth::{AuthScopedProfile, AuthStatusResult};
use octos_tui::permission_profile::{PermissionNetworkPolicy, PermissionProfileMode, PermissionProfileSelection};
use octos_tui::protocol::ProtocolExchange;
use octos_tui::transport::{
    append_metadata_section, approval_scopes_status, auth_status_message, clean_auth_token, endpoint_from_cli,
    interrupt_ack_status, is_protocol_target, is_websocket_url, permission_profile_list_status,
    permission_profile_set_status, protocol_snapshot_status, protocol_target_label, protocol_transport_description,
    runtime_unavailable, task_output_display_text, AppUiEndpoint,
};

#[test]
fn launch_from_cli_uses_stdio_endpoint_when_requested() {
    let endpoint = endpoint_from_cli(
        Some("octos serve --stdio".into()),
        Some("ws://127.0.0.1:9000/ui".into()),
        Some("coding".into()),
        Some("token".into()),
    );
    assert_eq!(endpoint, Some(AppUiEndpoint::stdio("octos serve --stdio".into())));
    let endpoint = endpoint_from_cli(None, Some("ws://h/ui".into()), Some("coding".into()), None);
    assert_eq!(
        endpoint,
        Some(AppUiEndpoint::websocket_with_profile("ws://h/ui".into(), None, Some("coding".into())))
    );
    assert_eq!(endpoint.unwrap().label(), "ws://h/ui");
    assert_eq!(endpoint_from_cli(None, None, None, None), None);
}

#[test]
fn auth_tokens_are_trimmed_and_blank_ones_dropped() {
    assert_eq!(clean_auth_token("  abc \n".into()), Some("abc".to_string()));
    assert_eq!(clean_auth_token(" \t ".into()), None);
}

#[test]
fn websocket_urls_are_recognised_case_insensitively() {
    assert!(is_websocket_url("  WS://host"));
    assert!(is_websocket_url("wss://host"));
    assert!(!is_websocket_url("http://host"));
    assert!(!is_websocket_url("ws:/"));
    assert!(is_protocol_target(" STDIO:octos"));
    assert!(!is_protocol_target("octos serve"));
    assert_eq!(protocol_target_label("wss://h"), "wss://h");
    assert_eq!(protocol_target_label("octos serve"), "stdio:octos serve");
    assert_eq!(protocol_transport_description("ws://h"), "WebSocket");
    assert_eq!(protocol_transport_description("octos"), "stdio");
}

#[test]
fn status_lines() {
    assert_eq!(protocol_snapshot_status(true, true), "Protocol backend connected read-only; session/open sent.");
    assert_eq!(
        protocol_snapshot_status(false, false),
        "Protocol backend connected. Pass --session to open an interactive session."
    );
    assert_eq!(
        runtime_unavailable(None),
        "failed to create tokio runtime for UI protocol backend: unknown runtime initialization error"
    );
    assert_eq!(approval_scopes_status(0), "No persisted approval scopes for this session");
    assert_eq!(approval_scopes_status(1), "1 persisted approval scope for this session");
    assert_eq!(approval_scopes_status(3), "3 persisted approval scopes for this session");
    let current = PermissionProfileSelection {
        mode: PermissionProfileMode::WorkspaceWrite,
        network: PermissionNetworkPolicy::Deny,
    };
    assert_eq!(permission_profile_list_status(current), "Permissions: Workspace Write, network blocked");
    assert_eq!(permission_profile_set_status(false, current), "Permissions unchanged: Workspace Write, network blocked");
}

#[test]
fn auth_status_messages() {
    let mut result = AuthStatusResult {
        bootstrap_mode: false,
        email_login_enabled: false,
        admin_token_login_enabled: false,
        allow_self_registration: false,
        scoped_profile: None,
        authenticated: true,
        email_otp: false,
        token_login: false,
        profile_id: Some("coding".into()),
    };
    assert_eq!(auth_status_message(&result), "Authenticated for profile coding");
    result.profile_id = None;
    assert_eq!(auth_status_message(&result), "Authenticated");
    result.authenticated = false;
    result.email_otp = true;
    assert_eq!(auth_status_message(&result), "Not authenticated; email OTP is available");
    result.scoped_profile = Some(AuthScopedProfile { id: "team".into(), name: "Team".into(), email_login_enabled: false });
    assert_eq!(auth_status_message(&result), "Authenticated for profile team");
}

#[test]
fn interrupt_status_reads_the_flag() {
    let result = JsonValue::Object(vec![("interrupted".into(), JsonValue::Bool(true))], "{\"interrupted\":true}".into());
    assert_eq!(interrupt_ack_status(&result), "Interrupt acknowledged; active turn cancelled");
    assert_eq!(interrupt_ack_status(&JsonValue::Null), "Interrupt acknowledged");
}

#[test]
fn task_output_metadata_is_appended_once() {
    let text = task_output_display_text("done", &vec!["out.txt".into()], &vec!["no network".into()]);
    assert_eq!(text, "done\noutput_files:\n- out.txt\nlimitations:\n- no network\n");
    let text = task_output_display_text("output_files: listed\n", &vec!["out.txt".into()], &Vec::new());
    assert_eq!(text, "output_files: listed\n");
    let mut s = String::new();
    append_metadata_section(&mut s, "t", &vec!["a".into(), "b".into()]);
    assert_eq!(s, "t:\n- a\n- b\n");
}

#[test]
fn request_admission_and_failures() {
    let mut exchange = ProtocolExchange::new();
    assert!(exchange.refuse_when_full("turn/start").is_none());
    let id = exchange.track_request("turn/start");
    let error = exchange.reject_oversized_request(&id, "turn/start", 20, 10).expect("too large");
    assert_eq!(error.code, "frame_too_large");
    assert_eq!(error.message, "encoded turn/start request tui-1 is 20 bytes; max is 10");
    assert_eq!(exchange.pending_len(), 0);
    let id = exchange.track_request("turn/start");
    assert!(exchange.reject_oversized_request(&id, "turn/start", 5, 10).is_none());
    let error = exchange.fail_send(&id, "turn/start", "broken pipe");
    assert_eq!(error.message, "failed to send turn/start request tui-2: broken pipe");
    assert_eq!(exchange.pending_len(), 0);
    for _ in 0..256 {
        exchange.track_request("x");
    }
    let error = exchange.refuse_when_full("turn/start").expect("full");
    assert_eq!(error.code, "too_many_pending_requests");
    assert_eq!(error.message, "UI protocol has 256 pending request(s); refusing to enqueue turn/start request");
}

#[test]
fn result_status_lines() {
    let listed = profile_skills_list_event(ProfileSkillsListResult::default());
    assert_eq!(listed.message, "Profile skills refreshed: none installed");
    let mutation = ProfileSkillsMutationResult {
        ok: true,
        installed: vec!["a".into(), "b".into()],
        ..ProfileSkillsMutationResult::default()
    };
    assert_eq!(profile_skills_mutation_event(mutation).message, "Installed skill(s): a, b");
    let failed = ProfileSkillsMutationResult { ok: false, ..ProfileSkillsMutationResult::default() };
    assert_eq!(profile_skills_mutation_event(failed).message, "Skill operation failed");
    assert_eq!(
        auth_send_code_event(AuthSendCodeResult { ok: true, message: None }).message,
        "OTP send acknowledged"
    );
    assert_eq!(auth_logout_event(AuthLogoutResult { ok: false, message: None }).message, "Logout failed");
    let created = ProfileLocalCreateResult {
        profile_id: "ada".into(),
        user_id: "u".into(),
        name: "Ada".into(),
        username: "ada".into(),
        email: "ada@example.com".into(),
        created: false,
        runtime_mode: "solo".into(),
    };
    assert_eq!(profile_local_create_event(created).message, "Local solo profile loaded: ada (ada@example.com)");
}

#[test]
fn stdio_frames_over_the_limit_end_the_connection() {
    let ok = stdio_text_frame_event("{}".to_string(), 8);
    assert_eq!(ok, TransportEvent::Frame(TransportFrame::Text("{}".to_string())));
    assert!(!ok.ends_connection(false));
    let big = stdio_text_frame_event("0123456789".to_string(), 8);
    assert_eq!(
        big,
        TransportEvent::Error {
            code: "frame_too_large".to_string(),
            message: "UI protocol stdio frame is 10 bytes; max is 8".to_string(),
            disconnect: true,
        }
    );
    assert!(big.ends_connection(false));
}

#[test]
fn close_frame_ends_only_a_websocket() {
    let close = TransportEvent::Frame(TransportFrame::Close);
    assert!(close.ends_connection(true));
    assert!(!close.ends_connection(false));
    assert!(TransportEvent::Disconnected("gone".to_string()).ends_connection(false));
    let soft = TransportEvent::Error { code: "transport_stderr".to_string(), message: String::new(), disconnect: false };
    assert!(!soft.ends_connection(true));
}

#[test]
fn stdio_command_is_trimmed_and_not_blank() {
    assert_eq!(stdio_command("  octos serve --stdio \n"), Ok("octos serve --stdio".to_string()));
    assert_eq!(stdio_command("   "), Err("UI protocol stdio command must not be empty".to_string()));
    assert_eq!(
        bounded_send_error("UI protocol stdio writer", true),
        "UI protocol stdio writer queue is full; reconnect will retry on next send/read"
    );
    assert_eq!(bounded_send_error("UI protocol WebSocket writer", false), "UI protocol WebSocket writer is closed");
}

#[test]
fn request_ids_count_issued_requests() {
    let mut exchange = ProtocolExchange::new();
    assert_eq!(exchange.requests_issued(), 0);
    assert_eq!(exchange.track_request("session/open"), "tui-1");
    assert_eq!(exchange.requests_issued(), 1);
}

#[test]
fn stdio_transport_driver_rejects_empty_command() {
    let err = match stdio_command("   ") {
        Ok(_) => panic!("empty command should be rejected"),
        Err(err) => err,
    };
    assert!(err.contains("UI protocol stdio command must not be empty"));
}

#[test]
fn stdio_transport_driver_shape_is_line_oriented_text() {
    let command = stdio_command("octos serve --stdio").expect("driver builds");
    let endpoint = octos_tui::transport::AppUiEndpoint::stdio(command);
    assert_eq!(endpoint.label(), "octos serve --stdio");
}

#[test]
fn stdio_transport_rejects_oversized_text_frame_before_decode() {
    let limit: usize = 1024 * 1024;
    let event = stdio_text_frame_event("x".repeat(limit + 1), limit);
    let TransportEvent::Error { code, message, disconnect } = event else {
        panic!("expected oversized stdio frame error");
    };
    assert_eq!(code, "frame_too_large");
    assert!(message.contains("UI protocol stdio frame"));
    assert!(disconnect);
}

#[test]
fn protocol_backend_bounds_pending_requests_before_transport_send() {
    let mut exchange = ProtocolExchange::new();
    for _ in 0..256 {
        exchange.track_request("approval/scopes/list");
    }
    let error = exchange.refuse_when_full("approval/scopes/list").expect("pending saturation is reported");
    assert_eq!(exchange.pending_len(), 256);
    assert_eq!(error.code, "too_many_pending_requests");
    assert!(error.message.contains("pending request"));
    assert!(error.message.contains("approval/scopes/list"));
}
