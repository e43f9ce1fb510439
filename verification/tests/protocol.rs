use octos_tui::json::{JsonNumber, JsonValue};
use octos_tui::protocol::{AppUiError, PendingRequest, PendingRequests, ProtocolExchange, RpcEvent, rpc_text_to_app_event_with_pending};
use octos_tui::protocol;
use serde_json::Value;

const FRAME_LIMIT: usize = 1024 * 1024;

fn to_json(v: &Value) -> JsonValue {
    match v {
        Value::Null => JsonValue::Null,
        Value::Bool(b) => JsonValue::Bool(*b),
        Value::Number(n) => JsonValue::Number(JsonNumber { repr: n.to_string(), integral: n.is_i64() || n.is_u64() }),
        Value::String(s) => JsonValue::String(s.clone()),
        Value::Array(items) => JsonValue::Array(items.iter().map(to_json).collect(), v.to_string()),
        Value::Object(map) => JsonValue::Object(
            map.iter().map(|(k, x)| (k.clone(), to_json(x))).collect(),
            v.to_string(),
        ),
    }
}

fn parse(text: &str) -> Result<JsonValue, String> {
    serde_json::from_str::<Value>(text).map(|v| to_json(&v)).map_err(|e| e.to_string())
}

fn rpc_text_to_app_event(text: &str) -> Option<RpcEvent> {
    protocol::rpc_text_to_app_event(text, parse(text), FRAME_LIMIT)
}

fn expect_error(event: Option<RpcEvent>) -> AppUiError {
    match event {
        Some(RpcEvent::Error(error)) => error,
        other => panic!("expected app error, got {other:?}"),
    }
}

#[test]
fn protocol_success_response_is_ack_only() {
    let event = rpc_text_to_app_event(r#"{"jsonrpc":"2.0","id":"tui-1","result":{}}"#);
    assert!(event.is_none(), "response decodes");
}

#[test]
fn protocol_error_response_maps_to_app_error() {
    let error = expect_error(rpc_text_to_app_event(
        r#"{"jsonrpc":"2.0","id":"tui-1","error":{"code":"unknown_session","message":"missing session"}}"#,
    ));
    assert_eq!(error.code, "unknown_session");
    assert_eq!(error.message, "request tui-1 failed: missing session");
}

#[test]
fn rpc_error_prefers_structured_data_kind_over_numeric_code() {
    let error = expect_error(rpc_text_to_app_event(
        r#"{"jsonrpc":"2.0","id":"tui-set-perms","error":{"code":-32603,"message":"application error","data":{"kind":"policy_rejected","message":"tenant policy forbids danger-full-access"}}}"#,
    ));
    assert_eq!(error.code, "policy_rejected");
    assert!(
        error.message.contains("tenant policy forbids"),
        "structured detail must reach the user: {}",
        error.message
    );
}

#[test]
fn rpc_error_falls_back_to_top_level_code_when_data_kind_absent() {
    let error = expect_error(rpc_text_to_app_event(
        r#"{"jsonrpc":"2.0","id":"tui-1","error":{"code":"unknown_session","message":"missing session","data":{"hint":"check the session id"}}}"#,
    ));
    assert_eq!(error.code, "unknown_session");
    assert!(error.message.contains("missing session"), "{}", error.message);
}

#[test]
fn rpc_error_ignores_blank_data_kind() {
    let error = expect_error(rpc_text_to_app_event(
        r#"{"jsonrpc":"2.0","id":"tui-1","error":{"code":"unknown_session","message":"missing session","data":{"kind":"   "}}}"#,
    ));
    assert_eq!(error.code, "unknown_session");
}

#[test]
fn rpc_error_numeric_code_is_printed_and_message_defaults() {
    let error = expect_error(rpc_text_to_app_event(r#"{"jsonrpc":"2.0","id":7,"error":{"code":-32601}}"#));
    assert_eq!(error.code, "-32601");
    assert_eq!(error.message, "request 7 failed: JSON-RPC error");
    let error = expect_error(rpc_text_to_app_event(r#"{"jsonrpc":"2.0","id":null,"error":{}}"#));
    assert_eq!(error.code, "json_rpc_error");
    assert_eq!(error.message, "JSON-RPC error");
}

#[test]
fn protocol_malformed_frames_become_recoverable_errors() {
    let error = expect_error(rpc_text_to_app_event("{"));
    assert_eq!(error.code, "malformed_json");
    assert!(error.message.starts_with("UI protocol frame is not JSON: "));
    assert!(error.message.ends_with("; preview=\"{\""));

    let error = expect_error(rpc_text_to_app_event(
        r#"{"method":"message/delta","params":{}}"#,
    ));
    assert_eq!(error.code, "invalid_jsonrpc");
    assert_eq!(error.message, "UI protocol frame is missing jsonrpc \"2.0\"");

    let error = expect_error(rpc_text_to_app_event(r#"{"jsonrpc":"1.0","method":"x"}"#));
    assert_eq!(error.message, "unsupported JSON-RPC version: 1.0");
    let error = expect_error(rpc_text_to_app_event(r#"{"jsonrpc":2,"method":"x"}"#));
    assert_eq!(error.message, "UI protocol frame jsonrpc field must be \"2.0\"");
    let error = expect_error(rpc_text_to_app_event("[1,2]"));
    assert_eq!(error.code, "malformed_frame");
    assert_eq!(error.message, "UI protocol frame must be a JSON object");
    let error = expect_error(rpc_text_to_app_event(r#"{"jsonrpc":"2.0","method":"x","id":1}"#));
    assert_eq!(error.message, "UI protocol notification must not include id, result, or error");
    let error = expect_error(rpc_text_to_app_event(r#"{"jsonrpc":"2.0","method":3}"#));
    assert_eq!(error.message, "UI protocol notification method must be a string");
    let error = expect_error(rpc_text_to_app_event(r#"{"jsonrpc":"2.0","result":{}}"#));
    assert_eq!(error.message, "UI protocol response is missing id");
    let error = expect_error(rpc_text_to_app_event(r#"{"jsonrpc":"2.0","id":"a","result":{},"error":{}}"#));
    assert_eq!(error.message, "UI protocol response must include exactly one of result or error");
    let error = expect_error(rpc_text_to_app_event(r#"{"jsonrpc":"2.0","id":1.5,"result":{}}"#));
    assert_eq!(error.message, "UI protocol response id must be a string, integer, or null");
    let error = expect_error(rpc_text_to_app_event(r#"{"jsonrpc":"2.0","id":null,"result":{}}"#));
    assert_eq!(error.message, "UI protocol success response id must not be null");
    let error = expect_error(rpc_text_to_app_event(r#"{"jsonrpc":"2.0","id":"a","error":"oops"}"#));
    assert_eq!(error.message, "UI protocol error response error field must be an object");
    let error = expect_error(rpc_text_to_app_event(r#"{"jsonrpc":"2.0"}"#));
    assert_eq!(
        error.message,
        "unsupported UI protocol frame: expected JSON-RPC notification or response"
    );
}

#[test]
fn server_heartbeat_notification_is_ignored() {
    let frame = r#"{"jsonrpc":"2.0","method":"server/heartbeat","params":{"timestamp":"2026-05-13T17:17:00Z"}}"#;
    assert!(rpc_text_to_app_event(frame).is_none());
}

#[test]
fn notifications_carry_method_and_params() {
    let frame = r#"{"jsonrpc":"2.0","method":"message/delta","params":{"text":"hello"}}"#;
    match rpc_text_to_app_event(frame) {
        Some(RpcEvent::Notification { method, params }) => {
            assert_eq!(method, "message/delta");
            assert!(matches!(params, JsonValue::Object(_, _)));
        }
        other => panic!("expected notification, got {other:?}"),
    }
    match rpc_text_to_app_event(r#"{"jsonrpc":"2.0","method":"turn/started"}"#) {
        Some(RpcEvent::Notification { params, .. }) => assert!(matches!(params, JsonValue::Null)),
        other => panic!("expected notification, got {other:?}"),
    }
}

#[test]
fn oversized_frames_are_refused_before_decoding() {
    let mut pending = PendingRequests::new();
    let text = "x".repeat(11);
    let event = rpc_text_to_app_event_with_pending(&text, parse(&text), 10, &mut pending);
    let error = expect_error(event);
    assert_eq!(error.code, "frame_too_large");
    assert_eq!(error.message, "UI protocol frame is 11 bytes; max is 10");
}

#[test]
fn protocol_exchange_tracks_requests_without_transport() {
    let mut exchange = ProtocolExchange::new();
    let id = exchange.track_request("approval/scopes/list");
    assert_eq!(id, "tui-1");
    assert_eq!(exchange.pending_len(), 1);

    let frame = format!(r#"{{"jsonrpc":"2.0","id":"{id}","result":{{"scopes":[]}}}}"#);
    match exchange.decode_rpc_text(&frame, parse(&frame), FRAME_LIMIT) {
        Some(RpcEvent::Response { id: answered, method, result }) => {
            assert_eq!(answered, "tui-1");
            assert_eq!(method, "approval/scopes/list");
            assert!(matches!(result, JsonValue::Object(_, _)));
        }
        other => panic!("expected a response, got {other:?}"),
    }
    assert_eq!(exchange.pending_len(), 0);
}

#[test]
fn error_responses_name_the_tracked_method() {
    let mut exchange = ProtocolExchange::new();
    let _ = exchange.track_request("session/open");
    let id = exchange.track_request("diff/preview/get");
    assert_eq!(id, "tui-2");
    let frame = format!(r#"{{"jsonrpc":"2.0","id":"{id}","error":{{"code":"not_found","message":"gone"}}}}"#);
    let error = expect_error(exchange.decode_rpc_text(&frame, parse(&frame), FRAME_LIMIT));
    assert_eq!(error.message, "diff/preview/get request tui-2 failed: gone");
    assert_eq!(exchange.pending_len(), 1);
}

#[test]
fn protocol_backend_cancels_pending_requests_on_disconnect() {
    let mut exchange = ProtocolExchange::new();
    let first = exchange.track_request("session/open");
    let second = exchange.track_request("diff/preview/get");
    let cancelled = exchange.cancel_pending_requests("transport closed for test");
    assert_eq!(exchange.pending_len(), 0);
    assert_eq!(cancelled.len(), 2);
    assert_eq!(cancelled[0].code, "request_cancelled");
    assert_eq!(
        cancelled[0].message,
        format!("session/open request {first} cancelled: transport closed for test")
    );
    assert!(cancelled[1].message.contains("diff/preview/get"));
    assert!(cancelled[1].message.contains(&second));
}

#[test]
fn pending_requests_table_behaves_like_a_map() {
    let mut table = PendingRequests::new();
    assert!(table.is_empty());
    table.insert("b".into(), PendingRequest { method: "m2".into() });
    table.insert("a".into(), PendingRequest { method: "m1".into() });
    table.insert("b".into(), PendingRequest { method: "m3".into() });
    assert_eq!(table.len(), 2);
    assert_eq!(table.get("b").map(|p| p.method.as_str()), Some("m3"));
    assert_eq!(table.remove("a").map(|p| p.method), Some("m1".to_string()));
    assert!(table.get("a").is_none());
    let drained = table.drain_sorted();
    assert_eq!(drained.len(), 1);
    assert!(table.is_empty());
}

#[test]
fn request_ids_count_up() {
    let mut exchange = ProtocolExchange::new();
    let ids: Vec<String> = (0..12).map(|_| exchange.next_request_id()).collect();
    assert_eq!(ids[0], "tui-1");
    assert_eq!(ids[11], "tui-12");
}
