use octos_tui::json::JsonValue;
use octos_tui::mock::mock_model_status;
use octos_tui::model::auth::AuthLogoutResult;
use octos_tui::model::diff::SessionKey;
use octos_tui::model::protocol_types::ModelListResult;
use octos_tui::readonly::{method_name, AppUiCommandKind};
use octos_tui::results::{
    ack_status, decoded_result_event, invalid_result_error, lists_models, result_route, DecodedResult,
    ResultClientEvent, ResultRoute,
};

fn object(fields: Vec<(&str, JsonValue)>) -> JsonValue {
    JsonValue::Object(fields.into_iter().map(|(k, v)| (k.to_string(), v)).collect(), String::new())
}

#[test]
fn answers_route_by_the_method_they_answer() {
    assert_eq!(result_route("profile/llm/list"), Some(ResultRoute::ModelList));
    assert_eq!(result_route("profile/llm/select"), Some(ResultRoute::ModelSelect));
    assert_eq!(result_route("profile/llm/upsert"), Some(ResultRoute::ProfileLlmMutation));
    assert_eq!(result_route("profile/llm/test"), Some(ResultRoute::ProfileLlmMutation));
    assert_eq!(result_route("mcp/config/set_enabled"), Some(ResultRoute::McpConfigMutation));
    assert_eq!(result_route("tool/config/delete"), Some(ResultRoute::ToolConfigMutation));
    assert_eq!(result_route("loop/fire_now"), Some(ResultRoute::LoopMutation));
    assert_eq!(result_route("turn/interrupt"), Some(ResultRoute::TurnInterrupt));
    assert_eq!(result_route("session/open"), Some(ResultRoute::SessionOpen));
    // Answers the client does not use.
    assert_eq!(result_route("turn/start"), None);
    assert_eq!(result_route("profile/llm/fetch_models"), None);
    assert_eq!(result_route(""), None);
}

#[test]
fn acknowledgements_need_no_decoding() {
    let idle = object(vec![("interrupted", JsonValue::Bool(false))]);
    assert_eq!(
        ack_status(ResultRoute::TurnInterrupt, &idle).as_deref(),
        Some("Interrupt acknowledged; turn was already idle")
    );
    let cancelled = object(vec![("interrupted", JsonValue::Bool(true))]);
    assert_eq!(
        ack_status(ResultRoute::TurnInterrupt, &cancelled).as_deref(),
        Some("Interrupt acknowledged; active turn cancelled")
    );
    assert_eq!(ack_status(ResultRoute::TurnInterrupt, &JsonValue::Null).as_deref(), Some("Interrupt acknowledged"));
    assert_eq!(
        ack_status(ResultRoute::ApprovalRespond, &JsonValue::Null).as_deref(),
        Some("Approval response acknowledged")
    );
    assert_eq!(ack_status(ResultRoute::ModelList, &JsonValue::Null), None);
}

#[test]
fn model_lists_are_told_from_provider_states() {
    assert!(lists_models(&object(vec![("models", JsonValue::Array(vec![], "[]".into()))])));
    assert!(!lists_models(&object(vec![("profile_id", JsonValue::String("p".into()))])));
    assert!(!lists_models(&JsonValue::Null));
}

#[test]
fn undecodable_answers_become_invalid_result_errors() {
    let e = invalid_result_error("auth/status", "missing field `ok`");
    assert_eq!(e.code, "invalid_result");
    assert_eq!(e.message, "failed to decode UI protocol result for auth/status: missing field `ok`");
}

#[test]
fn decoded_results_become_their_events() {
    let list = ModelListResult { session_id: SessionKey("s".into()), models: vec![mock_model_status(true)] };
    match decoded_result_event(DecodedResult::ModelList(list)) {
        ResultClientEvent::ModelList(ev) => {
            assert_eq!(ev.message, "Model list refreshed: 1 model");
            assert_eq!(ev.result.models.len(), 1);
        }
        _ => panic!("expected a model list event"),
    }
    match decoded_result_event(DecodedResult::AuthLogout(AuthLogoutResult { ok: true, message: None })) {
        ResultClientEvent::AuthLogout(ev) => assert_eq!(ev.message, "Logged out"),
        _ => panic!("expected a logout event"),
    }
}

#[test]
fn commands_name_their_methods() {
    assert_eq!(method_name(AppUiCommandKind::OpenSession), Some("session/open"));
    assert_eq!(method_name(AppUiCommandKind::SubmitPrompt), Some("turn/start"));
    assert_eq!(method_name(AppUiCommandKind::ListModels), Some("profile/llm/list"));
    assert_eq!(method_name(AppUiCommandKind::ProfileLlmList), Some("profile/llm/list"));
    assert_eq!(method_name(AppUiCommandKind::SelectModel), Some("profile/llm/select"));
    assert_eq!(method_name(AppUiCommandKind::ReadTaskArtifact), Some("task/artifact/read"));
    assert_eq!(method_name(AppUiCommandKind::SetPermissionProfile), Some("permission/profile/set"));
    assert_eq!(method_name(AppUiCommandKind::FireLoopNow), Some("loop/fire_now"));
    assert_eq!(method_name(AppUiCommandKind::CancelTask), None);
}
