use octos_tui::model::protocol_types::RuntimePolicyStamp;
use octos_tui::transport::session_status_message;
use octos_tui::model::protocol_types::SupervisedTaskEntry;
use octos_tui::mock::{mock_mcp_config_entries, mock_mcp_servers, mock_model_status, mock_tool_config_entries, mock_tool_statuses};
use octos_tui::model::diff::SessionKey;
use octos_tui::model::llm::{LlmConfiguredProvider, ProfileLlmCatalogResult, ProfileLlmListResult, ProfileLlmMutationResult};
use octos_tui::model::protocol_types::{
    McpConfigListResult, McpConfigMutationResult, McpStatusListResult, ModelListResult, ModelSelectResult,
    ToolConfigListResult, ToolConfigMutationResult, ToolStatusListResult,
};
use octos_tui::transport::{
    mcp_config_list_event, mcp_config_mutation_event, mcp_status_event, model_list_event, model_select_event,
    profile_llm_catalog_event, profile_llm_list_event, profile_llm_mutation_event, tool_config_list_event,
    tool_config_mutation_event, tool_status_event,
};

fn key() -> SessionKey {
    SessionKey("local:test".to_string())
}

fn provider(name: &str) -> LlmConfiguredProvider {
    LlmConfiguredProvider {
        provider: name.to_string(),
        model: "m".to_string(),
        family_id: None,
        model_id: None,
        route: None,
        route_id: None,
        base_url: None,
        api_key_env: None,
        has_api_key: false,
        selected: false,
        available: None,
        model_hints: None,
        cost_per_m: None,
        strong: None,
    }
}

#[test]
fn mcp_lines_count_servers_by_state() {
    let e = mcp_status_event(McpStatusListResult { session_id: key(), servers: mock_mcp_servers() });
    assert_eq!(e.message, "MCP status refreshed: 2 server(s), 1 connected, 1 failed");
    let e = mcp_config_list_event(McpConfigListResult { session_id: None, profile_id: None, servers: mock_mcp_config_entries() });
    assert_eq!(e.message, "MCP config refreshed: 2 server(s), 1 enabled");
}

#[test]
fn config_mutation_lines_name_their_subject() {
    let mut r = McpConfigMutationResult {
        session_id: None,
        profile_id: None,
        ok: true,
        applied: false,
        server: Some("fs".to_string()),
        entry: None,
        message: None,
    };
    assert_eq!(mcp_config_mutation_event(r.clone()).message, "MCP config applied: fs");
    r.ok = false;
    r.server = None;
    assert_eq!(mcp_config_mutation_event(r.clone()).message, "MCP config completed: server");
    r.entry = Some(mock_mcp_config_entries().remove(1));
    assert_eq!(mcp_config_mutation_event(r.clone()).message, "MCP config completed: mock-playwright");
    r.message = Some("removed".to_string());
    assert_eq!(mcp_config_mutation_event(r).message, "removed");
    let t = ToolConfigMutationResult {
        session_id: None,
        profile_id: None,
        ok: false,
        applied: true,
        tool: None,
        entry: None,
        message: None,
    };
    assert_eq!(tool_config_mutation_event(t).message, "Tool config applied: tool");
}

#[test]
fn tool_lines_count_visible_denied_and_enabled() {
    let e = tool_status_event(ToolStatusListResult {
        session_id: key(),
        policy_id: None,
        coding_tool_contract: None,
        tools: mock_tool_statuses(),
    });
    assert_eq!(e.message, "Tool status refreshed: 2 visible, 1 denied under server policy");
    let e = tool_status_event(ToolStatusListResult {
        session_id: key(),
        policy_id: Some("strict".to_string()),
        coding_tool_contract: None,
        tools: Vec::new(),
    });
    assert_eq!(e.message, "Tool status refreshed: 0 visible, 0 denied under strict");
    let e = tool_config_list_event(ToolConfigListResult {
        session_id: None,
        profile_id: None,
        policy_id: None,
        tools: mock_tool_config_entries(),
    });
    assert_eq!(e.message, "Tool config refreshed: 2 tool(s), 1 enabled");
}

#[test]
fn model_lines() {
    let e = model_list_event(ModelListResult { session_id: key(), models: vec![mock_model_status(true)] });
    assert_eq!(e.message, "Model list refreshed: 1 model");
    let e = model_list_event(ModelListResult { session_id: key(), models: Vec::new() });
    assert_eq!(e.message, "Model list refreshed: no models");
    let e = model_select_event(ModelSelectResult {
        session_id: key(),
        selected: mock_model_status(true),
        applied: false,
        runtime_policy_stamp: None,
    });
    assert_eq!(e.message, "Model unchanged: mock / mock-coding");
}

#[test]
fn provider_lines() {
    let e = profile_llm_catalog_event(ProfileLlmCatalogResult { families: Vec::new() });
    assert_eq!(e.message, "Provider catalog refreshed: 0 family(s)");
    let list = ProfileLlmListResult {
        profile_id: None,
        primary: Some(provider("a")),
        fallbacks: vec![provider("b"), provider("c")],
        llm: None,
        runtime_policy_stamp: None,
    };
    assert_eq!(profile_llm_list_event(list).message, "Configured providers refreshed: 3 providers");
    let none = ProfileLlmListResult { profile_id: None, primary: None, fallbacks: Vec::new(), llm: None, runtime_policy_stamp: None };
    assert_eq!(profile_llm_list_event(none).message, "Configured providers refreshed: none");
    let mutation = |applied: bool, message: Option<&str>, error: Option<&str>| ProfileLlmMutationResult {
        profile_id: None,
        primary: Some(provider("a")),
        fallbacks: Vec::new(),
        applied,
        llm: None,
        runtime_policy_stamp: None,
        message: message.map(str::to_string),
        error: error.map(str::to_string),
    };
    assert_eq!(profile_llm_mutation_event(mutation(false, Some("Test failed"), Some("401"))).message, "Test failed: 401");
    assert_eq!(profile_llm_mutation_event(mutation(true, Some("Saved"), Some("ignored"))).message, "Saved");
    assert_eq!(profile_llm_mutation_event(mutation(false, None, Some("boom"))).message, "Provider operation failed: boom");
    assert_eq!(
        profile_llm_mutation_event(mutation(true, None, None)).message,
        "Provider profile updated: 1 configured provider(s)"
    );
}

#[test]
fn supervised_task_labels_prefer_role_then_tool() {
    let entry = |role: Option<&str>, tool: Option<&str>, source: Option<&str>| SupervisedTaskEntry {
        id: Some("t-1".to_string()),
        tool_name: tool.map(str::to_string),
        tool_call_id: None,
        status: None,
        lifecycle_state: None,
        runtime_state: None,
        source: source.map(str::to_string),
        role: role.map(str::to_string),
        summary: None,
        artifact_count: None,
        runtime_policy_stamp: None,
        parent_session_key: None,
        child_session_key: None,
        child_terminal_state: None,
        child_join_state: None,
    };
    assert_eq!(entry(Some("critic"), Some("spawn"), None).display_label(), "critic");
    assert_eq!(entry(Some("  "), Some("spawn"), None).display_label(), "spawn");
    assert_eq!(entry(None, Some(""), None).display_label(), "task");
    assert!(entry(None, None, Some("model")).is_backend_supervised());
    assert!(entry(None, None, Some("supervisor")).is_backend_supervised());
    assert!(!entry(None, None, Some("user")).is_backend_supervised());
    assert!(!entry(None, None, None).is_backend_supervised());
}

#[test]
fn session_status_names_the_stamped_model_first() {
    let stamp = RuntimePolicyStamp { model: Some("stamped".to_string()), ..Default::default() };
    let model = Some(mock_model_status(true));
    assert_eq!(session_status_message(&Some(stamp), &model), "Runtime status refreshed: stamped");
    let bare = RuntimePolicyStamp::default();
    assert_eq!(
        session_status_message(&Some(bare), &model),
        format!("Runtime status refreshed: {}", model.as_ref().unwrap().model)
    );
    assert_eq!(session_status_message(&None, &None), "Runtime status refreshed: runtime");
}
