use octos_tui::mock::{
    mock_alt_model_status, mock_mcp_config_entries, mock_mcp_servers, mock_model_status, mock_profile_skills,
    mock_skill_registry, mock_tool_config_entries, mock_tool_statuses,
};

#[test]
fn mock_models_are_coding_and_alternate() {
    let m = mock_model_status(true);
    assert_eq!(m.model, "mock-coding");
    assert_eq!(m.provider, "mock");
    assert!(m.selected);
    assert!(!mock_model_status(false).selected);
    let alt = mock_alt_model_status();
    assert_ne!(alt.model, m.model);
    assert!(!alt.selected);
}

#[test]
fn mock_mcp_servers_one_up_one_failed() {
    let servers = mock_mcp_servers();
    assert_eq!(servers.len(), 2);
    assert_eq!(servers[0].server, "mock-filesystem");
    assert_eq!(servers[0].status, "connected");
    assert_eq!(servers[0].tool_count, Some(2));
    assert_eq!(servers[1].status, "failed");
    assert_eq!(servers[1].last_error.as_deref(), Some("mock failure"));
    assert_eq!(mock_mcp_config_entries().len(), 2);
}

#[test]
fn mock_skills_and_tools_are_listed() {
    assert!(!mock_profile_skills().skills.is_empty());
    assert!(!mock_skill_registry().packages.is_empty());
    assert!(!mock_tool_statuses().is_empty());
    assert!(!mock_tool_config_entries().is_empty());
}
