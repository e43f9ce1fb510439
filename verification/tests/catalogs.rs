use octos_tui::mock::{mock_alt_model_status, mock_mcp_servers, mock_model_status, mock_tool_statuses};
use octos_tui::model::catalogs::{SessionCatalogs, SessionMcpCatalog, SessionModelCatalog, SessionToolCatalog};
use octos_tui::model::diff::SessionKey;
use octos_tui::permission_profile::{PermissionNetworkPolicy, PermissionProfileMode, PermissionProfileSelection};

fn key(s: &str) -> SessionKey {
    SessionKey(s.to_string())
}

#[test]
fn permission_profiles_read_back_what_was_written() {
    let mut c = SessionCatalogs::new();
    assert_eq!(c.permission_profile_for(&key("a")), None);
    let ro = PermissionProfileSelection { mode: PermissionProfileMode::ReadOnly, network: PermissionNetworkPolicy::Deny };
    let full =
        PermissionProfileSelection { mode: PermissionProfileMode::DangerFullAccess, network: PermissionNetworkPolicy::Allow };
    c.set_permission_profile(key("a"), ro);
    c.set_permission_profile(key("b"), full);
    assert_eq!(c.permission_profile_for(&key("a")), Some(ro));
    assert_eq!(c.permission_profile_for(&key("b")), Some(full));
    c.set_permission_profile(key("a"), full);
    assert_eq!(c.permission_profile_for(&key("a")), Some(full));
    assert_eq!(c.permission_profiles.len(), 2);
    assert_eq!(c.permission_profiles[0].session_id, key("a"));
}

#[test]
fn catalogs_replace_per_session_and_leave_others() {
    let mut c = SessionCatalogs::new();
    c.set_model_catalog(SessionModelCatalog { session_id: key("a"), models: vec![mock_model_status(true)] });
    c.set_model_catalog(SessionModelCatalog { session_id: key("b"), models: vec![] });
    c.set_model_catalog(SessionModelCatalog {
        session_id: key("a"),
        models: vec![mock_model_status(false), mock_alt_model_status()],
    });
    assert_eq!(c.session_model_catalogs.len(), 2);
    assert_eq!(c.model_catalog_for(&key("a")).map(|m| m.models.len()), Some(2));
    assert_eq!(c.model_catalog_for(&key("b")).map(|m| m.models.len()), Some(0));
    assert!(c.model_catalog_for(&key("z")).is_none());

    c.set_mcp_catalog(SessionMcpCatalog { session_id: key("a"), servers: mock_mcp_servers() });
    assert_eq!(c.mcp_catalog_for(&key("a")).map(|m| m.servers.len()), Some(mock_mcp_servers().len()));
    assert!(c.mcp_catalog_for(&key("b")).is_none());

    c.set_tool_catalog(SessionToolCatalog {
        session_id: key("b"),
        policy_id: Some("p".to_string()),
        coding_tool_contract: None,
        tools: mock_tool_statuses(),
    });
    let tools = c.tool_catalog_for(&key("b")).expect("tool catalog");
    assert_eq!(tools.policy_id.as_deref(), Some("p"));
    assert_eq!(tools.tools.len(), mock_tool_statuses().len());
    assert!(c.tool_catalog_for(&key("a")).is_none());
    assert_eq!(c.session_model_catalogs.len(), 2);
}
