//! What the server last reported for each session: its permission profile
//! and its model, MCP and tool catalogs. Each is kept once per session; a
//! new report for a session replaces the old one in place, and a report
//! for a new session is added at the end.

use vstd::prelude::*;
use crate::model::keyed::{Keyed, keyed_find, keyed_place, keyed_lookup, keyed_placed};
use crate::model::diff::SessionKey;
use crate::permission_profile::PermissionProfileSelection;
use crate::model::protocol_types::{ModelStatus, McpStatus, ToolStatus, CodingToolContract};

verus! {

/// The permission profile a session runs with.
#[derive(Debug, Clone, PartialEq, Eq)]
pub struct SessionPermissionProfile {
    pub session_id: SessionKey,
    pub current: PermissionProfileSelection,
}

/// The models a session may use.
#[derive(Debug, Clone, PartialEq, Eq)]
pub struct SessionModelCatalog {
    pub session_id: SessionKey,
    pub models: Vec<ModelStatus>,
}

/// The MCP servers a session sees.
#[derive(Debug, Clone, PartialEq, Eq)]
pub struct SessionMcpCatalog {
    pub session_id: SessionKey,
    pub servers: Vec<McpStatus>,
}

/// The tools a session sees, and the policy and contract behind them.
#[derive(Debug, Clone, PartialEq, Eq)]
pub struct SessionToolCatalog {
    pub session_id: SessionKey,
    pub policy_id: Option<String>,
    pub coding_tool_contract: Option<CodingToolContract>,
    pub tools: Vec<ToolStatus>,
}

impl Keyed for SessionPermissionProfile {
    open spec fn key_view(&self) -> Seq<char> {
        self.session_id.0@
    }

    fn key(&self) -> (r: &str) {
        self.session_id.0.as_str()
    }
}

impl Keyed for SessionModelCatalog {
    open spec fn key_view(&self) -> Seq<char> {
        self.session_id.0@
    }

    fn key(&self) -> (r: &str) {
        self.session_id.0.as_str()
    }
}

impl Keyed for SessionMcpCatalog {
    open spec fn key_view(&self) -> Seq<char> {
        self.session_id.0@
    }

    fn key(&self) -> (r: &str) {
        self.session_id.0.as_str()
    }
}

impl Keyed for SessionToolCatalog {
    open spec fn key_view(&self) -> Seq<char> {
        self.session_id.0@
    }

    fn key(&self) -> (r: &str) {
        self.session_id.0.as_str()
    }
}

/// Per-session reports: permission profiles and catalogs.
#[derive(Debug)]
pub struct SessionCatalogs {
    pub permission_profiles: Vec<SessionPermissionProfile>,
    pub session_model_catalogs: Vec<SessionModelCatalog>,
    pub session_mcp_catalogs: Vec<SessionMcpCatalog>,
    pub session_tool_catalogs: Vec<SessionToolCatalog>,
}

impl SessionCatalogs {
    /// Nothing reported yet.
    pub fn new() -> (r: Self)
        ensures
            r.permission_profiles@.len() == 0,
            r.session_model_catalogs@.len() == 0,
            r.session_mcp_catalogs@.len() == 0,
            r.session_tool_catalogs@.len() == 0,
    {
        SessionCatalogs {
            permission_profiles: Vec::new(),
            session_model_catalogs: Vec::new(),
            session_mcp_catalogs: Vec::new(),
            session_tool_catalogs: Vec::new(),
        }
    }

    /// The permission profile reported for `session_id`.
    pub fn permission_profile_for(&self, session_id: &SessionKey) -> (r: Option<PermissionProfileSelection>)
        ensures
            r == (match keyed_lookup(self.permission_profiles@, session_id.0@) {
                Some(p) => Some(p.current),
                None => None,
            }),
    {
        match keyed_find(&self.permission_profiles, session_id.0.as_str()) {
            Some(p) => Some(p.current),
            None => None,
        }
    }

    /// Record `session_id`'s permission profile, replacing an earlier one.
    pub fn set_permission_profile(&mut self, session_id: SessionKey, current: PermissionProfileSelection)
        ensures
            final(self).permission_profiles@ == keyed_placed(
                old(self).permission_profiles@,
                SessionPermissionProfile { session_id, current },
            ),
            final(self).session_model_catalogs@ == old(self).session_model_catalogs@,
            final(self).session_mcp_catalogs@ == old(self).session_mcp_catalogs@,
            final(self).session_tool_catalogs@ == old(self).session_tool_catalogs@,
    {
        let current = current.normalized();
        keyed_place(&mut self.permission_profiles, SessionPermissionProfile { session_id, current });
    }

    /// The model catalog reported for `session_id`.
    pub fn model_catalog_for(&self, session_id: &SessionKey) -> (r: Option<&SessionModelCatalog>)
        ensures
            match r {
                Some(c) => keyed_lookup(self.session_model_catalogs@, session_id.0@) == Some(*c),
                None => keyed_lookup(self.session_model_catalogs@, session_id.0@) is None,
            },
    {
        keyed_find(&self.session_model_catalogs, session_id.0.as_str())
    }

    /// Record a session's model catalog, replacing an earlier one.
    pub fn set_model_catalog(&mut self, catalog: SessionModelCatalog)
        ensures
            final(self).session_model_catalogs@ == keyed_placed(old(self).session_model_catalogs@, catalog),
            final(self).permission_profiles@ == old(self).permission_profiles@,
            final(self).session_mcp_catalogs@ == old(self).session_mcp_catalogs@,
            final(self).session_tool_catalogs@ == old(self).session_tool_catalogs@,
    {
        keyed_place(&mut self.session_model_catalogs, catalog);
    }

    /// The MCP catalog reported for `session_id`.
    pub fn mcp_catalog_for(&self, session_id: &SessionKey) -> (r: Option<&SessionMcpCatalog>)
        ensures
            match r {
                Some(c) => keyed_lookup(self.session_mcp_catalogs@, session_id.0@) == Some(*c),
                None => keyed_lookup(self.session_mcp_catalogs@, session_id.0@) is None,
            },
    {
        keyed_find(&self.session_mcp_catalogs, session_id.0.as_str())
    }

    /// Record a session's MCP catalog, replacing an earlier one.
    pub fn set_mcp_catalog(&mut self, catalog: SessionMcpCatalog)
        ensures
            final(self).session_mcp_catalogs@ == keyed_placed(old(self).session_mcp_catalogs@, catalog),
            final(self).permission_profiles@ == old(self).permission_profiles@,
            final(self).session_model_catalogs@ == old(self).session_model_catalogs@,
            final(self).session_tool_catalogs@ == old(self).session_tool_catalogs@,
    {
        keyed_place(&mut self.session_mcp_catalogs, catalog);
    }

    /// The tool catalog reported for `session_id`.
    pub fn tool_catalog_for(&self, session_id: &SessionKey) -> (r: Option<&SessionToolCatalog>)
        ensures
            match r {
                Some(c) => keyed_lookup(self.session_tool_catalogs@, session_id.0@) == Some(*c),
                None => keyed_lookup(self.session_tool_catalogs@, session_id.0@) is None,
            },
    {
        keyed_find(&self.session_tool_catalogs, session_id.0.as_str())
    }

    /// Record a session's tool catalog, replacing an earlier one.
    pub fn set_tool_catalog(&mut self, catalog: SessionToolCatalog)
        ensures
            final(self).session_tool_catalogs@ == keyed_placed(old(self).session_tool_catalogs@, catalog),
            final(self).permission_profiles@ == old(self).permission_profiles@,
            final(self).session_model_catalogs@ == old(self).session_model_catalogs@,
            final(self).session_mcp_catalogs@ == old(self).session_mcp_catalogs@,
    {
        keyed_place(&mut self.session_tool_catalogs, catalog);
    }
}

} // verus!
