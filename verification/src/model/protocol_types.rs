//! Request parameters and result shapes of the runtime, configuration and
//! skill calls, as plain data.

use vstd::prelude::*;
use crate::text::{u64_decimal, dec, opt_string_view, copy_opt_string};
use crate::model::diff::SessionKey;
use crate::json::JsonValue;
use crate::model::onboarding::is_blank;

verus! {

#[derive(Debug, Clone, Copy, PartialEq, Eq, Default)]
pub enum SessionGoalSetAction {
    #[default]
    Establish,
    Pause,
    Resume,
}

#[derive(Debug, Clone, Copy, PartialEq, Eq)]
pub enum LoopMode {
    FixedInterval,
    SelfPaced,
    Maintenance,
}

#[derive(Debug, Clone, Default, PartialEq, Eq)]
pub struct ConfigCapabilitiesListParams {}

#[derive(Debug, Clone, PartialEq, Eq)]
pub struct ModelStatus {
    pub model: String,
    pub provider: String,
    pub title: Option<String>,
    pub family: Option<String>,
    pub route: Option<String>,
    pub selected: bool,
    pub available: Option<bool>,
    pub queue_mode: Option<String>,
    pub qoe_policy: Option<String>,
}

#[derive(Debug, Clone, Default, PartialEq, Eq)]
pub struct RuntimePolicyStamp {
    pub runtime_mode: Option<String>,
    pub profile_id: Option<String>,
    pub model: Option<String>,
    pub provider: Option<String>,
    pub approval_policy: Option<String>,
    pub sandbox_mode: Option<String>,
    pub sandbox: Option<String>,
    pub permission_profile: Option<String>,
    pub filesystem_scope: Option<String>,
    pub network: Option<String>,
    pub tool_policy_id: Option<String>,
    pub mcp_servers: Vec<RuntimePolicyMcpServer>,
    pub memory_scope: Option<String>,
    pub qoe_policy: Option<String>,
    pub queue_mode: Option<String>,
    pub tool_contract_id: Option<String>,
    pub tool_contract_version: Option<String>,
    pub model_toolset: Option<String>,
    pub dynamic_tool_discovery: Option<String>,
}

#[derive(Debug, Clone, PartialEq, Eq)]
pub enum RuntimePolicyMcpServer {
    Name(String),
    Detail {
        id: String,
        display_name: Option<String>,
        status: Option<String>,
        tool_count: Option<u32>,
    },
}

#[derive(Debug, Clone, PartialEq, Eq)]
pub struct RuntimeHealthStatus {
    pub status: String,
    pub message: Option<String>,
}

#[derive(Debug, Clone, PartialEq, Eq)]
pub struct McpStatusSummary {
    pub connected: u32,
    pub connecting: u32,
    pub failed: u32,
    pub disabled: u32,
}

#[derive(Debug, Clone, PartialEq, Eq)]
pub struct ToolStatusSummary {
    pub visible: u32,
    pub enabled: u32,
    pub denied: u32,
    pub policy_id: Option<String>,
}

#[derive(Debug, Clone, PartialEq, Eq)]
pub struct SessionUsageStatus {
    pub input_tokens: Option<u64>,
    pub output_tokens: Option<u64>,
    pub cached_input_tokens: Option<u64>,
    pub cached_output_tokens: Option<u64>,
    pub estimated_cost_micros_usd: Option<u64>,
}

#[derive(Debug, Clone, PartialEq, Eq)]
pub struct McpStatus {
    pub server: String,
    pub status: String,
    pub transport: Option<String>,
    pub endpoint: Option<String>,
    pub tool_count: Option<u32>,
    pub detail: Option<String>,
    pub last_error: Option<String>,
}

#[derive(Debug, Clone, PartialEq, Eq)]
pub struct CodingToolContract {
    pub id: String,
    pub version: String,
    pub feature: String,
    pub status: String,
    pub required_tool_names: Vec<String>,
    pub required_tools: Vec<CodingToolContractTool>,
    pub missing_required_tools: Vec<String>,
    pub policy: Option<CodingToolContractPolicy>,
}

#[derive(Debug, Clone, PartialEq, Eq)]
pub struct CodingToolContractPolicy {
    pub tool_policy_id: Option<String>,
    pub sandbox_mode: Option<String>,
    pub approval_policy: Option<String>,
}

#[derive(Debug, Clone, PartialEq, Eq)]
pub struct CodingToolContractTool {
    pub name: String,
    pub category: String,
    pub aliases: Vec<String>,
    pub capability: String,
    pub policy: String,
    pub status: String,
    pub backend_tool: Option<String>,
    pub detail: Option<String>,
}

#[derive(Debug, Clone, PartialEq, Eq)]
pub struct ContextCompactionSummary {
    pub compaction_id: String,
    pub status: String,
    pub trigger: String,
    pub input_generation: u64,
    pub output_generation: Option<u64>,
    pub retained_count: usize,
    pub dropped_count: usize,
    pub token_estimate_before: usize,
    pub token_estimate_after: Option<usize>,
    pub error: Option<String>,
}

#[derive(Debug, Clone, PartialEq, Eq)]
pub struct ContextNormalizationSummary {
    pub generation: u64,
    pub model_capability_id: String,
    pub prompt_message_count: usize,
    pub token_estimate: usize,
    pub repaired_count: usize,
    pub dropped_count: usize,
    pub synthetic_count: usize,
    pub truncated_count: usize,
}

#[derive(Debug, Clone, PartialEq, Eq)]
pub struct SupervisedTaskArtifact {
    pub id: Option<String>,
    pub title: Option<String>,
    pub kind: Option<String>,
    pub status: Option<String>,
    pub path: Option<String>,
}

#[derive(Debug, Clone, PartialEq, Eq)]
pub struct ToolStatus {
    pub tool: String,
    pub title: Option<String>,
    pub source: Option<String>,
    pub enabled: bool,
    pub visible: bool,
    pub tags: Vec<String>,
    pub risk: Option<String>,
    pub policy_id: Option<String>,
    pub denial: Option<ToolPolicyDenial>,
}

#[derive(Debug, Clone, PartialEq, Eq)]
pub struct ToolPolicyDenial {
    pub code: String,
    pub tool: String,
    pub policy: Option<String>,
    pub reason: String,
    pub recoverable: bool,
}

#[derive(Debug, Clone, PartialEq, Eq)]
pub struct McpConfigDeleteParams {
    pub profile_id: Option<String>,
    pub server: String,
}

#[derive(Debug, Clone, PartialEq, Eq)]
pub struct McpConfigSetEnabledParams {
    pub profile_id: Option<String>,
    pub server: String,
    pub enabled: bool,
}

#[derive(Debug, Clone, Default, PartialEq, Eq)]
pub struct McpConfigEntry {
    pub name: String,
    pub enabled: bool,
    pub transport: Option<String>,
    pub endpoint: Option<String>,
    pub command: Option<String>,
    pub args: Vec<String>,
    pub env_keys: Vec<String>,
    pub status: Option<String>,
    pub tool_count: Option<u32>,
    pub detail: Option<String>,
    pub last_error: Option<String>,
}

#[derive(Debug, Clone, PartialEq, Eq)]
pub struct ToolConfigSetEnabledParams {
    pub profile_id: Option<String>,
    pub tool: String,
    pub enabled: bool,
}

#[derive(Debug, Clone, PartialEq, Eq)]
pub struct ToolConfigDeleteParams {
    pub profile_id: Option<String>,
    pub tool: String,
}

#[derive(Debug, Clone, Default, PartialEq, Eq)]
pub struct ToolConfigEntry {
    pub tool: String,
    pub title: Option<String>,
    pub source: Option<String>,
    pub enabled: bool,
    pub visible: bool,
    pub tags: Vec<String>,
    pub risk: Option<String>,
    pub status: Option<String>,
    pub detail: Option<String>,
}

#[derive(Debug, Clone, Default, PartialEq, Eq)]
pub struct ProfileLlmCatalogParams {}

#[derive(Debug, Clone, Default, PartialEq, Eq)]
pub struct ProfileLlmListParams {
    pub profile_id: Option<String>,
}

#[derive(Debug, Clone, PartialEq)]
pub struct ProfileLlmDeleteParams {
    pub profile_id: Option<String>,
    pub family_id: String,
    pub model_id: String,
    pub route_id: String,
}

#[derive(Debug, Clone, PartialEq)]
pub struct ProfileLlmSelectParams {
    pub profile_id: Option<String>,
    pub family_id: String,
    pub model_id: String,
    pub route_id: String,
}

#[derive(Debug, Clone, Default, PartialEq, Eq)]
pub struct ProfileSkillsListParams {
    pub profile_id: Option<String>,
}

#[derive(Debug, Clone, Default, PartialEq, Eq)]
pub struct ProfileSkillsRegistrySearchParams {
    pub profile_id: Option<String>,
    pub q: Option<String>,
}

#[derive(Debug, Clone, PartialEq, Eq)]
pub struct ProfileSkillsInstallParams {
    pub profile_id: Option<String>,
    pub repo: String,
    pub branch: Option<String>,
    pub force: bool,
}

#[derive(Debug, Clone, PartialEq, Eq)]
pub struct ProfileSkillsRemoveParams {
    pub profile_id: Option<String>,
    pub name: String,
}

#[derive(Debug, Clone, PartialEq, Eq)]
pub struct ProfileSkillEntry {
    pub name: String,
    pub version: Option<String>,
    pub tool_count: usize,
    pub source_repo: Option<String>,
    pub installed: bool,
    pub status: Option<String>,
}

#[derive(Debug, Clone, Default, PartialEq, Eq)]
pub struct ProfileSkillsListResult {
    pub profile_id: Option<String>,
    pub count: usize,
    pub skills: Vec<ProfileSkillEntry>,
}

#[derive(Debug, Clone, PartialEq, Eq)]
pub struct ProfileSkillRegistryPackage {
    pub name: String,
    pub description: String,
    pub repo: String,
    pub version: Option<String>,
    pub author: Option<String>,
    pub license: Option<String>,
    pub skills: Vec<String>,
    pub requires: Vec<String>,
    pub provides_tools: bool,
    pub tags: Vec<String>,
    pub installed: bool,
    pub installed_skills: Vec<String>,
}

#[derive(Debug, Clone, Default, PartialEq, Eq)]
pub struct ProfileSkillsRegistrySearchResult {
    pub profile_id: Option<String>,
    pub packages: Vec<ProfileSkillRegistryPackage>,
}

#[derive(Debug, Clone, Default, PartialEq, Eq)]
pub struct ProfileSkillsMutationResult {
    pub profile_id: Option<String>,
    pub ok: bool,
    pub installed: Vec<String>,
    pub skipped: Vec<String>,
    pub deps_installed: Vec<String>,
    pub removed: Option<String>,
    pub message: Option<String>,
}

/// `name (status, N tools)`, dropping the parts the server left out.
pub open spec fn spec_mcp_server_label(s: RuntimePolicyMcpServer) -> Seq<char> {
    match s {
        RuntimePolicyMcpServer::Name(name) => name@,
        RuntimePolicyMcpServer::Detail { id, display_name, status, tool_count } => {
            let name = match display_name {
                Some(d) => d@,
                None => id@,
            };
            match (status, tool_count) {
                (Some(st), Some(n)) => name + " ("@ + st@ + ", "@ + dec(n as nat) + " tools)"@,
                (Some(st), None) => name + " ("@ + st@ + ")"@,
                (None, Some(n)) => name + " ("@ + dec(n as nat) + " tools)"@,
                (None, None) => name,
            }
        },
    }
}

impl RuntimePolicyMcpServer {
    pub fn name(name: String) -> (r: Self)
        ensures
            r == RuntimePolicyMcpServer::Name(name),
    {
        RuntimePolicyMcpServer::Name(name)
    }

    /// How the server is listed (see [`spec_mcp_server_label`]).
    pub fn label(&self) -> (r: String)
        ensures
            r@ == spec_mcp_server_label(*self),
    {
        match self {
            RuntimePolicyMcpServer::Name(name) => name.clone(),
            RuntimePolicyMcpServer::Detail { id, display_name, status, tool_count } => {
                let mut out = match display_name {
                    Some(d) => d.clone(),
                    None => id.clone(),
                };
                proof {
                    reveal_strlit(" (");
                    reveal_strlit(", ");
                    reveal_strlit(" tools)");
                    reveal_strlit(")");
                }
                match (status, tool_count) {
                    (Some(st), Some(n)) => {
                        out.append(" (");
                        out.append(st.as_str());
                        out.append(", ");
                        out.append(u64_decimal(*n as u64).as_str());
                        out.append(" tools)");
                    },
                    (Some(st), None) => {
                        out.append(" (");
                        out.append(st.as_str());
                        out.append(")");
                    },
                    (None, Some(n)) => {
                        out.append(" (");
                        out.append(u64_decimal(*n as u64).as_str());
                        out.append(" tools)");
                    },
                    (None, None) => {},
                }
                out
            },
        }
    }
}


/// Whether two MCP server entries hold the same texts and counts.
pub open spec fn mcp_server_same(a: RuntimePolicyMcpServer, b: RuntimePolicyMcpServer) -> bool {
    match (a, b) {
        (RuntimePolicyMcpServer::Name(x), RuntimePolicyMcpServer::Name(y)) => x@ == y@,
        (
            RuntimePolicyMcpServer::Detail { id: i1, display_name: d1, status: s1, tool_count: t1 },
            RuntimePolicyMcpServer::Detail { id: i2, display_name: d2, status: s2, tool_count: t2 },
        ) => i1@ == i2@ && opt_string_view(d1) == opt_string_view(d2) && opt_string_view(s1) == opt_string_view(s2)
            && t1 == t2,
        _ => false,
    }
}

/// Whether two stamps hold the same texts.
pub open spec fn stamp_same(a: RuntimePolicyStamp, b: RuntimePolicyStamp) -> bool {
    &&& opt_string_view(a.runtime_mode) == opt_string_view(b.runtime_mode)
    &&& opt_string_view(a.profile_id) == opt_string_view(b.profile_id)
    &&& opt_string_view(a.model) == opt_string_view(b.model)
    &&& opt_string_view(a.provider) == opt_string_view(b.provider)
    &&& opt_string_view(a.approval_policy) == opt_string_view(b.approval_policy)
    &&& opt_string_view(a.sandbox_mode) == opt_string_view(b.sandbox_mode)
    &&& opt_string_view(a.sandbox) == opt_string_view(b.sandbox)
    &&& opt_string_view(a.permission_profile) == opt_string_view(b.permission_profile)
    &&& opt_string_view(a.filesystem_scope) == opt_string_view(b.filesystem_scope)
    &&& opt_string_view(a.network) == opt_string_view(b.network)
    &&& opt_string_view(a.tool_policy_id) == opt_string_view(b.tool_policy_id)
    &&& opt_string_view(a.memory_scope) == opt_string_view(b.memory_scope)
    &&& opt_string_view(a.qoe_policy) == opt_string_view(b.qoe_policy)
    &&& opt_string_view(a.queue_mode) == opt_string_view(b.queue_mode)
    &&& opt_string_view(a.tool_contract_id) == opt_string_view(b.tool_contract_id)
    &&& opt_string_view(a.tool_contract_version) == opt_string_view(b.tool_contract_version)
    &&& opt_string_view(a.model_toolset) == opt_string_view(b.model_toolset)
    &&& opt_string_view(a.dynamic_tool_discovery) == opt_string_view(b.dynamic_tool_discovery)
    &&& a.mcp_servers@.len() == b.mcp_servers@.len()
    &&& forall|i: int| 0 <= i < a.mcp_servers@.len() ==> mcp_server_same(#[trigger] a.mcp_servers@[i], b.mcp_servers@[i])
}

impl RuntimePolicyMcpServer {
    /// A copy of the entry.
    pub fn duplicate(&self) -> (r: Self)
        ensures
            mcp_server_same(*self, r),
    {
        match self {
            RuntimePolicyMcpServer::Name(n) => RuntimePolicyMcpServer::Name(n.clone()),
            RuntimePolicyMcpServer::Detail { id, display_name, status, tool_count } => RuntimePolicyMcpServer::Detail {
                id: id.clone(),
                display_name: copy_opt_string(display_name),
                status: copy_opt_string(status),
                tool_count: *tool_count,
            },
        }
    }
}

impl RuntimePolicyStamp {
    /// A copy of the stamp.
    pub fn duplicate(&self) -> (r: Self)
        ensures
            stamp_same(*self, r),
    {
        let mut servers: Vec<RuntimePolicyMcpServer> = Vec::new();
        let mut i: usize = 0;
        while i < self.mcp_servers.len()
            invariant
                i <= self.mcp_servers@.len(),
                servers@.len() == i,
                forall|k: int| 0 <= k < i ==> mcp_server_same(#[trigger] self.mcp_servers@[k], servers@[k]),
            decreases self.mcp_servers.len() - i,
        {
            servers.push(self.mcp_servers[i].duplicate());
            i += 1;
        }
        RuntimePolicyStamp {
            runtime_mode: copy_opt_string(&self.runtime_mode),
            profile_id: copy_opt_string(&self.profile_id),
            model: copy_opt_string(&self.model),
            provider: copy_opt_string(&self.provider),
            approval_policy: copy_opt_string(&self.approval_policy),
            sandbox_mode: copy_opt_string(&self.sandbox_mode),
            sandbox: copy_opt_string(&self.sandbox),
            permission_profile: copy_opt_string(&self.permission_profile),
            filesystem_scope: copy_opt_string(&self.filesystem_scope),
            network: copy_opt_string(&self.network),
            tool_policy_id: copy_opt_string(&self.tool_policy_id),
            memory_scope: copy_opt_string(&self.memory_scope),
            qoe_policy: copy_opt_string(&self.qoe_policy),
            queue_mode: copy_opt_string(&self.queue_mode),
            tool_contract_id: copy_opt_string(&self.tool_contract_id),
            tool_contract_version: copy_opt_string(&self.tool_contract_version),
            model_toolset: copy_opt_string(&self.model_toolset),
            dynamic_tool_discovery: copy_opt_string(&self.dynamic_tool_discovery),
            mcp_servers: servers,
        }
    }
}

/// Result of `profile/llm/list` as a session's model list.
#[derive(Debug, Clone, PartialEq, Eq)]
pub struct ModelListResult {
    pub session_id: SessionKey,
    pub models: Vec<ModelStatus>,
}

/// Result of `profile/llm/select`.
#[derive(Debug, Clone, PartialEq, Eq)]
pub struct ModelSelectResult {
    pub session_id: SessionKey,
    pub selected: ModelStatus,
    pub applied: bool,
    pub runtime_policy_stamp: Option<RuntimePolicyStamp>,
}

/// Result of `mcp/status/list`.
#[derive(Debug, Clone, PartialEq, Eq)]
pub struct McpStatusListResult {
    pub session_id: SessionKey,
    pub servers: Vec<McpStatus>,
}

/// Result of `mcp/config/list`.
#[derive(Debug, Clone, PartialEq, Eq)]
pub struct McpConfigListResult {
    pub session_id: Option<SessionKey>,
    pub profile_id: Option<String>,
    pub servers: Vec<McpConfigEntry>,
}

/// Result of an MCP configuration change.
#[derive(Debug, Clone, PartialEq, Eq)]
pub struct McpConfigMutationResult {
    pub session_id: Option<SessionKey>,
    pub profile_id: Option<String>,
    pub ok: bool,
    pub applied: bool,
    pub server: Option<String>,
    pub entry: Option<McpConfigEntry>,
    pub message: Option<String>,
}

/// Result of `tool/status/list`.
#[derive(Debug, Clone, PartialEq, Eq)]
pub struct ToolStatusListResult {
    pub session_id: SessionKey,
    pub policy_id: Option<String>,
    pub coding_tool_contract: Option<CodingToolContract>,
    pub tools: Vec<ToolStatus>,
}

/// Result of `tool/config/list`.
#[derive(Debug, Clone, PartialEq, Eq)]
pub struct ToolConfigListResult {
    pub session_id: Option<SessionKey>,
    pub profile_id: Option<String>,
    pub policy_id: Option<String>,
    pub tools: Vec<ToolConfigEntry>,
}

/// Result of a tool configuration change.
#[derive(Debug, Clone, PartialEq, Eq)]
pub struct ToolConfigMutationResult {
    pub session_id: Option<SessionKey>,
    pub profile_id: Option<String>,
    pub ok: bool,
    pub applied: bool,
    pub tool: Option<String>,
    pub entry: Option<ToolConfigEntry>,
    pub message: Option<String>,
}

/// A task the backend supervises, as `task/list` reports it. The task id
/// is kept as its text.
#[derive(Debug)]
pub struct SupervisedTaskEntry {
    pub id: Option<String>,
    pub tool_name: Option<String>,
    pub tool_call_id: Option<String>,
    pub status: Option<String>,
    pub lifecycle_state: Option<String>,
    pub runtime_state: Option<String>,
    pub source: Option<String>,
    pub role: Option<String>,
    pub summary: Option<String>,
    pub artifact_count: Option<u32>,
    pub runtime_policy_stamp: Option<JsonValue>,
    pub parent_session_key: Option<SessionKey>,
    pub child_session_key: Option<SessionKey>,
    pub child_terminal_state: Option<String>,
    pub child_join_state: Option<String>,
}

/// A present, non-blank text.
pub open spec fn filled(o: Option<String>) -> bool {
    o matches Some(s) && crate::text::trim(s@).len() > 0
}

impl SupervisedTaskEntry {
    /// Scheduled by the model or by a backend supervisor, not by the user.
    pub fn is_backend_supervised(&self) -> (r: bool)
        ensures
            r == (self.source matches Some(s) && (s@ == "model"@ || s@ == "supervisor"@)),
    {
        match &self.source {
            Some(s) => crate::json::str_eq(s.as_str(), "model") || crate::json::str_eq(s.as_str(), "supervisor"),
            None => false,
        }
    }

    /// The label to show: the role, else the tool name, else `task`;
    /// blank values are skipped.
    pub fn display_label(&self) -> (r: String)
        ensures
            r@ == (if filled(self.role) {
                self.role.unwrap()@
            } else if filled(self.tool_name) {
                self.tool_name.unwrap()@
            } else {
                "task"@
            }),
    {
        if let Some(role) = &self.role {
            if !is_blank(role.as_str()) {
                return role.clone();
            }
        }
        if let Some(tool) = &self.tool_name {
            if !is_blank(tool.as_str()) {
                return tool.clone();
            }
        }
        String::from_str("task")
    }
}

} // verus!
