//! What the client makes of a successful answer: which result each
//! method's answer carries, the status lines of the acknowledgements that
//! need no decoding, the error for an answer that does not decode, and the
//! event each decoded result becomes.

use vstd::prelude::*;
use crate::json::{JsonValue, str_eq, get, spec_get};
use crate::protocol::AppUiError;
use crate::model::auth::{AuthStatusResult, AuthSendCodeResult, AuthLogoutResult, AuthVerifyResult, AuthMeResult, ProfileLocalCreateResult};
use crate::model::protocol_types::{
    ModelListResult, ModelSelectResult, McpStatusListResult, McpConfigListResult, McpConfigMutationResult,
    ToolStatusListResult, ToolConfigListResult, ToolConfigMutationResult, ProfileSkillsListResult,
    ProfileSkillsRegistrySearchResult, ProfileSkillsMutationResult,
};
use crate::model::llm::{ProfileLlmCatalogResult, ProfileLlmListResult, ProfileLlmMutationResult};
use crate::transport::{
    ResultEvent, auth_logout_event, auth_me_event, auth_send_code_event, auth_status_event, auth_verify_event, interrupt_ack_status, mcp_config_list_event, mcp_config_mutation_event, mcp_status_event, model_list_event, model_select_event, profile_llm_catalog_event, profile_llm_list_event, profile_llm_mutation_event, profile_local_create_event, profile_skills_list_event, profile_skills_mutation_event, profile_skills_registry_search_event, spec_auth_logout_message, spec_auth_me_message, spec_auth_send_code_message, spec_auth_status_message, spec_auth_verify_message, spec_mcp_config_list_message, spec_mcp_config_mutation_message, spec_mcp_status_message, spec_model_list_message, spec_model_select_message, spec_profile_llm_catalog_message, spec_profile_llm_list_message, spec_profile_llm_mutation_message, spec_profile_local_create_message, spec_profile_skills_list_message, spec_profile_skills_registry_search_message, spec_skills_mutation_message, spec_tool_config_list_message, spec_tool_config_mutation_message, spec_tool_status_message, tool_config_list_event, tool_config_mutation_event, tool_status_event,
};

verus! {

/// The result an answer carries, by the method of the request it answers.
#[derive(Debug, Clone, Copy, PartialEq, Eq, Structural)]
pub enum ResultRoute {
    /// The capability list (`config/capabilities/list`).
    ConfigCapabilities,
    /// The opened session (`session/open`).
    SessionOpen,
    /// The session status (`session/status/read`).
    SessionStatus,
    /// The model list, or the profile's configured providers (`profile/llm/list`).
    ModelList,
    /// The model selection (`profile/llm/select`).
    ModelSelect,
    /// The login status (`auth/status`).
    AuthStatus,
    /// The signed-in account (`auth/me`).
    AuthMe,
    /// The sent login code (`auth/send_code`).
    AuthSendCode,
    /// The verified login code (`auth/verify`).
    AuthVerify,
    /// The logout (`auth/logout`).
    AuthLogout,
    /// The created local profile (`profile/local/create`).
    ProfileLocalCreate,
    /// The provider catalog (`profile/llm/catalog`).
    ProfileLlmCatalog,
    /// The provider change (`profile/llm/upsert`, `profile/llm/delete`, `profile/llm/test`).
    ProfileLlmMutation,
    /// The installed skills (`profile/skills/list`).
    ProfileSkillsList,
    /// The skill registry search (`profile/skills/registry/search`).
    ProfileSkillsRegistrySearch,
    /// The skill change (`profile/skills/install`, `profile/skills/remove`).
    ProfileSkillsMutation,
    /// The diff preview (`diff/preview/get`).
    DiffPreview,
    /// The task output window (`task/output/read`).
    TaskOutputRead,
    /// The task artifact (`task/artifact/read`).
    TaskArtifactRead,
    /// The interrupt acknowledgement (`turn/interrupt`).
    TurnInterrupt,
    /// The approval acknowledgement (`approval/respond`).
    ApprovalRespond,
    /// The permission change (`permission/profile/set`).
    PermissionProfileSet,
    /// The MCP configuration (`mcp/config/list`).
    McpConfigList,
    /// The MCP configuration change (`mcp/config/upsert`, `mcp/config/delete`, `mcp/config/set_enabled`, `mcp/config/test`).
    McpConfigMutation,
    /// The MCP status (`mcp/status/list`).
    McpStatusList,
    /// The tool configuration (`tool/config/list`).
    ToolConfigList,
    /// The tool configuration change (`tool/config/set_enabled`, `tool/config/upsert`, `tool/config/delete`, `tool/config/test`).
    ToolConfigMutation,
    /// The tool status (`tool/status/list`).
    ToolStatusList,
    /// The agent list (`agent/list`).
    AgentList,
    /// The agent status (`agent/status/read`).
    AgentStatus,
    /// The agent output (`agent/output/read`).
    AgentOutput,
    /// The agent artifacts (`agent/artifact/list`).
    AgentArtifacts,
    /// The agent artifact (`agent/artifact/read`).
    AgentArtifactRead,
    /// The agent interrupt (`agent/interrupt`).
    AgentInterrupt,
    /// The agent close (`agent/close`).
    AgentClose,
    /// The session goal (`session/goal/get`).
    GoalGet,
    /// The session goal change (`session/goal/set`).
    GoalSet,
    /// The session goal cleared (`session/goal/clear`).
    GoalClear,
    /// The created loop (`loop/create`).
    LoopCreate,
    /// The loop list (`loop/list`).
    LoopList,
    /// The loop change (`loop/delete`, `loop/pause`, `loop/resume`, `loop/fire_now`).
    LoopMutation,
}

/// The route of an answer to `method`; `None` for a method whose answer
/// the client ignores.
pub open spec fn spec_result_route(method: Seq<char>) -> Option<ResultRoute> {
    if method == "config/capabilities/list"@ {
        Some(ResultRoute::ConfigCapabilities)
    } else if method == "session/open"@ {
        Some(ResultRoute::SessionOpen)
    } else if method == "session/status/read"@ {
        Some(ResultRoute::SessionStatus)
    } else if method == "profile/llm/list"@ {
        Some(ResultRoute::ModelList)
    } else if method == "profile/llm/select"@ {
        Some(ResultRoute::ModelSelect)
    } else if method == "auth/status"@ {
        Some(ResultRoute::AuthStatus)
    } else if method == "auth/me"@ {
        Some(ResultRoute::AuthMe)
    } else if method == "auth/send_code"@ {
        Some(ResultRoute::AuthSendCode)
    } else if method == "auth/verify"@ {
        Some(ResultRoute::AuthVerify)
    } else if method == "auth/logout"@ {
        Some(ResultRoute::AuthLogout)
    } else if method == "profile/local/create"@ {
        Some(ResultRoute::ProfileLocalCreate)
    } else if method == "profile/llm/catalog"@ {
        Some(ResultRoute::ProfileLlmCatalog)
    } else if method == "profile/llm/upsert"@ || method == "profile/llm/delete"@ || method == "profile/llm/test"@ {
        Some(ResultRoute::ProfileLlmMutation)
    } else if method == "profile/skills/list"@ {
        Some(ResultRoute::ProfileSkillsList)
    } else if method == "profile/skills/registry/search"@ {
        Some(ResultRoute::ProfileSkillsRegistrySearch)
    } else if method == "profile/skills/install"@ || method == "profile/skills/remove"@ {
        Some(ResultRoute::ProfileSkillsMutation)
    } else if method == "diff/preview/get"@ {
        Some(ResultRoute::DiffPreview)
    } else if method == "task/output/read"@ {
        Some(ResultRoute::TaskOutputRead)
    } else if method == "task/artifact/read"@ {
        Some(ResultRoute::TaskArtifactRead)
    } else if method == "turn/interrupt"@ {
        Some(ResultRoute::TurnInterrupt)
    } else if method == "approval/respond"@ {
        Some(ResultRoute::ApprovalRespond)
    } else if method == "permission/profile/set"@ {
        Some(ResultRoute::PermissionProfileSet)
    } else if method == "mcp/config/list"@ {
        Some(ResultRoute::McpConfigList)
    } else if method == "mcp/config/upsert"@ || method == "mcp/config/delete"@ || method == "mcp/config/set_enabled"@ || method == "mcp/config/test"@ {
        Some(ResultRoute::McpConfigMutation)
    } else if method == "mcp/status/list"@ {
        Some(ResultRoute::McpStatusList)
    } else if method == "tool/config/list"@ {
        Some(ResultRoute::ToolConfigList)
    } else if method == "tool/config/set_enabled"@ || method == "tool/config/upsert"@ || method == "tool/config/delete"@ || method == "tool/config/test"@ {
        Some(ResultRoute::ToolConfigMutation)
    } else if method == "tool/status/list"@ {
        Some(ResultRoute::ToolStatusList)
    } else if method == "agent/list"@ {
        Some(ResultRoute::AgentList)
    } else if method == "agent/status/read"@ {
        Some(ResultRoute::AgentStatus)
    } else if method == "agent/output/read"@ {
        Some(ResultRoute::AgentOutput)
    } else if method == "agent/artifact/list"@ {
        Some(ResultRoute::AgentArtifacts)
    } else if method == "agent/artifact/read"@ {
        Some(ResultRoute::AgentArtifactRead)
    } else if method == "agent/interrupt"@ {
        Some(ResultRoute::AgentInterrupt)
    } else if method == "agent/close"@ {
        Some(ResultRoute::AgentClose)
    } else if method == "session/goal/get"@ {
        Some(ResultRoute::GoalGet)
    } else if method == "session/goal/set"@ {
        Some(ResultRoute::GoalSet)
    } else if method == "session/goal/clear"@ {
        Some(ResultRoute::GoalClear)
    } else if method == "loop/create"@ {
        Some(ResultRoute::LoopCreate)
    } else if method == "loop/list"@ {
        Some(ResultRoute::LoopList)
    } else if method == "loop/delete"@ || method == "loop/pause"@ || method == "loop/resume"@ || method == "loop/fire_now"@ {
        Some(ResultRoute::LoopMutation)
    } else {
        None
    }
}

/// The route of an answer to `method` (see [`spec_result_route`]).
pub fn result_route(method: &str) -> (r: Option<ResultRoute>)
    ensures
        r == spec_result_route(method@),
{
    proof {
        reveal_strlit("agent/artifact/list");
        reveal_strlit("agent/artifact/read");
        reveal_strlit("agent/close");
        reveal_strlit("agent/interrupt");
        reveal_strlit("agent/list");
        reveal_strlit("agent/output/read");
        reveal_strlit("agent/status/read");
        reveal_strlit("approval/respond");
        reveal_strlit("auth/logout");
        reveal_strlit("auth/me");
        reveal_strlit("auth/send_code");
        reveal_strlit("auth/status");
        reveal_strlit("auth/verify");
        reveal_strlit("config/capabilities/list");
        reveal_strlit("diff/preview/get");
        reveal_strlit("loop/create");
        reveal_strlit("loop/delete");
        reveal_strlit("loop/fire_now");
        reveal_strlit("loop/list");
        reveal_strlit("loop/pause");
        reveal_strlit("loop/resume");
        reveal_strlit("mcp/config/delete");
        reveal_strlit("mcp/config/list");
        reveal_strlit("mcp/config/set_enabled");
        reveal_strlit("mcp/config/test");
        reveal_strlit("mcp/config/upsert");
        reveal_strlit("mcp/status/list");
        reveal_strlit("permission/profile/set");
        reveal_strlit("profile/llm/catalog");
        reveal_strlit("profile/llm/delete");
        reveal_strlit("profile/llm/list");
        reveal_strlit("profile/llm/select");
        reveal_strlit("profile/llm/test");
        reveal_strlit("profile/llm/upsert");
        reveal_strlit("profile/local/create");
        reveal_strlit("profile/skills/install");
        reveal_strlit("profile/skills/list");
        reveal_strlit("profile/skills/registry/search");
        reveal_strlit("profile/skills/remove");
        reveal_strlit("session/goal/clear");
        reveal_strlit("session/goal/get");
        reveal_strlit("session/goal/set");
        reveal_strlit("session/open");
        reveal_strlit("session/status/read");
        reveal_strlit("task/artifact/read");
        reveal_strlit("task/output/read");
        reveal_strlit("tool/config/delete");
        reveal_strlit("tool/config/list");
        reveal_strlit("tool/config/set_enabled");
        reveal_strlit("tool/config/test");
        reveal_strlit("tool/config/upsert");
        reveal_strlit("tool/status/list");
        reveal_strlit("turn/interrupt");
    }
    if str_eq(method, "config/capabilities/list") {
        Some(ResultRoute::ConfigCapabilities)
    } else if str_eq(method, "session/open") {
        Some(ResultRoute::SessionOpen)
    } else if str_eq(method, "session/status/read") {
        Some(ResultRoute::SessionStatus)
    } else if str_eq(method, "profile/llm/list") {
        Some(ResultRoute::ModelList)
    } else if str_eq(method, "profile/llm/select") {
        Some(ResultRoute::ModelSelect)
    } else if str_eq(method, "auth/status") {
        Some(ResultRoute::AuthStatus)
    } else if str_eq(method, "auth/me") {
        Some(ResultRoute::AuthMe)
    } else if str_eq(method, "auth/send_code") {
        Some(ResultRoute::AuthSendCode)
    } else if str_eq(method, "auth/verify") {
        Some(ResultRoute::AuthVerify)
    } else if str_eq(method, "auth/logout") {
        Some(ResultRoute::AuthLogout)
    } else if str_eq(method, "profile/local/create") {
        Some(ResultRoute::ProfileLocalCreate)
    } else if str_eq(method, "profile/llm/catalog") {
        Some(ResultRoute::ProfileLlmCatalog)
    } else if str_eq(method, "profile/llm/upsert") || str_eq(method, "profile/llm/delete") || str_eq(method, "profile/llm/test") {
        Some(ResultRoute::ProfileLlmMutation)
    } else if str_eq(method, "profile/skills/list") {
        Some(ResultRoute::ProfileSkillsList)
    } else if str_eq(method, "profile/skills/registry/search") {
        Some(ResultRoute::ProfileSkillsRegistrySearch)
    } else if str_eq(method, "profile/skills/install") || str_eq(method, "profile/skills/remove") {
        Some(ResultRoute::ProfileSkillsMutation)
    } else if str_eq(method, "diff/preview/get") {
        Some(ResultRoute::DiffPreview)
    } else if str_eq(method, "task/output/read") {
        Some(ResultRoute::TaskOutputRead)
    } else if str_eq(method, "task/artifact/read") {
        Some(ResultRoute::TaskArtifactRead)
    } else if str_eq(method, "turn/interrupt") {
        Some(ResultRoute::TurnInterrupt)
    } else if str_eq(method, "approval/respond") {
        Some(ResultRoute::ApprovalRespond)
    } else if str_eq(method, "permission/profile/set") {
        Some(ResultRoute::PermissionProfileSet)
    } else if str_eq(method, "mcp/config/list") {
        Some(ResultRoute::McpConfigList)
    } else if str_eq(method, "mcp/config/upsert") || str_eq(method, "mcp/config/delete") || str_eq(method, "mcp/config/set_enabled") || str_eq(method, "mcp/config/test") {
        Some(ResultRoute::McpConfigMutation)
    } else if str_eq(method, "mcp/status/list") {
        Some(ResultRoute::McpStatusList)
    } else if str_eq(method, "tool/config/list") {
        Some(ResultRoute::ToolConfigList)
    } else if str_eq(method, "tool/config/set_enabled") || str_eq(method, "tool/config/upsert") || str_eq(method, "tool/config/delete") || str_eq(method, "tool/config/test") {
        Some(ResultRoute::ToolConfigMutation)
    } else if str_eq(method, "tool/status/list") {
        Some(ResultRoute::ToolStatusList)
    } else if str_eq(method, "agent/list") {
        Some(ResultRoute::AgentList)
    } else if str_eq(method, "agent/status/read") {
        Some(ResultRoute::AgentStatus)
    } else if str_eq(method, "agent/output/read") {
        Some(ResultRoute::AgentOutput)
    } else if str_eq(method, "agent/artifact/list") {
        Some(ResultRoute::AgentArtifacts)
    } else if str_eq(method, "agent/artifact/read") {
        Some(ResultRoute::AgentArtifactRead)
    } else if str_eq(method, "agent/interrupt") {
        Some(ResultRoute::AgentInterrupt)
    } else if str_eq(method, "agent/close") {
        Some(ResultRoute::AgentClose)
    } else if str_eq(method, "session/goal/get") {
        Some(ResultRoute::GoalGet)
    } else if str_eq(method, "session/goal/set") {
        Some(ResultRoute::GoalSet)
    } else if str_eq(method, "session/goal/clear") {
        Some(ResultRoute::GoalClear)
    } else if str_eq(method, "loop/create") {
        Some(ResultRoute::LoopCreate)
    } else if str_eq(method, "loop/list") {
        Some(ResultRoute::LoopList)
    } else if str_eq(method, "loop/delete") || str_eq(method, "loop/pause") || str_eq(method, "loop/resume") || str_eq(method, "loop/fire_now") {
        Some(ResultRoute::LoopMutation)
    } else {
        None
    }
}

/// The error for an answer to `method` that does not decode as its
/// result, with what the decoder reported.
pub fn invalid_result_error(method: &str, detail: &str) -> (r: AppUiError)
    ensures
        r.code@ == "invalid_result"@,
        r.message@ == "failed to decode UI protocol result for "@ + method@ + ": "@ + detail@,
{
    let mut message = String::from_str("failed to decode UI protocol result for ");
    message.append(method);
    message.append(": ");
    message.append(detail);
    proof {
        reveal_strlit("invalid_result");
        reveal_strlit("failed to decode UI protocol result for ");
        reveal_strlit(": ");
    }
    AppUiError { code: String::from_str("invalid_result"), message }
}

/// The status line of an answer that needs no decoding: an interrupt's,
/// by what it reports, and an approval answer's; `None` for every other
/// route.
pub open spec fn spec_ack_status(route: ResultRoute, result: JsonValue) -> Option<Seq<char>> {
    match route {
        ResultRoute::TurnInterrupt => Some(match spec_get(result, "interrupted"@) {
            Some(JsonValue::Bool(false)) => "Interrupt acknowledged; turn was already idle"@,
            Some(JsonValue::Bool(true)) => "Interrupt acknowledged; active turn cancelled"@,
            _ => "Interrupt acknowledged"@,
        }),
        ResultRoute::ApprovalRespond => Some("Approval response acknowledged"@),
        _ => None,
    }
}

/// The status line of an acknowledgement (see [`spec_ack_status`]).
pub fn ack_status(route: ResultRoute, result: &JsonValue) -> (r: Option<String>)
    ensures
        match (r, spec_ack_status(route, *result)) {
            (Some(a), Some(b)) => a@ == b,
            (None, None) => true,
            _ => false,
        },
{
    match route {
        ResultRoute::TurnInterrupt => Some(interrupt_ack_status(result)),
        ResultRoute::ApprovalRespond => {
            proof { reveal_strlit("Approval response acknowledged"); }
            Some(String::from_str("Approval response acknowledged"))
        },
        _ => None,
    }
}

/// Whether an answer to `profile/llm/list` is a session's model list: it
/// has a `models` member. One without is first read as the profile's
/// configured providers, and as a model list only if that fails.
pub fn lists_models(result: &JsonValue) -> (r: bool)
    ensures
        r == (spec_get(*result, "models"@) is Some),
{
    get(result, "models").is_some()
}

/// A decoded result of a route whose result the library holds.
pub enum DecodedResult {
    ModelList(ModelListResult),
    ProfileLlmList(ProfileLlmListResult),
    ModelSelect(ModelSelectResult),
    AuthStatus(AuthStatusResult),
    AuthMe(AuthMeResult),
    AuthSendCode(AuthSendCodeResult),
    AuthVerify(AuthVerifyResult),
    AuthLogout(AuthLogoutResult),
    ProfileLocalCreate(ProfileLocalCreateResult),
    ProfileLlmCatalog(ProfileLlmCatalogResult),
    ProfileLlmMutation(ProfileLlmMutationResult),
    ProfileSkillsList(ProfileSkillsListResult),
    ProfileSkillsRegistrySearch(ProfileSkillsRegistrySearchResult),
    ProfileSkillsMutation(ProfileSkillsMutationResult),
    McpConfigList(McpConfigListResult),
    McpConfigMutation(McpConfigMutationResult),
    McpStatusList(McpStatusListResult),
    ToolConfigList(ToolConfigListResult),
    ToolConfigMutation(ToolConfigMutationResult),
    ToolStatusList(ToolStatusListResult),
}

/// A decoded result with the status line it produces.
pub enum ResultClientEvent {
    ModelList(ResultEvent<ModelListResult>),
    ProfileLlmList(ResultEvent<ProfileLlmListResult>),
    ModelSelect(ResultEvent<ModelSelectResult>),
    AuthStatus(ResultEvent<AuthStatusResult>),
    AuthMe(ResultEvent<AuthMeResult>),
    AuthSendCode(ResultEvent<AuthSendCodeResult>),
    AuthVerify(ResultEvent<AuthVerifyResult>),
    AuthLogout(ResultEvent<AuthLogoutResult>),
    ProfileLocalCreate(ResultEvent<ProfileLocalCreateResult>),
    ProfileLlmCatalog(ResultEvent<ProfileLlmCatalogResult>),
    ProfileLlmMutation(ResultEvent<ProfileLlmMutationResult>),
    ProfileSkillsList(ResultEvent<ProfileSkillsListResult>),
    ProfileSkillsRegistrySearch(ResultEvent<ProfileSkillsRegistrySearchResult>),
    ProfileSkillsMutation(ResultEvent<ProfileSkillsMutationResult>),
    McpConfigList(ResultEvent<McpConfigListResult>),
    McpConfigMutation(ResultEvent<McpConfigMutationResult>),
    McpStatusList(ResultEvent<McpStatusListResult>),
    ToolConfigList(ResultEvent<ToolConfigListResult>),
    ToolConfigMutation(ResultEvent<ToolConfigMutationResult>),
    ToolStatusList(ResultEvent<ToolStatusListResult>),
}

/// The status line each decoded result produces.
pub open spec fn spec_result_message(d: DecodedResult) -> Seq<char> {
    match d {
        DecodedResult::ModelList(x) => spec_model_list_message(x),
        DecodedResult::ProfileLlmList(x) => spec_profile_llm_list_message(x),
        DecodedResult::ModelSelect(x) => spec_model_select_message(x),
        DecodedResult::AuthStatus(x) => spec_auth_status_message(x),
        DecodedResult::AuthMe(x) => spec_auth_me_message(x),
        DecodedResult::AuthSendCode(x) => spec_auth_send_code_message(x),
        DecodedResult::AuthVerify(x) => spec_auth_verify_message(x),
        DecodedResult::AuthLogout(x) => spec_auth_logout_message(x),
        DecodedResult::ProfileLocalCreate(x) => spec_profile_local_create_message(x),
        DecodedResult::ProfileLlmCatalog(x) => spec_profile_llm_catalog_message(x),
        DecodedResult::ProfileLlmMutation(x) => spec_profile_llm_mutation_message(x),
        DecodedResult::ProfileSkillsList(x) => spec_profile_skills_list_message(x),
        DecodedResult::ProfileSkillsRegistrySearch(x) => spec_profile_skills_registry_search_message(x),
        DecodedResult::ProfileSkillsMutation(x) => spec_skills_mutation_message(x),
        DecodedResult::McpConfigList(x) => spec_mcp_config_list_message(x),
        DecodedResult::McpConfigMutation(x) => spec_mcp_config_mutation_message(x),
        DecodedResult::McpStatusList(x) => spec_mcp_status_message(x),
        DecodedResult::ToolConfigList(x) => spec_tool_config_list_message(x),
        DecodedResult::ToolConfigMutation(x) => spec_tool_config_mutation_message(x),
        DecodedResult::ToolStatusList(x) => spec_tool_status_message(x),
    }
}

/// Whether the event carries the decoded result `d` unchanged, in the
/// variant of its route.
pub open spec fn carries(e: ResultClientEvent, d: DecodedResult) -> bool {
    match (e, d) {
        (ResultClientEvent::ModelList(ev), DecodedResult::ModelList(x)) => ev.result == x,
        (ResultClientEvent::ProfileLlmList(ev), DecodedResult::ProfileLlmList(x)) => ev.result == x,
        (ResultClientEvent::ModelSelect(ev), DecodedResult::ModelSelect(x)) => ev.result == x,
        (ResultClientEvent::AuthStatus(ev), DecodedResult::AuthStatus(x)) => ev.result == x,
        (ResultClientEvent::AuthMe(ev), DecodedResult::AuthMe(x)) => ev.result == x,
        (ResultClientEvent::AuthSendCode(ev), DecodedResult::AuthSendCode(x)) => ev.result == x,
        (ResultClientEvent::AuthVerify(ev), DecodedResult::AuthVerify(x)) => ev.result == x,
        (ResultClientEvent::AuthLogout(ev), DecodedResult::AuthLogout(x)) => ev.result == x,
        (ResultClientEvent::ProfileLocalCreate(ev), DecodedResult::ProfileLocalCreate(x)) => ev.result == x,
        (ResultClientEvent::ProfileLlmCatalog(ev), DecodedResult::ProfileLlmCatalog(x)) => ev.result == x,
        (ResultClientEvent::ProfileLlmMutation(ev), DecodedResult::ProfileLlmMutation(x)) => ev.result == x,
        (ResultClientEvent::ProfileSkillsList(ev), DecodedResult::ProfileSkillsList(x)) => ev.result == x,
        (ResultClientEvent::ProfileSkillsRegistrySearch(ev), DecodedResult::ProfileSkillsRegistrySearch(x)) => ev.result == x,
        (ResultClientEvent::ProfileSkillsMutation(ev), DecodedResult::ProfileSkillsMutation(x)) => ev.result == x,
        (ResultClientEvent::McpConfigList(ev), DecodedResult::McpConfigList(x)) => ev.result == x,
        (ResultClientEvent::McpConfigMutation(ev), DecodedResult::McpConfigMutation(x)) => ev.result == x,
        (ResultClientEvent::McpStatusList(ev), DecodedResult::McpStatusList(x)) => ev.result == x,
        (ResultClientEvent::ToolConfigList(ev), DecodedResult::ToolConfigList(x)) => ev.result == x,
        (ResultClientEvent::ToolConfigMutation(ev), DecodedResult::ToolConfigMutation(x)) => ev.result == x,
        (ResultClientEvent::ToolStatusList(ev), DecodedResult::ToolStatusList(x)) => ev.result == x,
        _ => false,
    }
}

/// The message of an event.
pub open spec fn event_message(e: ResultClientEvent) -> Seq<char> {
    match e {
        ResultClientEvent::ModelList(ev) => ev.message@,
        ResultClientEvent::ProfileLlmList(ev) => ev.message@,
        ResultClientEvent::ModelSelect(ev) => ev.message@,
        ResultClientEvent::AuthStatus(ev) => ev.message@,
        ResultClientEvent::AuthMe(ev) => ev.message@,
        ResultClientEvent::AuthSendCode(ev) => ev.message@,
        ResultClientEvent::AuthVerify(ev) => ev.message@,
        ResultClientEvent::AuthLogout(ev) => ev.message@,
        ResultClientEvent::ProfileLocalCreate(ev) => ev.message@,
        ResultClientEvent::ProfileLlmCatalog(ev) => ev.message@,
        ResultClientEvent::ProfileLlmMutation(ev) => ev.message@,
        ResultClientEvent::ProfileSkillsList(ev) => ev.message@,
        ResultClientEvent::ProfileSkillsRegistrySearch(ev) => ev.message@,
        ResultClientEvent::ProfileSkillsMutation(ev) => ev.message@,
        ResultClientEvent::McpConfigList(ev) => ev.message@,
        ResultClientEvent::McpConfigMutation(ev) => ev.message@,
        ResultClientEvent::McpStatusList(ev) => ev.message@,
        ResultClientEvent::ToolConfigList(ev) => ev.message@,
        ResultClientEvent::ToolConfigMutation(ev) => ev.message@,
        ResultClientEvent::ToolStatusList(ev) => ev.message@,
    }
}

/// The event a decoded result becomes: the result itself with its status
/// line (see [`spec_result_message`]).
pub fn decoded_result_event(d: DecodedResult) -> (r: ResultClientEvent)
    requires
        d matches DecodedResult::ProfileLlmList(x) ==> x.fallbacks@.len() < usize::MAX,
    ensures
        carries(r, d),
        event_message(r) == spec_result_message(d),
{
    match d {
        DecodedResult::ModelList(x) => ResultClientEvent::ModelList(model_list_event(x)),
        DecodedResult::ProfileLlmList(x) => ResultClientEvent::ProfileLlmList(profile_llm_list_event(x)),
        DecodedResult::ModelSelect(x) => ResultClientEvent::ModelSelect(model_select_event(x)),
        DecodedResult::AuthStatus(x) => ResultClientEvent::AuthStatus(auth_status_event(x)),
        DecodedResult::AuthMe(x) => ResultClientEvent::AuthMe(auth_me_event(x)),
        DecodedResult::AuthSendCode(x) => ResultClientEvent::AuthSendCode(auth_send_code_event(x)),
        DecodedResult::AuthVerify(x) => ResultClientEvent::AuthVerify(auth_verify_event(x)),
        DecodedResult::AuthLogout(x) => ResultClientEvent::AuthLogout(auth_logout_event(x)),
        DecodedResult::ProfileLocalCreate(x) => ResultClientEvent::ProfileLocalCreate(profile_local_create_event(x)),
        DecodedResult::ProfileLlmCatalog(x) => ResultClientEvent::ProfileLlmCatalog(profile_llm_catalog_event(x)),
        DecodedResult::ProfileLlmMutation(x) => ResultClientEvent::ProfileLlmMutation(profile_llm_mutation_event(x)),
        DecodedResult::ProfileSkillsList(x) => ResultClientEvent::ProfileSkillsList(profile_skills_list_event(x)),
        DecodedResult::ProfileSkillsRegistrySearch(x) => ResultClientEvent::ProfileSkillsRegistrySearch(profile_skills_registry_search_event(x)),
        DecodedResult::ProfileSkillsMutation(x) => ResultClientEvent::ProfileSkillsMutation(profile_skills_mutation_event(x)),
        DecodedResult::McpConfigList(x) => ResultClientEvent::McpConfigList(mcp_config_list_event(x)),
        DecodedResult::McpConfigMutation(x) => ResultClientEvent::McpConfigMutation(mcp_config_mutation_event(x)),
        DecodedResult::McpStatusList(x) => ResultClientEvent::McpStatusList(mcp_status_event(x)),
        DecodedResult::ToolConfigList(x) => ResultClientEvent::ToolConfigList(tool_config_list_event(x)),
        DecodedResult::ToolConfigMutation(x) => ResultClientEvent::ToolConfigMutation(tool_config_mutation_event(x)),
        DecodedResult::ToolStatusList(x) => ResultClientEvent::ToolStatusList(tool_status_event(x)),
    }
}

} // verus!
