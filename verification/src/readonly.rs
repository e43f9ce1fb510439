//! The protocol method each request is sent as, and what a read-only
//! launch lets through: the read-style requests pass;
//! every other request is answered locally without reaching the network,
//! with a warning for a submitted prompt and an error for anything else.

use vstd::prelude::*;
use crate::protocol::AppUiError;

verus! {

/// Which request a command is, without its parameters.
#[derive(Debug, Clone, Copy, PartialEq, Eq, Structural)]
pub enum AppUiCommandKind {
    OpenSession,
    SubmitPrompt,
    InterruptTurn,
    RespondApproval,
    ListApprovalScopes,
    GetDiffPreview,
    ListTasks,
    CancelTask,
    RestartTaskFromNode,
    ReadTaskOutput,
    ReadTaskArtifact,
    GetThreadGraph,
    GetTurnState,
    ListConfigCapabilities,
    ReadSessionStatus,
    ListModels,
    SelectModel,
    ListPermissionProfiles,
    SetPermissionProfile,
    ListMcpStatus,
    ListToolStatus,
    ListMcpConfig,
    UpsertMcpConfig,
    DeleteMcpConfig,
    SetMcpConfigEnabled,
    TestMcpConfig,
    ListToolConfig,
    SetToolConfigEnabled,
    UpsertToolConfig,
    DeleteToolConfig,
    TestToolConfig,
    AuthStatus,
    AuthSendCode,
    AuthVerify,
    AuthMe,
    AuthLogout,
    ProfileLocalCreate,
    ProfileLlmCatalog,
    ProfileLlmList,
    ProfileLlmUpsert,
    ProfileLlmDelete,
    ProfileLlmSelect,
    ProfileLlmTest,
    ProfileLlmFetchModels,
    ProfileSkillsList,
    ProfileSkillsRegistrySearch,
    ProfileSkillsInstall,
    ProfileSkillsRemove,
    ListAgents,
    ReadAgentStatus,
    ReadAgentOutput,
    ListAgentArtifacts,
    ReadAgentArtifact,
    InterruptAgent,
    CloseAgent,
    GetSessionGoal,
    SetSessionGoal,
    ClearSessionGoal,
    CreateLoop,
    ListLoops,
    DeleteLoop,
    PauseLoop,
    ResumeLoop,
    FireLoopNow,
}

/// The read-style requests a read-only launch still sends: capability,
/// session, status and catalog reads, previews, task output and
/// artifacts, auth and profile reads, and the inspection of agents, goals
/// and loops.
pub open spec fn spec_readonly_allows(kind: AppUiCommandKind) -> bool {
    match kind {
        AppUiCommandKind::ListConfigCapabilities
        | AppUiCommandKind::OpenSession
        | AppUiCommandKind::ReadSessionStatus
        | AppUiCommandKind::ListModels
        | AppUiCommandKind::ListApprovalScopes
        | AppUiCommandKind::ListPermissionProfiles
        | AppUiCommandKind::ListMcpStatus
        | AppUiCommandKind::ListToolStatus
        | AppUiCommandKind::ListMcpConfig
        | AppUiCommandKind::ListToolConfig
        | AppUiCommandKind::GetDiffPreview
        | AppUiCommandKind::ReadTaskOutput
        | AppUiCommandKind::ReadTaskArtifact
        | AppUiCommandKind::AuthStatus
        | AppUiCommandKind::AuthMe
        | AppUiCommandKind::ProfileLlmCatalog
        | AppUiCommandKind::ProfileLlmList
        | AppUiCommandKind::ProfileLlmFetchModels
        | AppUiCommandKind::ProfileSkillsList
        | AppUiCommandKind::ProfileSkillsRegistrySearch
        | AppUiCommandKind::ListAgents
        | AppUiCommandKind::ReadAgentStatus
        | AppUiCommandKind::ReadAgentOutput
        | AppUiCommandKind::ListAgentArtifacts
        | AppUiCommandKind::ReadAgentArtifact
        | AppUiCommandKind::GetSessionGoal
        | AppUiCommandKind::ListLoops => true,
        _ => false,
    }
}

/// The requests that change something, refused in read-only mode with an
/// error naming them. (A submitted prompt is refused with a warning
/// instead.)
pub open spec fn spec_readonly_mutation(kind: AppUiCommandKind) -> bool {
    match kind {
        AppUiCommandKind::InterruptTurn
        | AppUiCommandKind::RespondApproval
        | AppUiCommandKind::SetPermissionProfile
        | AppUiCommandKind::AuthSendCode
        | AppUiCommandKind::AuthVerify
        | AppUiCommandKind::AuthLogout
        | AppUiCommandKind::ProfileLocalCreate
        | AppUiCommandKind::ProfileLlmUpsert
        | AppUiCommandKind::ProfileLlmDelete
        | AppUiCommandKind::ProfileLlmSelect
        | AppUiCommandKind::ProfileLlmTest
        | AppUiCommandKind::ProfileSkillsInstall
        | AppUiCommandKind::ProfileSkillsRemove
        | AppUiCommandKind::UpsertMcpConfig
        | AppUiCommandKind::DeleteMcpConfig
        | AppUiCommandKind::SetMcpConfigEnabled
        | AppUiCommandKind::TestMcpConfig
        | AppUiCommandKind::SetToolConfigEnabled
        | AppUiCommandKind::UpsertToolConfig
        | AppUiCommandKind::DeleteToolConfig
        | AppUiCommandKind::TestToolConfig => true,
        _ => false,
    }
}

/// Whether a read-only launch sends `kind` (see [`spec_readonly_allows`]).
pub fn readonly_allows_command(kind: AppUiCommandKind) -> (r: bool)
    ensures
        r == spec_readonly_allows(kind),
{
    match kind {
        AppUiCommandKind::ListConfigCapabilities
        | AppUiCommandKind::OpenSession
        | AppUiCommandKind::ReadSessionStatus
        | AppUiCommandKind::ListModels
        | AppUiCommandKind::ListApprovalScopes
        | AppUiCommandKind::ListPermissionProfiles
        | AppUiCommandKind::ListMcpStatus
        | AppUiCommandKind::ListToolStatus
        | AppUiCommandKind::ListMcpConfig
        | AppUiCommandKind::ListToolConfig
        | AppUiCommandKind::GetDiffPreview
        | AppUiCommandKind::ReadTaskOutput
        | AppUiCommandKind::ReadTaskArtifact
        | AppUiCommandKind::AuthStatus
        | AppUiCommandKind::AuthMe
        | AppUiCommandKind::ProfileLlmCatalog
        | AppUiCommandKind::ProfileLlmList
        | AppUiCommandKind::ProfileLlmFetchModels
        | AppUiCommandKind::ProfileSkillsList
        | AppUiCommandKind::ProfileSkillsRegistrySearch
        | AppUiCommandKind::ListAgents
        | AppUiCommandKind::ReadAgentStatus
        | AppUiCommandKind::ReadAgentOutput
        | AppUiCommandKind::ListAgentArtifacts
        | AppUiCommandKind::ReadAgentArtifact
        | AppUiCommandKind::GetSessionGoal
        | AppUiCommandKind::ListLoops => true,
        _ => false,
    }
}

/// How a request refused in read-only mode is answered.
#[derive(Debug, Clone, PartialEq, Eq)]
pub enum ReadonlyRefusal {
    /// A warning on the prompt's turn.
    TurnWarning { code: String, message: String },
    /// An error naming the refused method.
    Error(AppUiError),
}

/// Whether the answer is a turn warning, its code, and its message.
pub open spec fn spec_refusal_parts(kind: AppUiCommandKind, method: Seq<char>) -> (bool, Seq<char>, Seq<char>) {
    if kind == AppUiCommandKind::SubmitPrompt {
        (true, "readonly"@, "Read-only mode blocks turn/start; no network request was sent."@)
    } else if spec_readonly_mutation(kind) {
        (false, "readonly"@, "Read-only mode blocks "@ + method + "; no network request was sent."@)
    } else {
        (
            false,
            "readonly_policy"@,
            "Read-only mode unexpectedly blocked read-style "@ + method + "; no network request was sent."@,
        )
    }
}

/// The answer to a request `kind` (for method `method`) that a read-only
/// launch did not send: a warning for a prompt, a `readonly` error for a
/// request that changes something, and a `readonly_policy` error for a
/// read-style request that should have been let through.
pub fn readonly_refusal(kind: AppUiCommandKind, method: &str) -> (r: ReadonlyRefusal)
    ensures
        ({
            let (warning, code, message) = spec_refusal_parts(kind, method@);
            match r {
                ReadonlyRefusal::TurnWarning { code: c, message: m } => warning && c@ == code && m@ == message,
                ReadonlyRefusal::Error(e) => !warning && e.code@ == code && e.message@ == message,
            }
        }),
{
    proof {
        reveal_strlit("readonly");
        reveal_strlit("readonly_policy");
        reveal_strlit("Read-only mode blocks turn/start; no network request was sent.");
        reveal_strlit("Read-only mode blocks ");
        reveal_strlit("; no network request was sent.");
        reveal_strlit("Read-only mode unexpectedly blocked read-style ");
    }
    match kind {
        AppUiCommandKind::SubmitPrompt => ReadonlyRefusal::TurnWarning {
            code: String::from_str("readonly"),
            message: String::from_str("Read-only mode blocks turn/start; no network request was sent."),
        },
        AppUiCommandKind::InterruptTurn
        | AppUiCommandKind::RespondApproval
        | AppUiCommandKind::SetPermissionProfile
        | AppUiCommandKind::AuthSendCode
        | AppUiCommandKind::AuthVerify
        | AppUiCommandKind::AuthLogout
        | AppUiCommandKind::ProfileLocalCreate
        | AppUiCommandKind::ProfileLlmUpsert
        | AppUiCommandKind::ProfileLlmDelete
        | AppUiCommandKind::ProfileLlmSelect
        | AppUiCommandKind::ProfileLlmTest
        | AppUiCommandKind::ProfileSkillsInstall
        | AppUiCommandKind::ProfileSkillsRemove
        | AppUiCommandKind::UpsertMcpConfig
        | AppUiCommandKind::DeleteMcpConfig
        | AppUiCommandKind::SetMcpConfigEnabled
        | AppUiCommandKind::TestMcpConfig
        | AppUiCommandKind::SetToolConfigEnabled
        | AppUiCommandKind::UpsertToolConfig
        | AppUiCommandKind::DeleteToolConfig
        | AppUiCommandKind::TestToolConfig => {
            let mut m = String::from_str("Read-only mode blocks ");
            m.append(method);
            m.append("; no network request was sent.");
            ReadonlyRefusal::Error(AppUiError { code: String::from_str("readonly"), message: m })
        },
        _ => {
            let mut m = String::from_str("Read-only mode unexpectedly blocked read-style ");
            m.append(method);
            m.append("; no network request was sent.");
            ReadonlyRefusal::Error(AppUiError { code: String::from_str("readonly_policy"), message: m })
        },
    }
}

/// The protocol method each request is sent as. `None` for the four
/// requests whose method names the protocol crate defines and nothing here
/// shows: listing approval scopes, cancelling a task, restarting a task
/// from a node, and listing permission profiles.
pub open spec fn spec_method_name(kind: AppUiCommandKind) -> Option<Seq<char>> {
    match kind {
        AppUiCommandKind::OpenSession => Some("session/open"@),
        AppUiCommandKind::SubmitPrompt => Some("turn/start"@),
        AppUiCommandKind::InterruptTurn => Some("turn/interrupt"@),
        AppUiCommandKind::RespondApproval => Some("approval/respond"@),
        AppUiCommandKind::ListApprovalScopes => None,
        AppUiCommandKind::GetDiffPreview => Some("diff/preview/get"@),
        AppUiCommandKind::ListTasks => Some("task/list"@),
        AppUiCommandKind::CancelTask => None,
        AppUiCommandKind::RestartTaskFromNode => None,
        AppUiCommandKind::ReadTaskOutput => Some("task/output/read"@),
        AppUiCommandKind::ReadTaskArtifact => Some("task/artifact/read"@),
        AppUiCommandKind::GetThreadGraph => Some("thread/graph/get"@),
        AppUiCommandKind::GetTurnState => Some("turn/state/get"@),
        AppUiCommandKind::ListConfigCapabilities => Some("config/capabilities/list"@),
        AppUiCommandKind::ReadSessionStatus => Some("session/status/read"@),
        AppUiCommandKind::ListModels => Some("profile/llm/list"@),
        AppUiCommandKind::SelectModel => Some("profile/llm/select"@),
        AppUiCommandKind::ListPermissionProfiles => None,
        AppUiCommandKind::SetPermissionProfile => Some("permission/profile/set"@),
        AppUiCommandKind::ListMcpStatus => Some("mcp/status/list"@),
        AppUiCommandKind::ListToolStatus => Some("tool/status/list"@),
        AppUiCommandKind::ListMcpConfig => Some("mcp/config/list"@),
        AppUiCommandKind::UpsertMcpConfig => Some("mcp/config/upsert"@),
        AppUiCommandKind::DeleteMcpConfig => Some("mcp/config/delete"@),
        AppUiCommandKind::SetMcpConfigEnabled => Some("mcp/config/set_enabled"@),
        AppUiCommandKind::TestMcpConfig => Some("mcp/config/test"@),
        AppUiCommandKind::ListToolConfig => Some("tool/config/list"@),
        AppUiCommandKind::SetToolConfigEnabled => Some("tool/config/set_enabled"@),
        AppUiCommandKind::UpsertToolConfig => Some("tool/config/upsert"@),
        AppUiCommandKind::DeleteToolConfig => Some("tool/config/delete"@),
        AppUiCommandKind::TestToolConfig => Some("tool/config/test"@),
        AppUiCommandKind::AuthStatus => Some("auth/status"@),
        AppUiCommandKind::AuthSendCode => Some("auth/send_code"@),
        AppUiCommandKind::AuthVerify => Some("auth/verify"@),
        AppUiCommandKind::AuthMe => Some("auth/me"@),
        AppUiCommandKind::AuthLogout => Some("auth/logout"@),
        AppUiCommandKind::ProfileLocalCreate => Some("profile/local/create"@),
        AppUiCommandKind::ProfileLlmCatalog => Some("profile/llm/catalog"@),
        AppUiCommandKind::ProfileLlmList => Some("profile/llm/list"@),
        AppUiCommandKind::ProfileLlmUpsert => Some("profile/llm/upsert"@),
        AppUiCommandKind::ProfileLlmDelete => Some("profile/llm/delete"@),
        AppUiCommandKind::ProfileLlmSelect => Some("profile/llm/select"@),
        AppUiCommandKind::ProfileLlmTest => Some("profile/llm/test"@),
        AppUiCommandKind::ProfileLlmFetchModels => Some("profile/llm/fetch_models"@),
        AppUiCommandKind::ProfileSkillsList => Some("profile/skills/list"@),
        AppUiCommandKind::ProfileSkillsRegistrySearch => Some("profile/skills/registry/search"@),
        AppUiCommandKind::ProfileSkillsInstall => Some("profile/skills/install"@),
        AppUiCommandKind::ProfileSkillsRemove => Some("profile/skills/remove"@),
        AppUiCommandKind::ListAgents => Some("agent/list"@),
        AppUiCommandKind::ReadAgentStatus => Some("agent/status/read"@),
        AppUiCommandKind::ReadAgentOutput => Some("agent/output/read"@),
        AppUiCommandKind::ListAgentArtifacts => Some("agent/artifact/list"@),
        AppUiCommandKind::ReadAgentArtifact => Some("agent/artifact/read"@),
        AppUiCommandKind::InterruptAgent => Some("agent/interrupt"@),
        AppUiCommandKind::CloseAgent => Some("agent/close"@),
        AppUiCommandKind::GetSessionGoal => Some("session/goal/get"@),
        AppUiCommandKind::SetSessionGoal => Some("session/goal/set"@),
        AppUiCommandKind::ClearSessionGoal => Some("session/goal/clear"@),
        AppUiCommandKind::CreateLoop => Some("loop/create"@),
        AppUiCommandKind::ListLoops => Some("loop/list"@),
        AppUiCommandKind::DeleteLoop => Some("loop/delete"@),
        AppUiCommandKind::PauseLoop => Some("loop/pause"@),
        AppUiCommandKind::ResumeLoop => Some("loop/resume"@),
        AppUiCommandKind::FireLoopNow => Some("loop/fire_now"@),
    }
}

/// The method `kind` is sent as (see [`spec_method_name`]).
pub fn method_name(kind: AppUiCommandKind) -> (r: Option<&'static str>)
    ensures
        match r {
            Some(m) => spec_method_name(kind) == Some(m@),
            None => spec_method_name(kind) is None,
        },
{
    proof {
        reveal_strlit("agent/artifact/list");
        reveal_strlit("agent/artifact/read");
        reveal_strlit("agent/close");
        reveal_strlit("agent/interrupt");
        reveal_strlit("agent/list");
        reveal_strlit("agent/output/read");
        reveal_strlit("agent/status/read");
        reveal_strlit("approval/respond");
        reveal_strlit("auth/logout");
        reveal_strlit("auth/me");
        reveal_strlit("auth/send_code");
        reveal_strlit("auth/status");
        reveal_strlit("auth/verify");
        reveal_strlit("config/capabilities/list");
        reveal_strlit("diff/preview/get");
        reveal_strlit("loop/create");
        reveal_strlit("loop/delete");
        reveal_strlit("loop/fire_now");
        reveal_strlit("loop/list");
        reveal_strlit("loop/pause");
        reveal_strlit("loop/resume");
        reveal_strlit("mcp/config/delete");
        reveal_strlit("mcp/config/list");
        reveal_strlit("mcp/config/set_enabled");
        reveal_strlit("mcp/config/test");
        reveal_strlit("mcp/config/upsert");
        reveal_strlit("mcp/status/list");
        reveal_strlit("permission/profile/set");
        reveal_strlit("profile/llm/catalog");
        reveal_strlit("profile/llm/delete");
        reveal_strlit("profile/llm/fetch_models");
        reveal_strlit("profile/llm/list");
        reveal_strlit("profile/llm/select");
        reveal_strlit("profile/llm/test");
        reveal_strlit("profile/llm/upsert");
        reveal_strlit("profile/local/create");
        reveal_strlit("profile/skills/install");
        reveal_strlit("profile/skills/list");
        reveal_strlit("profile/skills/registry/search");
        reveal_strlit("profile/skills/remove");
        reveal_strlit("session/goal/clear");
        reveal_strlit("session/goal/get");
        reveal_strlit("session/goal/set");
        reveal_strlit("session/open");
        reveal_strlit("session/status/read");
        reveal_strlit("task/artifact/read");
        reveal_strlit("task/list");
        reveal_strlit("task/output/read");
        reveal_strlit("thread/graph/get");
        reveal_strlit("tool/config/delete");
        reveal_strlit("tool/config/list");
        reveal_strlit("tool/config/set_enabled");
        reveal_strlit("tool/config/test");
        reveal_strlit("tool/config/upsert");
        reveal_strlit("tool/status/list");
        reveal_strlit("turn/interrupt");
        reveal_strlit("turn/start");
        reveal_strlit("turn/state/get");
    }
    match kind {
        AppUiCommandKind::OpenSession => Some("session/open"),
        AppUiCommandKind::SubmitPrompt => Some("turn/start"),
        AppUiCommandKind::InterruptTurn => Some("turn/interrupt"),
        AppUiCommandKind::RespondApproval => Some("approval/respond"),
        AppUiCommandKind::ListApprovalScopes => None,
        AppUiCommandKind::GetDiffPreview => Some("diff/preview/get"),
        AppUiCommandKind::ListTasks => Some("task/list"),
        AppUiCommandKind::CancelTask => None,
        AppUiCommandKind::RestartTaskFromNode => None,
        AppUiCommandKind::ReadTaskOutput => Some("task/output/read"),
        AppUiCommandKind::ReadTaskArtifact => Some("task/artifact/read"),
        AppUiCommandKind::GetThreadGraph => Some("thread/graph/get"),
        AppUiCommandKind::GetTurnState => Some("turn/state/get"),
        AppUiCommandKind::ListConfigCapabilities => Some("config/capabilities/list"),
        AppUiCommandKind::ReadSessionStatus => Some("session/status/read"),
        AppUiCommandKind::ListModels => Some("profile/llm/list"),
        AppUiCommandKind::SelectModel => Some("profile/llm/select"),
        AppUiCommandKind::ListPermissionProfiles => None,
        AppUiCommandKind::SetPermissionProfile => Some("permission/profile/set"),
        AppUiCommandKind::ListMcpStatus => Some("mcp/status/list"),
        AppUiCommandKind::ListToolStatus => Some("tool/status/list"),
        AppUiCommandKind::ListMcpConfig => Some("mcp/config/list"),
        AppUiCommandKind::UpsertMcpConfig => Some("mcp/config/upsert"),
        AppUiCommandKind::DeleteMcpConfig => Some("mcp/config/delete"),
        AppUiCommandKind::SetMcpConfigEnabled => Some("mcp/config/set_enabled"),
        AppUiCommandKind::TestMcpConfig => Some("mcp/config/test"),
        AppUiCommandKind::ListToolConfig => Some("tool/config/list"),
        AppUiCommandKind::SetToolConfigEnabled => Some("tool/config/set_enabled"),
        AppUiCommandKind::UpsertToolConfig => Some("tool/config/upsert"),
        AppUiCommandKind::DeleteToolConfig => Some("tool/config/delete"),
        AppUiCommandKind::TestToolConfig => Some("tool/config/test"),
        AppUiCommandKind::AuthStatus => Some("auth/status"),
        AppUiCommandKind::AuthSendCode => Some("auth/send_code"),
        AppUiCommandKind::AuthVerify => Some("auth/verify"),
        AppUiCommandKind::AuthMe => Some("auth/me"),
        AppUiCommandKind::AuthLogout => Some("auth/logout"),
        AppUiCommandKind::ProfileLocalCreate => Some("profile/local/create"),
        AppUiCommandKind::ProfileLlmCatalog => Some("profile/llm/catalog"),
        AppUiCommandKind::ProfileLlmList => Some("profile/llm/list"),
        AppUiCommandKind::ProfileLlmUpsert => Some("profile/llm/upsert"),
        AppUiCommandKind::ProfileLlmDelete => Some("profile/llm/delete"),
        AppUiCommandKind::ProfileLlmSelect => Some("profile/llm/select"),
        AppUiCommandKind::ProfileLlmTest => Some("profile/llm/test"),
        AppUiCommandKind::ProfileLlmFetchModels => Some("profile/llm/fetch_models"),
        AppUiCommandKind::ProfileSkillsList => Some("profile/skills/list"),
        AppUiCommandKind::ProfileSkillsRegistrySearch => Some("profile/skills/registry/search"),
        AppUiCommandKind::ProfileSkillsInstall => Some("profile/skills/install"),
        AppUiCommandKind::ProfileSkillsRemove => Some("profile/skills/remove"),
        AppUiCommandKind::ListAgents => Some("agent/list"),
        AppUiCommandKind::ReadAgentStatus => Some("agent/status/read"),
        AppUiCommandKind::ReadAgentOutput => Some("agent/output/read"),
        AppUiCommandKind::ListAgentArtifacts => Some("agent/artifact/list"),
        AppUiCommandKind::ReadAgentArtifact => Some("agent/artifact/read"),
        AppUiCommandKind::InterruptAgent => Some("agent/interrupt"),
        AppUiCommandKind::CloseAgent => Some("agent/close"),
        AppUiCommandKind::GetSessionGoal => Some("session/goal/get"),
        AppUiCommandKind::SetSessionGoal => Some("session/goal/set"),
        AppUiCommandKind::ClearSessionGoal => Some("session/goal/clear"),
        AppUiCommandKind::CreateLoop => Some("loop/create"),
        AppUiCommandKind::ListLoops => Some("loop/list"),
        AppUiCommandKind::DeleteLoop => Some("loop/delete"),
        AppUiCommandKind::PauseLoop => Some("loop/pause"),
        AppUiCommandKind::ResumeLoop => Some("loop/resume"),
        AppUiCommandKind::FireLoopNow => Some("loop/fire_now"),
    }
}

/// A read-only launch never sends a request that changes anything on the
/// server: prompts, interrupts and approvals; cancelling or restarting a
/// task; selecting a model or a permission profile; changing MCP or tool
/// configuration; logging in or out; creating a local profile; changing
/// providers or skills; interrupting or closing an agent; setting or
/// clearing a goal; creating, deleting, pausing, resuming or firing a loop.
pub proof fn law_readonly_never_sends_changes(kind: AppUiCommandKind)
    requires
        kind == AppUiCommandKind::SubmitPrompt
            || kind == AppUiCommandKind::InterruptTurn
            || kind == AppUiCommandKind::RespondApproval
            || kind == AppUiCommandKind::CancelTask
            || kind == AppUiCommandKind::RestartTaskFromNode
            || kind == AppUiCommandKind::SelectModel
            || kind == AppUiCommandKind::SetPermissionProfile
            || kind == AppUiCommandKind::UpsertMcpConfig
            || kind == AppUiCommandKind::DeleteMcpConfig
            || kind == AppUiCommandKind::SetMcpConfigEnabled
            || kind == AppUiCommandKind::TestMcpConfig
            || kind == AppUiCommandKind::SetToolConfigEnabled
            || kind == AppUiCommandKind::UpsertToolConfig
            || kind == AppUiCommandKind::DeleteToolConfig
            || kind == AppUiCommandKind::TestToolConfig
            || kind == AppUiCommandKind::AuthSendCode
            || kind == AppUiCommandKind::AuthVerify
            || kind == AppUiCommandKind::AuthLogout
            || kind == AppUiCommandKind::ProfileLocalCreate
            || kind == AppUiCommandKind::ProfileLlmUpsert
            || kind == AppUiCommandKind::ProfileLlmDelete
            || kind == AppUiCommandKind::ProfileLlmSelect
            || kind == AppUiCommandKind::ProfileLlmTest
            || kind == AppUiCommandKind::ProfileSkillsInstall
            || kind == AppUiCommandKind::ProfileSkillsRemove
            || kind == AppUiCommandKind::InterruptAgent
            || kind == AppUiCommandKind::CloseAgent
            || kind == AppUiCommandKind::SetSessionGoal
            || kind == AppUiCommandKind::ClearSessionGoal
            || kind == AppUiCommandKind::CreateLoop
            || kind == AppUiCommandKind::DeleteLoop
            || kind == AppUiCommandKind::PauseLoop
            || kind == AppUiCommandKind::ResumeLoop
            || kind == AppUiCommandKind::FireLoopNow,
    ensures
        !spec_readonly_allows(kind),
{
}

/// Whether a method name reads: it ends in `/list`, `/read`, `/get`,
/// `/open`, `/status`, `/me`, `/catalog`, `/fetch_models` or `/search`.
pub open spec fn reads_by_name(m: Seq<char>) -> bool {
    "/list"@.is_suffix_of(m)
        || "/read"@.is_suffix_of(m)
        || "/get"@.is_suffix_of(m)
        || "/open"@.is_suffix_of(m)
        || "/status"@.is_suffix_of(m)
        || "/me"@.is_suffix_of(m)
        || "/catalog"@.is_suffix_of(m)
        || "/fetch_models"@.is_suffix_of(m)
        || "/search"@.is_suffix_of(m)
}

/// Every request a read-only launch sends is a read: its method name, where
/// it is known here, names a read.
pub proof fn law_readonly_sends_only_reads(kind: AppUiCommandKind)
    requires
        spec_readonly_allows(kind),
    ensures
        spec_method_name(kind) matches Some(m) ==> reads_by_name(m),
{
    match kind {
        AppUiCommandKind::ListConfigCapabilities => {
            reveal_strlit("config/capabilities/list");
            reveal_strlit("/list");
            assert("config/capabilities/list"@.subrange(19, 24) =~= "/list"@);
        },
        AppUiCommandKind::OpenSession => {
            reveal_strlit("session/open");
            reveal_strlit("/open");
            assert("session/open"@.subrange(7, 12) =~= "/open"@);
        },
        AppUiCommandKind::ReadSessionStatus => {
            reveal_strlit("session/status/read");
            reveal_strlit("/read");
            assert("session/status/read"@.subrange(14, 19) =~= "/read"@);
        },
        AppUiCommandKind::ListModels => {
            reveal_strlit("profile/llm/list");
            reveal_strlit("/list");
            assert("profile/llm/list"@.subrange(11, 16) =~= "/list"@);
        },
        AppUiCommandKind::ListMcpStatus => {
            reveal_strlit("mcp/status/list");
            reveal_strlit("/list");
            assert("mcp/status/list"@.subrange(10, 15) =~= "/list"@);
        },
        AppUiCommandKind::ListToolStatus => {
            reveal_strlit("tool/status/list");
            reveal_strlit("/list");
            assert("tool/status/list"@.subrange(11, 16) =~= "/list"@);
        },
        AppUiCommandKind::ListMcpConfig => {
            reveal_strlit("mcp/config/list");
            reveal_strlit("/list");
            assert("mcp/config/list"@.subrange(10, 15) =~= "/list"@);
        },
        AppUiCommandKind::ListToolConfig => {
            reveal_strlit("tool/config/list");
            reveal_strlit("/list");
            assert("tool/config/list"@.subrange(11, 16) =~= "/list"@);
        },
        AppUiCommandKind::GetDiffPreview => {
            reveal_strlit("diff/preview/get");
            reveal_strlit("/get");
            assert("diff/preview/get"@.subrange(12, 16) =~= "/get"@);
        },
        AppUiCommandKind::ReadTaskOutput => {
            reveal_strlit("task/output/read");
            reveal_strlit("/read");
            assert("task/output/read"@.subrange(11, 16) =~= "/read"@);
        },
        AppUiCommandKind::ReadTaskArtifact => {
            reveal_strlit("task/artifact/read");
            reveal_strlit("/read");
            assert("task/artifact/read"@.subrange(13, 18) =~= "/read"@);
        },
        AppUiCommandKind::AuthStatus => {
            reveal_strlit("auth/status");
            reveal_strlit("/status");
            assert("auth/status"@.subrange(4, 11) =~= "/status"@);
        },
        AppUiCommandKind::AuthMe => {
            reveal_strlit("auth/me");
            reveal_strlit("/me");
            assert("auth/me"@.subrange(4, 7) =~= "/me"@);
        },
        AppUiCommandKind::ProfileLlmCatalog => {
            reveal_strlit("profile/llm/catalog");
            reveal_strlit("/catalog");
            assert("profile/llm/catalog"@.subrange(11, 19) =~= "/catalog"@);
        },
        AppUiCommandKind::ProfileLlmList => {
            reveal_strlit("profile/llm/list");
            reveal_strlit("/list");
            assert("profile/llm/list"@.subrange(11, 16) =~= "/list"@);
        },
        AppUiCommandKind::ProfileLlmFetchModels => {
            reveal_strlit("profile/llm/fetch_models");
            reveal_strlit("/fetch_models");
            assert("profile/llm/fetch_models"@.subrange(11, 24) =~= "/fetch_models"@);
        },
        AppUiCommandKind::ProfileSkillsList => {
            reveal_strlit("profile/skills/list");
            reveal_strlit("/list");
            assert("profile/skills/list"@.subrange(14, 19) =~= "/list"@);
        },
        AppUiCommandKind::ProfileSkillsRegistrySearch => {
            reveal_strlit("profile/skills/registry/search");
            reveal_strlit("/search");
            assert("profile/skills/registry/search"@.subrange(23, 30) =~= "/search"@);
        },
        AppUiCommandKind::ListAgents => {
            reveal_strlit("agent/list");
            reveal_strlit("/list");
            assert("agent/list"@.subrange(5, 10) =~= "/list"@);
        },
        AppUiCommandKind::ReadAgentStatus => {
            reveal_strlit("agent/status/read");
            reveal_strlit("/read");
            assert("agent/status/read"@.subrange(12, 17) =~= "/read"@);
        },
        AppUiCommandKind::ReadAgentOutput => {
            reveal_strlit("agent/output/read");
            reveal_strlit("/read");
            assert("agent/output/read"@.subrange(12, 17) =~= "/read"@);
        },
        AppUiCommandKind::ListAgentArtifacts => {
            reveal_strlit("agent/artifact/list");
            reveal_strlit("/list");
            assert("agent/artifact/list"@.subrange(14, 19) =~= "/list"@);
        },
        AppUiCommandKind::ReadAgentArtifact => {
            reveal_strlit("agent/artifact/read");
            reveal_strlit("/read");
            assert("agent/artifact/read"@.subrange(14, 19) =~= "/read"@);
        },
        AppUiCommandKind::GetSessionGoal => {
            reveal_strlit("session/goal/get");
            reveal_strlit("/get");
            assert("session/goal/get"@.subrange(12, 16) =~= "/get"@);
        },
        AppUiCommandKind::ListLoops => {
            reveal_strlit("loop/list");
            reveal_strlit("/list");
            assert("loop/list"@.subrange(4, 9) =~= "/list"@);
        },
        _ => {},
    }
}

/// No request is both let through and refused as a change, and a prompt
/// is neither.
pub proof fn law_readonly_lists_disjoint(kind: AppUiCommandKind)
    ensures
        !(spec_readonly_allows(kind) && spec_readonly_mutation(kind)),
        !spec_readonly_allows(AppUiCommandKind::SubmitPrompt),
        !spec_readonly_mutation(AppUiCommandKind::SubmitPrompt),
{
}

} // verus!
