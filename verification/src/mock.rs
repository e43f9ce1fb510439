//! The canned data of the offline mock backend.

use vstd::prelude::*;
use crate::transport::string_views;
use crate::model::protocol_types::{
    ModelStatus, ProfileSkillsListResult, ProfileSkillEntry, ProfileSkillsRegistrySearchResult,
    ProfileSkillRegistryPackage, McpStatus, McpConfigEntry, ToolStatus, ToolPolicyDenial, ToolConfigEntry,
};

verus! {

/// The mock backend's coding model, selected or not.
pub fn mock_model_status(selected: bool) -> (r: ModelStatus)
    ensures
        r.model@ == "mock-coding"@,
        r.provider@ == "mock"@,
        (r.title matches Some(s) && s@ == "Mock Coding"@),
        (r.family matches Some(s) && s@ == "mock"@),
        r.route.is_none(),
        r.selected == selected,
        r.available == Some(true),
        (r.queue_mode matches Some(s) && s@ == "interactive"@),
        (r.qoe_policy matches Some(s) && s@ == "mock"@),
{
    proof {
        reveal_strlit("Mock Coding");
        reveal_strlit("interactive");
        reveal_strlit("mock");
        reveal_strlit("mock-coding");
    }
    ModelStatus {
        model: String::from_str("mock-coding"),
        provider: String::from_str("mock"),
        title: Some(String::from_str("Mock Coding")),
        family: Some(String::from_str("mock")),
        route: None,
        selected: selected,
        available: Some(true),
        queue_mode: Some(String::from_str("interactive")),
        qoe_policy: Some(String::from_str("mock")),
    }
}

/// The mock backend's review model.
pub fn mock_alt_model_status() -> (r: ModelStatus)
    ensures
        r.model@ == "mock-review"@,
        r.provider@ == "mock"@,
        (r.title matches Some(s) && s@ == "Mock Review"@),
        (r.family matches Some(s) && s@ == "mock"@),
        (r.route matches Some(s) && s@ == "review"@),
        !r.selected,
        r.available == Some(true),
        (r.queue_mode matches Some(s) && s@ == "collect"@),
        (r.qoe_policy matches Some(s) && s@ == "mock"@),
{
    proof {
        reveal_strlit("Mock Review");
        reveal_strlit("collect");
        reveal_strlit("mock");
        reveal_strlit("mock-review");
        reveal_strlit("review");
    }
    ModelStatus {
        model: String::from_str("mock-review"),
        provider: String::from_str("mock"),
        title: Some(String::from_str("Mock Review")),
        family: Some(String::from_str("mock")),
        route: Some(String::from_str("review")),
        selected: false,
        available: Some(true),
        queue_mode: Some(String::from_str("collect")),
        qoe_policy: Some(String::from_str("mock")),
    }
}

/// The skills installed in the mock profile.
pub fn mock_profile_skills() -> (r: ProfileSkillsListResult)
    ensures
        (r.profile_id matches Some(s) && s@ == "coding"@),
        r.count == 1,
        r.skills@.len() == 1,
        r.skills@[0].name@ == "deep-search"@,
        (r.skills@[0].version matches Some(s) && s@ == "0.1.0"@),
        r.skills@[0].tool_count == 1,
        (r.skills@[0].source_repo matches Some(s) && s@ == "octos-org/octos-hub/skills/deep-search"@),
        r.skills@[0].installed,
        (r.skills@[0].status matches Some(s) && s@ == "installed"@),
{
    proof {
        reveal_strlit("0.1.0");
        reveal_strlit("coding");
        reveal_strlit("deep-search");
        reveal_strlit("installed");
        reveal_strlit("octos-org/octos-hub/skills/deep-search");
    }
    ProfileSkillsListResult {
        profile_id: Some(String::from_str("coding")),
        count: 1,
        skills: vec![
            ProfileSkillEntry {
                name: String::from_str("deep-search"),
                version: Some(String::from_str("0.1.0")),
                tool_count: 1,
                source_repo: Some(String::from_str("octos-org/octos-hub/skills/deep-search")),
                installed: true,
                status: Some(String::from_str("installed")),
            },
        ],
    }
}

/// The mock skill registry.
pub fn mock_skill_registry() -> (r: ProfileSkillsRegistrySearchResult)
    ensures
        (r.profile_id matches Some(s) && s@ == "coding"@),
        r.packages@.len() == 1,
        r.packages@[0].name@ == "deep-search"@,
        r.packages@[0].description@ == "Mock registry package for deep research."@,
        r.packages@[0].repo@ == "octos-org/octos-hub/skills/deep-search"@,
        (r.packages@[0].version matches Some(s) && s@ == "0.1.0"@),
        (r.packages@[0].author matches Some(s) && s@ == "Octos"@),
        (r.packages@[0].license matches Some(s) && s@ == "MIT"@),
        string_views(r.packages@[0].skills@) == seq!["deep-search"@],
        r.packages@[0].requires@.len() == 0,
        r.packages@[0].provides_tools,
        string_views(r.packages@[0].tags@) == seq!["research"@],
        r.packages@[0].installed,
        string_views(r.packages@[0].installed_skills@) == seq!["deep-search"@],
{
    proof {
        reveal_strlit("0.1.0");
        reveal_strlit("MIT");
        reveal_strlit("Mock registry package for deep research.");
        reveal_strlit("Octos");
        reveal_strlit("coding");
        reveal_strlit("deep-search");
        reveal_strlit("octos-org/octos-hub/skills/deep-search");
        reveal_strlit("research");
    }
    ProfileSkillsRegistrySearchResult {
        profile_id: Some(String::from_str("coding")),
        packages: vec![
            ProfileSkillRegistryPackage {
                name: String::from_str("deep-search"),
                description: String::from_str("Mock registry package for deep research."),
                repo: String::from_str("octos-org/octos-hub/skills/deep-search"),
                version: Some(String::from_str("0.1.0")),
                author: Some(String::from_str("Octos")),
                license: Some(String::from_str("MIT")),
                skills: vec![String::from_str("deep-search")],
                requires: Vec::new(),
                provides_tools: true,
                tags: vec![String::from_str("research")],
                installed: true,
                installed_skills: vec![String::from_str("deep-search")],
            },
        ],
    }
}

/// The mock MCP servers: one connected, one failed.
pub fn mock_mcp_servers() -> (r: Vec<McpStatus>)
    ensures
        r@.len() == 2,
        r@[0].server@ == "mock-filesystem"@,
        r@[0].status@ == "connected"@,
        (r@[0].transport matches Some(s) && s@ == "stdio"@),
        r@[0].endpoint.is_none(),
        r@[0].tool_count == Some(2u32),
        (r@[0].detail matches Some(s) && s@ == "mock server"@),
        r@[0].last_error.is_none(),
        r@[1].server@ == "mock-playwright"@,
        r@[1].status@ == "failed"@,
        (r@[1].transport matches Some(s) && s@ == "stdio"@),
        r@[1].endpoint.is_none(),
        r@[1].tool_count == Some(0u32),
        r@[1].detail.is_none(),
        (r@[1].last_error matches Some(s) && s@ == "mock failure"@),
{
    proof {
        reveal_strlit("connected");
        reveal_strlit("failed");
        reveal_strlit("mock failure");
        reveal_strlit("mock server");
        reveal_strlit("mock-filesystem");
        reveal_strlit("mock-playwright");
        reveal_strlit("stdio");
    }
    vec![
        McpStatus {
            server: String::from_str("mock-filesystem"),
            status: String::from_str("connected"),
            transport: Some(String::from_str("stdio")),
            endpoint: None,
            tool_count: Some(2),
            detail: Some(String::from_str("mock server")),
            last_error: None,
        },
        McpStatus {
            server: String::from_str("mock-playwright"),
            status: String::from_str("failed"),
            transport: Some(String::from_str("stdio")),
            endpoint: None,
            tool_count: Some(0),
            detail: None,
            last_error: Some(String::from_str("mock failure")),
        },
    ]
}

/// The mock MCP configuration: one enabled, one disabled.
pub fn mock_mcp_config_entries() -> (r: Vec<McpConfigEntry>)
    ensures
        r@.len() == 2,
        r@[0].name@ == "mock-filesystem"@,
        r@[0].enabled,
        (r@[0].transport matches Some(s) && s@ == "stdio"@),
        r@[0].endpoint.is_none(),
        (r@[0].command matches Some(s) && s@ == "octos-mcp-filesystem"@),
        string_views(r@[0].args@) == seq!["/tmp"@],
        r@[0].env_keys@.len() == 0,
        (r@[0].status matches Some(s) && s@ == "connected"@),
        r@[0].tool_count == Some(4u32),
        (r@[0].detail matches Some(s) && s@ == "mock server truth"@),
        r@[0].last_error.is_none(),
        r@[1].name@ == "mock-playwright"@,
        !r@[1].enabled,
        (r@[1].transport matches Some(s) && s@ == "stdio"@),
        r@[1].endpoint.is_none(),
        (r@[1].command matches Some(s) && s@ == "octos-mcp-playwright"@),
        r@[1].args@.len() == 0,
        r@[1].env_keys@.len() == 0,
        (r@[1].status matches Some(s) && s@ == "disabled"@),
        r@[1].tool_count == None::<u32>,
        r@[1].detail.is_none(),
        (r@[1].last_error matches Some(s) && s@ == "disabled by mock config"@),
{
    proof {
        reveal_strlit("/tmp");
        reveal_strlit("connected");
        reveal_strlit("disabled");
        reveal_strlit("disabled by mock config");
        reveal_strlit("mock server truth");
        reveal_strlit("mock-filesystem");
        reveal_strlit("mock-playwright");
        reveal_strlit("octos-mcp-filesystem");
        reveal_strlit("octos-mcp-playwright");
        reveal_strlit("stdio");
    }
    vec![
        McpConfigEntry {
            name: String::from_str("mock-filesystem"),
            enabled: true,
            transport: Some(String::from_str("stdio")),
            endpoint: None,
            command: Some(String::from_str("octos-mcp-filesystem")),
            args: vec![String::from_str("/tmp")],
            env_keys: Vec::new(),
            status: Some(String::from_str("connected")),
            tool_count: Some(4),
            detail: Some(String::from_str("mock server truth")),
            last_error: None,
        },
        McpConfigEntry {
            name: String::from_str("mock-playwright"),
            enabled: false,
            transport: Some(String::from_str("stdio")),
            endpoint: None,
            command: Some(String::from_str("octos-mcp-playwright")),
            args: Vec::new(),
            env_keys: Vec::new(),
            status: Some(String::from_str("disabled")),
            tool_count: None,
            detail: None,
            last_error: Some(String::from_str("disabled by mock config")),
        },
    ]
}

/// The mock tools: one allowed, one denied by policy.
pub fn mock_tool_statuses() -> (r: Vec<ToolStatus>)
    ensures
        r@.len() == 2,
        r@[0].tool@ == "read_file"@,
        (r@[0].title matches Some(s) && s@ == "Read File"@),
        (r@[0].source matches Some(s) && s@ == "platform"@),
        r@[0].enabled,
        r@[0].visible,
        string_views(r@[0].tags@) == seq!["filesystem"@, "read"@],
        (r@[0].risk matches Some(s) && s@ == "low"@),
        (r@[0].policy_id matches Some(s) && s@ == "mock-coding"@),
        r@[0].denial.is_none(),
        r@[1].tool@ == "shell"@,
        (r@[1].title matches Some(s) && s@ == "Shell"@),
        (r@[1].source matches Some(s) && s@ == "platform"@),
        !r@[1].enabled,
        r@[1].visible,
        string_views(r@[1].tags@) == seq!["shell"@, "write"@],
        (r@[1].risk matches Some(s) && s@ == "high"@),
        (r@[1].policy_id matches Some(s) && s@ == "mock-coding"@),
        r@[1].denial.is_some(),
        r@[1].denial.unwrap().code@ == "tool_denied"@,
        r@[1].denial.unwrap().tool@ == "shell"@,
        (r@[1].denial.unwrap().policy matches Some(s) && s@ == "mock-coding"@),
        r@[1].denial.unwrap().reason@ == "shell disabled in mock read-only policy"@,
        r@[1].denial.unwrap().recoverable,
{
    proof {
        reveal_strlit("Read File");
        reveal_strlit("Shell");
        reveal_strlit("filesystem");
        reveal_strlit("high");
        reveal_strlit("low");
        reveal_strlit("mock-coding");
        reveal_strlit("platform");
        reveal_strlit("read");
        reveal_strlit("read_file");
        reveal_strlit("shell");
        reveal_strlit("shell disabled in mock read-only policy");
        reveal_strlit("tool_denied");
        reveal_strlit("write");
    }
    vec![
        ToolStatus {
            tool: String::from_str("read_file"),
            title: Some(String::from_str("Read File")),
            source: Some(String::from_str("platform")),
            enabled: true,
            visible: true,
            tags: vec![String::from_str("filesystem"), String::from_str("read")],
            risk: Some(String::from_str("low")),
            policy_id: Some(String::from_str("mock-coding")),
            denial: None,
        },
        ToolStatus {
            tool: String::from_str("shell"),
            title: Some(String::from_str("Shell")),
            source: Some(String::from_str("platform")),
            enabled: false,
            visible: true,
            tags: vec![String::from_str("shell"), String::from_str("write")],
            risk: Some(String::from_str("high")),
            policy_id: Some(String::from_str("mock-coding")),
            denial: Some(ToolPolicyDenial {
                code: String::from_str("tool_denied"),
                tool: String::from_str("shell"),
                policy: Some(String::from_str("mock-coding")),
                reason: String::from_str("shell disabled in mock read-only policy"),
                recoverable: true,
            }),
        },
    ]
}

/// The mock tool configuration: one enabled, one disabled.
pub fn mock_tool_config_entries() -> (r: Vec<ToolConfigEntry>)
    ensures
        r@.len() == 2,
        r@[0].tool@ == "search"@,
        (r@[0].title matches Some(s) && s@ == "Search"@),
        (r@[0].source matches Some(s) && s@ == "platform"@),
        r@[0].enabled,
        r@[0].visible,
        string_views(r@[0].tags@) == seq!["search"@],
        (r@[0].risk matches Some(s) && s@ == "low"@),
        (r@[0].status matches Some(s) && s@ == "ready"@),
        (r@[0].detail matches Some(s) && s@ == "mock server truth"@),
        r@[1].tool@ == "web_fetch"@,
        (r@[1].title matches Some(s) && s@ == "Web Fetch"@),
        (r@[1].source matches Some(s) && s@ == "platform"@),
        !r@[1].enabled,
        r@[1].visible,
        string_views(r@[1].tags@) == seq!["web"@],
        (r@[1].risk matches Some(s) && s@ == "medium"@),
        (r@[1].status matches Some(s) && s@ == "disabled"@),
        (r@[1].detail matches Some(s) && s@ == "disabled by mock config"@),
{
    proof {
        reveal_strlit("Search");
        reveal_strlit("Web Fetch");
        reveal_strlit("disabled");
        reveal_strlit("disabled by mock config");
        reveal_strlit("low");
        reveal_strlit("medium");
        reveal_strlit("mock server truth");
        reveal_strlit("platform");
        reveal_strlit("ready");
        reveal_strlit("search");
        reveal_strlit("web");
        reveal_strlit("web_fetch");
    }
    vec![
        ToolConfigEntry {
            tool: String::from_str("search"),
            title: Some(String::from_str("Search")),
            source: Some(String::from_str("platform")),
            enabled: true,
            visible: true,
            tags: vec![String::from_str("search")],
            risk: Some(String::from_str("low")),
            status: Some(String::from_str("ready")),
            detail: Some(String::from_str("mock server truth")),
        },
        ToolConfigEntry {
            tool: String::from_str("web_fetch"),
            title: Some(String::from_str("Web Fetch")),
            source: Some(String::from_str("platform")),
            enabled: false,
            visible: true,
            tags: vec![String::from_str("web")],
            risk: Some(String::from_str("medium")),
            status: Some(String::from_str("disabled")),
            detail: Some(String::from_str("disabled by mock config")),
        },
    ]
}

} // verus!
