use octos_tui::model::auth::{AuthStatusResult, AuthScopedProfile, ProfileLocalCreateResult, SecretString};
use octos_tui::model::composer::{composer_presentation_for_text, truncate_chars, ComposerCollapse, ComposerPresentation};
use octos_tui::model::onboarding::{
    looks_like_email, strip_method_prefix, OnboardingLocalProfileErrorKind, OnboardingLocalProfileField,
    OnboardingLocalProfileRecovery, OnboardingProviderPending, OnboardingProviderSaveTarget,
    OnboardingProviderStatus, OnboardingWizardState, OnboardingWorkspaceValidation,
};
use octos_tui::model::panes::{
    ActivityKind, ApprovalDecision, ApprovalModalAction, ArtifactDetailState, ArtifactItem, ArtifactPaneState, ArtifactRecord,
    FocusPane, GitHistoryItem, GitPaneState, GitStatusItem, SessionRunState, WorkspaceEntry, WorkspacePaneState,
};
use octos_tui::model::plan::{
    complete_plan_steps_in_text, extract_plan_steps, plan_candidates, plan_from_candidates, plan_steps_from_text, PlanStep,
};
use octos_tui::model::optimistic::{ChatMessage, ChatSession};
use octos_tui::model::diff::SessionKey;
use octos_tui::model::session::{effective_workspace_root_for_display, session_open_may_include_cwd};
use octos_tui::model::snapshot::{first_non_empty_line, seed_git, SnapshotSource};
use octos_tui::model::protocol_types::RuntimePolicyMcpServer;

#[test]
fn focus_cycle_includes_m9_panes_and_returns_to_sessions() {
    let mut focus = FocusPane::Sessions;
    let mut visited = Vec::new();
    for _ in 0..7 {
        visited.push(focus);
        focus = focus.next();
    }

    assert_eq!(
        visited,
        vec![
            FocusPane::Sessions,
            FocusPane::Tasks,
            FocusPane::Artifacts,
            FocusPane::Transcript,
            FocusPane::Workspace,
            FocusPane::Git,
            FocusPane::Composer,
        ]
    );
    assert_eq!(focus, FocusPane::Sessions);
}

#[test]
fn git_scroll_uses_top_origin_like_workspace_pane() {
    let mut git = GitPaneState::default();

    git.scroll_down(8);
    assert_eq!(git.scroll, 8);

    git.scroll_up(3);
    assert_eq!(git.scroll, 5);

    git.scroll_up(99);
    assert_eq!(git.scroll, 0);
}

fn assistant(text: &str) -> ChatMessage {
    ChatMessage { role: "assistant".to_string(), content: text.to_string() }
}

fn session_with(messages: Vec<ChatMessage>) -> ChatSession {
    ChatSession { id: SessionKey("local:test".into()), messages, live_reply: None }
}

#[test]
fn extracted_plan_steps_normalize_numbered_markdown_checkboxes() {
    let session = session_with(vec![assistant("Plan:\n1. [ ] Fix data model\n2) [x] Run focused tests")]);
    assert_eq!(
        extract_plan_steps(Some(&session)),
        vec![
            PlanStep {
                text: "Fix data model".into(),
                completed: false,
            },
            PlanStep {
                text: "Run focused tests".into(),
                completed: true,
            },
        ]
    );
}

#[test]
fn plan_extraction_rejects_prose_and_long_bullets() {
    let long_line = format!("Plan:\n- {}", "This is explanatory prose ".repeat(12).trim());
    let session = session_with(vec![
        assistant("The plan parser should not treat this explanatory paragraph as a task."),
        assistant(&long_line),
    ]);
    assert!(extract_plan_steps(Some(&session)).is_empty());
}

#[test]
fn plan_extraction_rejects_clarifying_question_lists() {
    let session = session_with(vec![assistant(
        "Could you clarify?\n\n1. Is this a path within the current project/workspace?\n2. Or is it a system path outside the workspace?\n3. Did you mean a different directory?",
    )]);
    assert!(extract_plan_steps(Some(&session)).is_empty());
}

#[test]
fn plan_candidates_are_the_live_reply_then_assistant_messages_newest_first() {
    let messages = vec![
        assistant("a1"),
        ChatMessage { role: "user".to_string(), content: "u1".to_string() },
        assistant("a2"),
    ];
    assert_eq!(plan_candidates(Some("live"), &messages), vec!["live", "a2", "a1"]);
    assert_eq!(plan_candidates(None, &messages), vec!["a2", "a1"]);
    assert!(extract_plan_steps(None).is_empty());
    let mut session = session_with(vec![assistant("Plan:\n1. Fix model\n2. Run tests")]);
    session.live_reply = Some("Plan:\n- [x] fix   MODEL\n- [ ] Run tests".to_string());
    // The live reply is the newest candidate, ahead of the message.
    let live = session.live_reply.clone().unwrap();
    let expected = plan_from_candidates(&vec![live, "Plan:\n1. Fix model\n2. Run tests".to_string()]);
    assert_eq!(extract_plan_steps(Some(&session)), expected);
    assert_eq!(expected.len(), 2);
    assert!(expected[0].completed);
    assert!(!expected[1].completed);
}

#[test]
fn completing_plan_steps_rewrites_only_real_plan_items() {
    let text = "Plan:\n1. [ ] Fix model\n2. Run tests\n\nReasoning stays unchecked.";

    assert_eq!(
        complete_plan_steps_in_text(text),
        "Plan:\n- [x] Fix model\n- [x] Run tests\n\nReasoning stays unchecked."
    );
    assert_eq!(
        complete_plan_steps_in_text("1. [ ] Fix model\n2. Run tests"),
        "- [x] Fix model\n- [x] Run tests"
    );
}

#[test]
fn composer_presentation_collapses_large_pastes_without_changing_text() {
    let pasted_text = std::iter::once("first pasted line".to_string())
        .chain((2..=40).map(|idx| format!("pasted line {idx}")))
        .collect::<Vec<_>>()
        .join("\n");

    let ComposerPresentation::Collapsed(collapse) = composer_presentation_for_text(&pasted_text) else {
        panic!("large paste should collapse");
    };

    assert!(collapse.summary.contains("40 lines"));
    assert_eq!(collapse.summary, format!("Pasted block: 40 lines, {} chars", pasted_text.chars().count()));
    assert_eq!(collapse.preview, "first pasted line");
}

#[test]
fn composer_presentation_keeps_short_prompts_inline() {
    assert_eq!(
        composer_presentation_for_text("fix failing tests"),
        ComposerPresentation::Inline("fix failing tests".into())
    );
    assert_eq!(composer_presentation_for_text(""), ComposerPresentation::Empty);
}

#[test]
fn composer_collapses_long_single_line_and_truncates_preview() {
    let text = "x".repeat(4000);
    let ComposerPresentation::Collapsed(collapse) = composer_presentation_for_text(&text) else {
        panic!("4000 characters should collapse");
    };
    assert_eq!(collapse.summary, "Long prompt: 4000 chars");
    assert_eq!(collapse.preview, format!("{} ...", "x".repeat(84)));
    assert_eq!(truncate_chars("short", 88), "short");
    assert_eq!(truncate_chars("abcdef", 3), " ...");
}

#[test]
fn composer_inline_cursor_width_uses_last_line() {
    let presentation = ComposerPresentation::Inline("first\nsecond line".into());
    assert_eq!(presentation.cursor_width(), "second line".chars().count());
}

#[test]
fn composer_inline_cursor_width_uses_display_columns_for_chinese() {
    let presentation = ComposerPresentation::Inline("first\n你好abc".into());
    assert_eq!(presentation.cursor_width(), 7);
}

#[test]
fn collapsed_cursor_width_counts_the_paste_label() {
    let presentation = ComposerPresentation::Collapsed(ComposerCollapse {
        summary: "Long prompt: 4000 chars".into(),
        preview: "x".into(),
    });
    assert_eq!(presentation.cursor_width(), 8 + 23);
    assert_eq!(presentation.checked_cursor_width(), Some(31));
    assert_eq!(ComposerPresentation::Empty.cursor_width(), 0);
}

#[test]
fn validate_local_profile_reports_first_missing_field() {
    let state = OnboardingWizardState::default();
    let err = state.validate_local_profile().expect_err("default state has no name");
    assert_eq!(err.focus_field, OnboardingLocalProfileField::Name);
    assert_eq!(err.kind, OnboardingLocalProfileErrorKind::InvalidField);
}

#[test]
fn validate_local_profile_rejects_whitespace_in_username() {
    let mut state = OnboardingWizardState::default();
    state.name = "Ada Lovelace".into();
    state.username = "ada lovelace".into();
    state.email = "ada@example.com".into();
    let err = state.validate_local_profile().expect_err("username must reject whitespace");
    assert_eq!(err.focus_field, OnboardingLocalProfileField::Username);
    assert!(err.message.contains("ASCII without whitespace"), "got: {}", err.message);
}

#[test]
fn validate_local_profile_accepts_single_label_domain() {
    let mut state = OnboardingWizardState::default();
    state.name = "Ada".into();
    state.username = "ada".into();
    state.email = "ada@localhost".into();
    assert!(state.validate_local_profile().is_ok());
}

#[test]
fn validate_local_profile_rejects_malformed_email() {
    let mut state = OnboardingWizardState::default();
    state.name = "Ada".into();
    state.username = "ada".into();
    state.email = "not-an-email".into();
    let err = state.validate_local_profile().expect_err("bad email");
    assert_eq!(err.focus_field, OnboardingLocalProfileField::Email);
}

#[test]
fn validate_local_profile_requires_email_to_match_backend_contract() {
    let mut state = OnboardingWizardState::default();
    state.name = "Ada".into();
    state.username = "ada".into();
    let err = state.validate_local_profile().expect_err("empty email must be rejected pre-flight");
    assert_eq!(err.focus_field, OnboardingLocalProfileField::Email);
}

#[test]
fn validate_local_profile_checks_lengths() {
    let mut state = OnboardingWizardState::default();
    state.name = "n".repeat(129);
    state.username = "ada".into();
    state.email = "ada@example.com".into();
    let err = state.validate_local_profile().expect_err("name too long");
    assert_eq!(err.message, "Display name must be 128 characters or fewer.");
    state.name = "n".repeat(128);
    state.username = "u".repeat(65);
    let err = state.validate_local_profile().expect_err("username too long");
    assert_eq!(err.message, "Username must be 64 characters or fewer.");
    state.username = "ü".repeat(33);
    let err = state.validate_local_profile().expect_err("66 bytes");
    assert_eq!(err.message, "Username must be 64 characters or fewer.");
    state.username = "ü".repeat(32);
    let err = state.validate_local_profile().expect_err("non-ASCII");
    assert_eq!(err.message, "Username must be ASCII without whitespace or control characters.");
}

#[test]
fn email_shape_check() {
    assert!(looks_like_email("ada@example.com"));
    assert!(looks_like_email("dev@corp"));
    assert!(!looks_like_email("ada@.example.com"));
    assert!(!looks_like_email("ada@example."));
    assert!(!looks_like_email(" @example.com"));
    assert!(!looks_like_email("ada@"));
    assert!(!looks_like_email("no-at-sign"));
}

#[test]
fn apply_local_profile_error_routes_collision_to_username() {
    let mut state = OnboardingWizardState::default();
    state.username = "ada".into();
    state.local_profile_create_pending = true;
    state.local_profile_create_pending_username = Some("ada".into());
    state.apply_local_profile_error("profile_local_collision", "username already taken");
    let recovery = state.local_profile_recovery.clone().expect("recovery");
    assert_eq!(recovery.kind, OnboardingLocalProfileErrorKind::Collision);
    assert_eq!(recovery.focus_field, OnboardingLocalProfileField::Username);
    assert!(recovery.message.contains("collision for 'ada'"));
    assert!(recovery.message.contains("username already taken"));
    assert!(!state.local_profile_create_pending);
    assert!(!state.local_profile_created);
}

#[test]
fn apply_local_profile_error_routes_invalid_email_to_email_field() {
    let mut state = OnboardingWizardState::default();
    state.apply_local_profile_error(
        "profile_local_invalid_email",
        "profile/local/create request tui-1 failed: email must contain @",
    );
    let recovery = state.local_profile_recovery.clone().expect("recovery");
    assert_eq!(recovery.focus_field, OnboardingLocalProfileField::Email);
    assert!(recovery.message.contains("email must contain"));
    assert_eq!(
        recovery.message,
        "Server rejected the email: email must contain @. Edit it with /onboard email <address>."
    );
}

#[test]
fn apply_local_profile_error_routes_invalid_name_to_name_field() {
    let mut state = OnboardingWizardState::default();
    state.apply_local_profile_error(
        "profile_local_invalid_name",
        "profile/local/create request tui-1 failed: name must be non-empty",
    );
    let recovery = state.local_profile_recovery.clone().expect("recovery");
    assert_eq!(recovery.focus_field, OnboardingLocalProfileField::Name);
}

#[test]
fn apply_local_profile_error_routes_invalid_username_to_username_field() {
    let mut state = OnboardingWizardState::default();
    state.apply_local_profile_error(
        "profile_local_invalid_username",
        "profile/local/create request tui-1 failed: username has whitespace",
    );
    let recovery = state.local_profile_recovery.clone().expect("recovery");
    assert_eq!(recovery.focus_field, OnboardingLocalProfileField::Username);
}

#[test]
fn apply_local_profile_error_collision_names_submitted_username() {
    let mut state = OnboardingWizardState::default();
    state.username = "edited".into();
    state.local_profile_create_pending_username = Some("submitted".into());
    state.apply_local_profile_error("profile_local_collision", "taken");
    let recovery = state.local_profile_recovery.clone().expect("recovery");
    assert_eq!(
        recovery.message,
        "Local profile collision for 'submitted': taken. Edit the fields with /onboard name|username|email and try again."
    );
    assert!(state.local_profile_create_pending_username.is_none());
}

#[test]
fn apply_local_profile_error_other_codes() {
    let mut state = OnboardingWizardState::default();
    state.apply_local_profile_error("profile_local_unsupported", "x");
    let recovery = state.local_profile_recovery.clone().expect("recovery");
    assert_eq!(recovery.kind, OnboardingLocalProfileErrorKind::Unsupported);
    state.apply_local_profile_error("invalid_params", "bad");
    let recovery = state.local_profile_recovery.clone().expect("recovery");
    assert_eq!(recovery.kind, OnboardingLocalProfileErrorKind::InvalidParams);
    assert_eq!(
        recovery.message,
        "Server rejected the profile fields as invalid: bad. Edit them with /onboard name|username|email."
    );
    state.apply_local_profile_error("internal", "boom");
    let recovery = state.local_profile_recovery.clone().expect("recovery");
    assert_eq!(recovery.message, "profile/local/create failed: boom");
}

#[test]
fn strip_method_prefix_removes_jsonrpc_envelope() {
    let stripped = strip_method_prefix(
        "profile/local/create request tui-3 failed: username taken",
        "profile/local/create",
    );
    assert_eq!(stripped, "username taken");
}

#[test]
fn strip_method_prefix_keeps_other_messages() {
    assert_eq!(strip_method_prefix("username taken", "profile/local/create"), "username taken");
    assert_eq!(
        strip_method_prefix("profile/local/create request without reason", "profile/local/create"),
        "profile/local/create request without reason"
    );
}

#[test]
fn apply_profile_local_create_success_clears_pending_and_recovery() {
    let mut state = OnboardingWizardState::default();
    state.local_profile_create_pending = true;
    state.local_profile_recovery = Some(OnboardingLocalProfileRecovery {
        kind: OnboardingLocalProfileErrorKind::Collision,
        focus_field: OnboardingLocalProfileField::Username,
        message: "stale".into(),
    });
    state.apply_profile_local_create(&ProfileLocalCreateResult {
        profile_id: "ada".into(),
        user_id: "ada-user".into(),
        name: "Ada Lovelace".into(),
        username: "ada".into(),
        email: "ada@example.com".into(),
        created: true,
        runtime_mode: "solo".into(),
    });
    assert!(state.local_profile_created);
    assert!(!state.local_profile_create_pending);
    assert!(state.local_profile_recovery.is_none());
    assert_eq!(state.profile_id.as_deref(), Some("ada"));
}

#[test]
fn provider_status_follows_precedence() {
    let mut state = OnboardingWizardState::default();
    assert_eq!(state.provider_status(), OnboardingProviderStatus::NotSelected);
    state.provider.family_id = "openai".into();
    state.provider.model_id = "gpt".into();
    state.provider.route.route_id = "default".into();
    assert_eq!(state.provider_status(), OnboardingProviderStatus::KeyMissing);
    state.api_key = Some(SecretString::new("sk".into()));
    assert_eq!(state.provider_status(), OnboardingProviderStatus::Ready);
    assert_eq!(state.provider_label(), "openai / gpt via default");
    assert_eq!(state.api_key_label(), "********");
    state.last_saved_provider_target = Some(OnboardingProviderSaveTarget::Fallback);
    assert_eq!(state.provider_status(), OnboardingProviderStatus::SavedFallback);
    state.provider_test_failure_reason = Some("401".into());
    assert_eq!(
        state.provider_status(),
        OnboardingProviderStatus::TestFailed { reason: "401".into() }
    );
    state.provider_pending = Some(OnboardingProviderPending::Save);
    assert_eq!(
        state.provider_status(),
        OnboardingProviderStatus::Saving(OnboardingProviderSaveTarget::Primary)
    );
    state.provider_pending = Some(OnboardingProviderPending::Test);
    assert_eq!(state.provider_status(), OnboardingProviderStatus::Testing);
}

#[test]
fn wizard_profile_and_workspace_helpers() {
    let mut state = OnboardingWizardState::default();
    assert_eq!(state.profile_label(None), "<server authenticated profile>");
    assert_eq!(state.profile_label(Some("current")), "current");
    state.profile_id = Some("  ".into());
    assert_eq!(state.effective_profile_id(Some("current")), Some("current".to_string()));
    state.profile_id = Some("ada".into());
    assert_eq!(state.effective_profile_id(Some("current")), Some("ada".to_string()));
    assert_eq!(state.workspace_target("  /repo  "), "/repo");
    state.workspace_candidate = Some(" /other ".into());
    assert_eq!(state.workspace_target("/repo"), "/other");
    assert!(!state.workspace_ready_for_finish());
    state.workspace_validation = OnboardingWorkspaceValidation::Valid {
        canonical: "/other".into(),
        writable: true,
        has_workspace_toml: false,
    };
    assert!(state.workspace_ready_for_finish());
}

#[test]
fn auth_status_sets_profile_and_flags() {
    let mut state = OnboardingWizardState::default();
    state.apply_auth_status(&AuthStatusResult {
        bootstrap_mode: false,
        email_login_enabled: false,
        admin_token_login_enabled: false,
        allow_self_registration: false,
        scoped_profile: Some(AuthScopedProfile { id: "team".into(), name: "Team".into(), email_login_enabled: true }),
        authenticated: false,
        email_otp: true,
        token_login: false,
        profile_id: Some("ignored".into()),
    });
    assert_eq!(state.auth_email_enabled, Some(true));
    assert!(state.auth_verified);
    assert_eq!(state.profile_id.as_deref(), Some("team"));
}

#[test]
fn run_state_labels() {
    assert_eq!(SessionRunState::default(), SessionRunState::Idle);
    assert_eq!(SessionRunState::InProgress.label(), "running");
    let blocked = SessionRunState::Blocked { message: "needs approval".into() };
    assert_eq!(blocked.label(), "blocked");
    assert_eq!(blocked.detail(), Some("needs approval"));
    assert!(blocked.is_active());
    assert!(!SessionRunState::Success.is_active());
    assert_eq!(SessionRunState::Success.detail(), None);
    assert_eq!(ActivityKind::Approval.label(), "approval");
    assert_eq!(ApprovalModalAction::ApproveSession.status_label(), "approved for this session");
    assert_eq!(ApprovalModalAction::DenyRequest.decision(), ApprovalDecision::Deny);
}

#[test]
fn artifact_selection_wraps_both_ways() {
    let item = |t: &str| ArtifactItem { title: t.into(), kind: "k".into(), source: "s".into(), status: "ok".into() };
    let mut pane = ArtifactPaneState { items: vec![item("a"), item("b"), item("c")], selected: 0 };
    pane.select_prev();
    assert_eq!(pane.selected, 2);
    pane.select_next();
    assert_eq!(pane.selected, 0);
    pane.select_next();
    pane.select_prev();
    assert_eq!(pane.selected, 0);
    let mut empty = ArtifactPaneState::default();
    empty.select_next();
    assert_eq!(empty.selected, 0);
}

#[test]
fn workspace_selection_keeps_four_rows_of_context() {
    let entry = |d: usize| WorkspaceEntry { depth: d, label: format!("e{d}"), detail: String::new() };
    let mut pane = WorkspacePaneState::default();
    pane.entries = (0..10).map(entry).collect();
    for _ in 0..6 {
        pane.select_next();
    }
    assert_eq!(pane.selected, 6);
    assert_eq!(pane.scroll, 2);
    pane.select_prev();
    assert_eq!(pane.scroll, 1);
}

#[test]
fn git_selection_spans_status_then_history() {
    let mut git = GitPaneState::default();
    git.status = vec![GitStatusItem { code: "M".into(), path: "a".into(), detail: String::new() }];
    git.history = vec![GitHistoryItem { commit: "c".into(), summary: "s".into() }];
    assert_eq!(git.selectable_len(), 2);
    git.select_next();
    assert_eq!(git.selected, 1);
    git.select_next();
    assert_eq!(git.selected, 0);
    git.select_prev();
    assert_eq!(git.selected, 1);
}

#[test]
fn detail_state_close_resets() {
    let mut detail = ArtifactDetailState {
        active: true,
        title: "t".into(),
        subtitle: "s".into(),
        content: "c".into(),
        scroll: 3,
    };
    detail.scroll_down(2);
    assert_eq!(detail.scroll, 5);
    detail.scroll_up(10);
    assert_eq!(detail.scroll, 0);
    detail.close();
    assert_eq!(detail, ArtifactDetailState::default());
}

#[test]
fn snapshot_source_classification_and_git_seed() {
    assert_eq!(SnapshotSource::classify("Mock ready", None), SnapshotSource::Mock);
    assert_eq!(SnapshotSource::classify("ready", Some("WS://host")), SnapshotSource::Protocol);
    assert_eq!(SnapshotSource::classify("Protocol backend connected", None), SnapshotSource::Protocol);
    assert_eq!(SnapshotSource::classify("ready", Some("stdio:octos")), SnapshotSource::Unknown);
    assert_eq!(SnapshotSource::Unknown.label(), "app-ui snapshot");
    let git = seed_git(SnapshotSource::Mock);
    assert_eq!(git.branch, "m9.7/mock-snapshot");
    assert_eq!(git.head.as_deref(), Some("mock-head"));
    assert_eq!(git.status.len(), 2);
    assert_eq!(git.history[1].summary, "app-ui protocol TUI scaffold");
    let git = seed_git(SnapshotSource::Protocol);
    assert_eq!(git.branch, "not supplied");
    assert_eq!(git.status[0].detail, "protocol snapshot does not include git state yet");
    assert_eq!(first_non_empty_line("\n  \n  tail line  \nnext"), Some("tail line"));
    assert_eq!(first_non_empty_line(" \n\t"), None);
}

#[test]
fn session_open_cwd_requires_advertised_feature() {
    assert!(session_open_may_include_cwd(&["pane.snapshots.v1".to_string(), "session.workspace_cwd.v1".to_string()]));
    assert!(!session_open_may_include_cwd(&["pane.snapshots.v1".to_string()]));
    assert_eq!(effective_workspace_root_for_display(Some("/srv"), Some("/req")), Some("/srv"));
    assert_eq!(effective_workspace_root_for_display(None, Some("/req")), Some("/req"));
}

#[test]
fn mcp_server_labels() {
    assert_eq!(RuntimePolicyMcpServer::name("files".into()).label(), "files");
    let detail = RuntimePolicyMcpServer::Detail {
        id: "fs".into(),
        display_name: Some("Files".into()),
        status: Some("connected".into()),
        tool_count: Some(12),
    };
    assert_eq!(detail.label(), "Files (connected, 12 tools)");
    let detail = RuntimePolicyMcpServer::Detail { id: "fs".into(), display_name: None, status: None, tool_count: Some(3) };
    assert_eq!(detail.label(), "fs (3 tools)");
}

#[test]
fn older_plans_mark_newer_steps_completed() {
    let candidates = vec![
        "Plan:\n1. Fix model\n2. Run tests".to_string(),
        "no plan here".to_string(),
        "Plan:\n- [x] fix   MODEL\n- [ ] Run tests".to_string(),
    ];
    assert_eq!(
        plan_from_candidates(&candidates),
        vec![
            PlanStep { text: "Fix model".into(), completed: true },
            PlanStep { text: "Run tests".into(), completed: false },
        ]
    );
    assert_eq!(plan_steps_from_text("nothing"), None);
}

#[test]
fn artifact_views_name_their_owner_and_fall_back_on_content() {
    let record = ArtifactRecord {
        title: "Plan".to_string(),
        kind: "markdown".to_string(),
        status: "final".to_string(),
        content: Some("inline".to_string()),
    };
    let mut view = ArtifactDetailState::default();
    view.open_agent_artifact("agent-7", &record, None);
    assert!(view.active);
    assert_eq!(view.title, "Plan");
    assert_eq!(view.subtitle, "agent agent-7 | markdown | final");
    assert_eq!(view.content, "inline");
    view.scroll_down(3);
    view.open_task_artifact("task-1", &record, Some("fetched".to_string()));
    assert_eq!(view.subtitle, "task task-1 | markdown | final");
    assert_eq!(view.content, "fetched");
    assert_eq!(view.scroll, 0);
    let empty = ArtifactRecord { content: None, ..record };
    view.open_task_artifact("task-1", &empty, None);
    assert_eq!(view.content, "No content returned for this artifact");
}

#[test]
fn completion_leaves_text_without_plan_steps_alone() {
    let text = "Just prose here.\n\nNothing to tick.\n";
    assert_eq!(complete_plan_steps_in_text(text), text);
    let done = complete_plan_steps_in_text("Plan:\n  1. Fix model\nnotes\n");
    assert_eq!(done.lines().count(), 3);
    assert_eq!(done, "Plan:\n  - [x] Fix model\nnotes\n");
}
