use octos_tui::readonly::{readonly_allows_command, readonly_refusal, AppUiCommandKind, ReadonlyRefusal};

#[test]
fn protocol_readonly_policy_allows_read_style_and_blocks_mutations() {
    let read_style_commands = [
        AppUiCommandKind::ListConfigCapabilities,
        AppUiCommandKind::OpenSession,
        AppUiCommandKind::ReadSessionStatus,
        AppUiCommandKind::ListModels,
        AppUiCommandKind::ListApprovalScopes,
        AppUiCommandKind::ListPermissionProfiles,
        AppUiCommandKind::ListMcpStatus,
        AppUiCommandKind::ListToolStatus,
        AppUiCommandKind::GetDiffPreview,
        AppUiCommandKind::ReadTaskOutput,
        AppUiCommandKind::ProfileSkillsList,
        AppUiCommandKind::ProfileSkillsRegistrySearch,
    ];
    for command in read_style_commands {
        assert!(readonly_allows_command(command), "{command:?} should stay available in read-only mode");
    }

    let mutating_commands = [
        AppUiCommandKind::SubmitPrompt,
        AppUiCommandKind::InterruptTurn,
        AppUiCommandKind::SelectModel,
        AppUiCommandKind::RespondApproval,
        AppUiCommandKind::ProfileLocalCreate,
        AppUiCommandKind::SetPermissionProfile,
        AppUiCommandKind::ProfileSkillsInstall,
        AppUiCommandKind::ProfileSkillsRemove,
    ];
    for command in mutating_commands {
        assert!(!readonly_allows_command(command), "{command:?} should be blocked in read-only mode");
    }
}

#[test]
fn readonly_refusals_name_what_was_blocked() {
    assert_eq!(
        readonly_refusal(AppUiCommandKind::SubmitPrompt, "turn/start"),
        ReadonlyRefusal::TurnWarning {
            code: "readonly".to_string(),
            message: "Read-only mode blocks turn/start; no network request was sent.".to_string(),
        }
    );
    let ReadonlyRefusal::Error(error) = readonly_refusal(AppUiCommandKind::InterruptTurn, "turn/interrupt") else {
        panic!("expected an error");
    };
    assert_eq!(error.code, "readonly");
    assert_eq!(error.message, "Read-only mode blocks turn/interrupt; no network request was sent.");
    let ReadonlyRefusal::Error(error) = readonly_refusal(AppUiCommandKind::RespondApproval, "approval/respond") else {
        panic!("expected an error");
    };
    assert!(error.message.contains("approval/respond"));
    // A request neither read-style nor listed as a change.
    let ReadonlyRefusal::Error(error) = readonly_refusal(AppUiCommandKind::CreateLoop, "loop/create") else {
        panic!("expected an error");
    };
    assert_eq!(error.code, "readonly_policy");
    assert_eq!(
        error.message,
        "Read-only mode unexpectedly blocked read-style loop/create; no network request was sent."
    );
}
