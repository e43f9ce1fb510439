use octos_tui::model::snapshot::{seed_artifacts, seed_workspace, SessionSeed, SnapshotSource, TaskSeed};

fn mock_session(preview: &str) -> SessionSeed {
    SessionSeed {
        id: "local:test".to_string(),
        title: "M9 protocol draft".to_string(),
        message_count: 1,
        tasks: vec![TaskSeed {
            title: "protocol spike".to_string(),
            state_label: "running".to_string(),
            output_tail: "bootstrap: seeded mock session\n".to_string(),
            preview_id: Some(preview.to_string()),
        }],
    }
}

#[test]
fn mock_snapshot_seeds_artifacts_and_workspace() {
    let preview = "0f8fad5b-d9cb-469f-a165-70867728950e";
    let sessions = vec![mock_session(preview)];
    let source = SnapshotSource::classify("Mock backend ready", Some("local mock snapshot"));
    assert_eq!(source, SnapshotSource::Mock);

    let artifacts = seed_artifacts(&sessions, "Mock backend ready", Some("local mock snapshot"), false, source);
    assert_eq!(artifacts.selected, 0);
    let rows: Vec<(&str, &str, &str, &str)> = artifacts
        .items
        .iter()
        .map(|i| (i.title.as_str(), i.kind.as_str(), i.source.as_str(), i.status.as_str()))
        .collect();
    assert_eq!(
        rows,
        vec![
            ("AppUi bootstrap snapshot", "snapshot", "local mock snapshot", "Mock backend ready"),
            ("protocol spike output tail", "task-output", "M9 protocol draft", "bootstrap: seeded mock session"),
            ("protocol spike diff preview", "diff-preview", "M9 protocol draft", preview),
            ("M9.7 mock artifact manifest", "mock", "mock backend", "seeded"),
        ]
    );

    let workspace = seed_workspace(&sessions, Some("local mock snapshot"), false, source, "v1");
    assert_eq!(workspace.root, "local mock snapshot");
    assert_eq!(
        workspace.contract,
        vec![
            "api v1",
            "snapshot.sessions -> Sessions, Tasks, Transcript",
            "snapshot task tails -> Artifacts hints",
            "snapshot target/status -> Workspace/Git fallback",
            "mock backend seeds local M9.7 panes",
        ]
    );
    let entries: Vec<(usize, &str, &str)> =
        workspace.entries.iter().map(|e| (e.depth, e.label.as_str(), e.detail.as_str())).collect();
    assert_eq!(
        entries,
        vec![
            (0, "sessions", "1 hydrated"),
            (1, "M9 protocol draft", "local:test"),
            (2, "messages", "1"),
            (2, "protocol spike", "running"),
        ]
    );
}

#[test]
fn protocol_snapshot_without_sessions_seeds_fallbacks() {
    let target = "wss://example.test/ui-protocol";
    let source = SnapshotSource::classify("Protocol backend connected", Some(target));
    assert_eq!(source, SnapshotSource::Protocol);
    let artifacts = seed_artifacts(&vec![], "Protocol backend connected", Some(target), true, source);
    assert_eq!(artifacts.items.len(), 2);
    assert_eq!(artifacts.items[0].status, "read-only");
    assert_eq!(artifacts.items[1].title, "Protocol artifact stream");
    assert_eq!(artifacts.items[1].status, "waiting for artifact payloads");

    let workspace = seed_workspace(&vec![], Some(target), true, source, "v1");
    assert_eq!(workspace.root, target);
    assert!(workspace.contract.iter().any(|l| l.contains("pane.snapshots.v1")));
    assert_eq!(workspace.contract.last().map(String::as_str), Some("readonly launch: commands disabled"));
    assert_eq!(workspace.entries.len(), 1);
    assert_eq!(workspace.entries[0].detail, "0 hydrated");
}

#[test]
fn sessions_without_tasks_show_none_and_blank_tails_add_no_hint() {
    let sessions = vec![
        SessionSeed { id: "a".to_string(), title: "A".to_string(), message_count: 12, tasks: vec![] },
        SessionSeed {
            id: "b".to_string(),
            title: "B".to_string(),
            message_count: 0,
            tasks: vec![TaskSeed {
                title: "quiet".to_string(),
                state_label: "done".to_string(),
                output_tail: "  \n\t\n".to_string(),
                preview_id: None,
            }],
        },
    ];
    let workspace = seed_workspace(&sessions, None, false, SnapshotSource::Unknown, "v1");
    assert_eq!(workspace.root, "app-ui snapshot");
    assert_eq!(workspace.contract.len(), 4);
    let labels: Vec<(&str, &str)> = workspace.entries.iter().map(|e| (e.label.as_str(), e.detail.as_str())).collect();
    assert_eq!(
        labels,
        vec![
            ("sessions", "2 hydrated"),
            ("A", "a"),
            ("messages", "12"),
            ("tasks", "none"),
            ("B", "b"),
            ("messages", "0"),
            ("quiet", "done"),
        ]
    );
    let artifacts = seed_artifacts(&sessions, "ready", None, false, SnapshotSource::Unknown);
    assert_eq!(artifacts.items.len(), 1);
    assert_eq!(artifacts.items[0].source, "app-ui snapshot");
    assert_eq!(artifacts.items[0].status, "ready");
}
