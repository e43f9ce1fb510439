use octos_tui::model::pane_snapshot::{
    ArtifactSnapshotItem, GitSnapshot, PaneSnapshot, SidePanes, WorkspaceSnapshot, WorkspaceSnapshotEntry,
};
use octos_tui::model::panes::{ArtifactPaneState, GitHistoryItem, GitPaneState, GitStatusItem, WorkspacePaneState};

fn empty_panes() -> SidePanes {
    SidePanes {
        artifacts: ArtifactPaneState::default(),
        workspace: WorkspacePaneState::default(),
        git: GitPaneState::default(),
    }
}

#[test]
fn pane_snapshot_hydrates_workspace_artifacts_and_git() {
    let mut state = empty_panes();
    state.apply_pane_snapshot(PaneSnapshot {
        workspace: Some(WorkspaceSnapshot {
            root: "/repo".into(),
            contract: vec!["feature pane.snapshots.v1".into()],
            entries: vec![WorkspaceSnapshotEntry {
                path: "src/lib.rs".into(),
                label: "lib.rs".into(),
                depth: 1,
                kind: "file".into(),
                detail: Some("12 KB".into()),
            }],
        }),
        artifacts: Some(vec![ArtifactSnapshotItem {
            title: "lib.rs".into(),
            kind: "file".into(),
            path: Some("src/lib.rs".into()),
            source: Some("workspace".into()),
            status: "12 KB".into(),
        }]),
        git: Some(GitSnapshot {
            branch: Some("coding-green".into()),
            head: Some("abc1234".into()),
            status: vec![GitStatusItem { code: "M".into(), path: "src/lib.rs".into(), detail: "modified".into() }],
            history: vec![GitHistoryItem { commit: "abc1234".into(), summary: "pane snapshots".into() }],
        }),
    });

    assert_eq!(state.workspace.root, "/repo");
    assert_eq!(state.workspace.entries[0].label, "lib.rs");
    assert_eq!(state.artifacts.items[0].title, "lib.rs");
    assert_eq!(state.git.branch, "coding-green");
    assert_eq!(state.git.status[0].path, "src/lib.rs");
}

#[test]
fn pane_snapshot_fills_gaps_and_clamps_selections() {
    let mut state = empty_panes();
    state.artifacts.selected = 7;
    state.workspace.selected = 9;
    state.workspace.scroll = 20;
    state.git.selected = 3;
    state.git.scroll = 3;
    state.apply_pane_snapshot(PaneSnapshot {
        artifacts: Some(vec![
            ArtifactSnapshotItem { title: "a".into(), kind: "k".into(), path: Some("p".into()), source: None, status: "s".into() },
            ArtifactSnapshotItem { title: "b".into(), kind: "k".into(), path: None, source: None, status: "s".into() },
        ]),
        workspace: Some(WorkspaceSnapshot {
            root: "/r".into(),
            contract: vec![],
            entries: vec![WorkspaceSnapshotEntry {
                path: "src".into(),
                label: "src".into(),
                depth: 0,
                kind: "dir".into(),
                detail: None,
            }],
        }),
        git: Some(GitSnapshot { branch: None, head: None, status: vec![], history: vec![] }),
    });
    assert_eq!(state.artifacts.items[0].source, "p");
    assert_eq!(state.artifacts.items[1].source, "protocol");
    assert_eq!(state.artifacts.selected, 1);
    assert_eq!(state.workspace.entries[0].detail, "dir src");
    assert_eq!(state.workspace.selected, 0);
    assert_eq!(state.workspace.scroll, 0);
    assert_eq!(state.git.branch, "not supplied");
    assert_eq!(state.git.selected, 0);
    assert_eq!(state.git.scroll, 0);

    // A snapshot without panes changes nothing.
    let before_root = state.workspace.root.clone();
    state.apply_pane_snapshot(PaneSnapshot { artifacts: None, workspace: None, git: None });
    assert_eq!(state.workspace.root, before_root);
    assert_eq!(state.artifacts.items.len(), 2);
    state.select_next_artifact();
    assert_eq!(state.artifacts.selected, 0);
    state.select_prev_artifact();
    assert_eq!(state.artifacts.selected, 1);
    state.select_next_workspace_entry();
    assert_eq!(state.workspace.selected, 0);
    state.select_next_git_entry();
    assert_eq!(state.git.selected, 0);
}
