use octos_tui::model::diff::{
    DiffPreview, DiffPreviewFile, DiffPreviewGetResult, DiffPreviewHunk, DiffPreviewLine, DiffPreviewPaneState,
    PreviewId, SessionKey, TurnId, context_label, unknown_label,
};

fn line(content: &str) -> DiffPreviewLine {
    DiffPreviewLine { kind: "add".into(), content: content.into(), old_line: None, new_line: Some(1) }
}

fn file(path: &str, hunks: usize) -> DiffPreviewFile {
    DiffPreviewFile {
        path: path.into(),
        old_path: None,
        status: "modified".into(),
        hunks: (0..hunks)
            .map(|i| DiffPreviewHunk { header: format!("@@ {path} {i} @@"), lines: vec![line(&format!("{path}{i}"))] })
            .collect(),
    }
}

fn result(id: &str, files: Vec<DiffPreviewFile>) -> DiffPreviewGetResult {
    DiffPreviewGetResult {
        status: "ready".into(),
        source: "cache".into(),
        preview: DiffPreview {
            session_id: SessionKey("local:test".into()),
            preview_id: PreviewId(id.into()),
            title: None,
            files,
        },
    }
}

#[test]
fn loading_then_result_keeps_turn_and_selects_first_hunk() {
    let mut pane = DiffPreviewPaneState::default();
    pane.open_loading_for_turn(PreviewId("p1".into()), Some(TurnId("t1".into())));
    assert!(pane.active && pane.loading);
    assert_eq!(pane.status.as_deref(), Some("loading"));
    pane.apply_result(result("p1", vec![file("a", 0), file("b", 2)]));
    assert!(!pane.loading);
    assert_eq!(pane.turn_id, Some(TurnId("t1".into())));
    assert_eq!((pane.selected_file, pane.selected_hunk), (1, 0));
    let ctx = pane.selected_hunk_context().expect("hunk");
    assert_eq!(ctx.path, "b");
    assert_eq!(ctx.hunk_header, "@@ b 0 @@");
    assert_eq!(ctx.lines, vec![line("b0")]);
}

#[test]
fn result_for_another_preview_drops_the_turn() {
    let mut pane = DiffPreviewPaneState::default();
    pane.open_loading_for_turn(PreviewId("p1".into()), Some(TurnId("t1".into())));
    pane.apply_result(result("p2", vec![]));
    assert_eq!(pane.turn_id, None);
    assert_eq!(pane.requested_preview_id, Some(PreviewId("p2".into())));
    assert_eq!((pane.selected_file, pane.selected_hunk), (0, 0));
    assert!(pane.selected_hunk_context().is_none());
}

#[test]
fn hunk_navigation_cycles_through_files() {
    let mut pane = DiffPreviewPaneState::default();
    pane.open_loading(PreviewId("p".into()));
    pane.apply_result(result("p", vec![file("a", 2), file("b", 1)]));
    let mut seen = vec![(pane.selected_file, pane.selected_hunk)];
    for _ in 0..3 {
        pane.select_next_hunk();
        seen.push((pane.selected_file, pane.selected_hunk));
    }
    assert_eq!(seen, vec![(0, 0), (0, 1), (1, 0), (0, 0)]);
    pane.select_prev_hunk();
    assert_eq!((pane.selected_file, pane.selected_hunk), (1, 0));
    pane.select_next_hunk();
    assert_eq!((pane.selected_file, pane.selected_hunk), (0, 0));
}

#[test]
fn diff_scroll_and_close() {
    let mut pane = DiffPreviewPaneState::default();
    pane.scroll_up(3);
    assert_eq!(pane.scroll, 3);
    pane.scroll_down(5);
    assert_eq!(pane.scroll, 0);
    pane.open_loading(PreviewId("p".into()));
    pane.close();
    assert_eq!(pane, DiffPreviewPaneState::default());
    assert_eq!(unknown_label(), "unknown");
    assert_eq!(context_label(), "context");
}
