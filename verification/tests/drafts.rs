use octos_tui::model::composer_edit::ComposerState;
use octos_tui::model::diff::SessionKey;
use octos_tui::model::drafts::ComposerDraft;

fn key(id: &str) -> SessionKey {
    SessionKey(id.to_string())
}

#[test]
fn switching_sessions_keeps_each_draft() {
    let mut c = ComposerState::new();
    c.set_composer_text("half a thought".to_string());
    c.persist_composer_draft_for_selected_session(Some(&key("a")));
    c.load_composer_draft_for_selected_session(Some(&key("b")));
    assert_eq!(c.composer, "");
    c.set_composer_text("other".to_string());
    c.persist_composer_draft_for_selected_session(Some(&key("b")));
    c.load_composer_draft_for_selected_session(Some(&key("a")));
    assert_eq!(c.composer, "half a thought");
    assert_eq!(c.composer_cursor, None);
    assert_eq!(
        c.composer_drafts,
        vec![
            ComposerDraft { session_id: key("a"), text: "half a thought".to_string() },
            ComposerDraft { session_id: key("b"), text: "other".to_string() },
        ]
    );
}

#[test]
fn saving_an_empty_composer_forgets_the_draft() {
    let mut c = ComposerState::new();
    c.set_composer_text("x".to_string());
    c.persist_composer_draft_for_selected_session(Some(&key("a")));
    assert_eq!(c.composer_drafts.len(), 1);
    c.set_composer_text(String::new());
    c.persist_composer_draft_for_selected_session(Some(&key("a")));
    assert!(c.composer_drafts.is_empty());
    c.persist_composer_draft_for_selected_session(Some(&key("z")));
    assert!(c.composer_drafts.is_empty());
}

#[test]
fn without_a_session_nothing_is_saved_and_the_composer_empties() {
    let mut c = ComposerState::new();
    c.set_composer_text("typed".to_string());
    c.persist_composer_draft_for_selected_session(None);
    assert!(c.composer_drafts.is_empty());
    c.load_composer_draft_for_selected_session(None);
    assert_eq!(c.composer, "");
}

#[test]
fn clearing_drops_only_that_sessions_draft() {
    let mut c = ComposerState::new();
    c.set_composer_text("one".to_string());
    c.persist_composer_draft_for_selected_session(Some(&key("a")));
    c.set_composer_text("two".to_string());
    c.persist_composer_draft_for_selected_session(Some(&key("b")));
    c.clear_current_composer_draft(Some(&key("b")));
    assert_eq!(c.composer, "");
    assert_eq!(c.composer_drafts, vec![ComposerDraft { session_id: key("a"), text: "one".to_string() }]);
    c.load_composer_draft_for_selected_session(Some(&key("b")));
    assert_eq!(c.composer, "");
    c.set_composer_text("kept".to_string());
    c.clear_current_composer_draft(None);
    assert_eq!(c.composer, "");
    assert_eq!(c.composer_drafts.len(), 1);
}
