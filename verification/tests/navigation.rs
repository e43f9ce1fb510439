use octos_tui::model::composer_edit::ComposerState;
use octos_tui::model::diff::SessionKey;
use octos_tui::model::navigation::{RunStateClock, SessionNavigator, SessionSummary};
use octos_tui::model::panes::SessionRunState;

fn session(id: &str, tasks: usize, live: bool) -> SessionSummary {
    SessionSummary { id: SessionKey(id.to_string()), task_count: tasks, live_reply: live }
}

fn navigator() -> SessionNavigator {
    SessionNavigator {
        sessions: vec![session("a", 2, false), session("b", 0, true), session("c", 3, false)],
        selected_session: 0,
        selected_task: 1,
        transcript_scroll: 7,
        composer: ComposerState::new(),
        run: RunStateClock::new(),
    }
}

#[test]
fn switching_sessions_saves_and_restores_drafts() {
    let mut nav = navigator();
    nav.composer.set_composer_text("draft for a".to_string());
    nav.select_next_session(100);
    assert_eq!(nav.selected_session, 1);
    assert_eq!(nav.selected_task, 0);
    assert_eq!(nav.transcript_scroll, 0);
    assert_eq!(nav.composer.composer, "");
    assert_eq!(nav.run.run_state, SessionRunState::InProgress);
    assert_eq!(nav.run.run_state_started_at, Some(100));
    nav.select_prev_session(101);
    assert_eq!(nav.selected_session, 0);
    assert_eq!(nav.composer.composer, "draft for a");
    assert_eq!(nav.run.run_state, SessionRunState::Idle);
    assert_eq!(nav.run.run_state_started_at, None);
}

#[test]
fn session_selection_wraps_both_ways() {
    let mut nav = navigator();
    nav.select_prev_session(0);
    assert_eq!(nav.selected_session, 2);
    nav.select_next_session(0);
    assert_eq!(nav.selected_session, 0);
    let mut empty = navigator();
    empty.sessions.clear();
    empty.select_next_session(0);
    assert_eq!(empty.selected_session, 0);
    assert_eq!(empty.transcript_scroll, 7);
}

#[test]
fn task_selection_wraps_within_the_session() {
    let mut nav = navigator();
    nav.select_next_task();
    assert_eq!(nav.selected_task, 0);
    nav.select_prev_task();
    assert_eq!(nav.selected_task, 1);
    nav.select_next_session(0);
    nav.select_next_task();
    assert_eq!(nav.selected_task, 0);
    assert_eq!(nav.active_session().map(|s| s.task_count), Some(0));
}

#[test]
fn run_clock_keeps_the_start_while_active() {
    let mut clock = RunStateClock::new();
    assert_eq!(clock.run_state_elapsed_secs(50), None);
    clock.set_run_state_in_progress(10);
    clock.set_run_state_blocked("approve?".to_string(), 20);
    assert_eq!(clock.run_state_started_at, Some(10));
    assert_eq!(clock.run_state_elapsed_secs(25), Some(15));
    assert_eq!(clock.run_state_elapsed_secs(5), Some(0));
    clock.set_run_state_success();
    assert_eq!(clock.run_state_elapsed_secs(25), None);
    clock.set_run_state_error("failed".to_string());
    assert_eq!(clock.run_state, SessionRunState::Error { message: "failed".to_string() });
    clock.set_run_state_in_progress(30);
    assert_eq!(clock.run_state_started_at, Some(30));
    clock.set_run_state_idle();
    assert_eq!(clock.run_state_started_at, None);
}
