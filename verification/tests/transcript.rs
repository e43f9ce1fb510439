use octos_tui::model::activity::ActivityItem;
use octos_tui::model::panes::ActivityKind;
use octos_tui::model::diff::{SessionKey, TurnId};
use octos_tui::model::transcript::{TranscriptState, MAX_ACTIVITY_ITEMS, MAX_TURN_ACTIVITY_LOGS};

fn tool(call: &str) -> ActivityItem {
    ActivityItem::new(ActivityKind::Tool, "shell".to_string(), "running".to_string()).with_tool_call(call.to_string())
}

#[test]
fn activity_log_keeps_the_newest_entries() {
    let mut t = TranscriptState::new();
    for i in 0..(MAX_ACTIVITY_ITEMS + 5) {
        t.push_activity(tool(&format!("call-{i}")));
    }
    assert_eq!(t.activity.len(), MAX_ACTIVITY_ITEMS);
    assert_eq!(t.activity[0].tool_call_id.as_deref(), Some("call-5"));
    assert_eq!(t.activity[MAX_ACTIVITY_ITEMS - 1].tool_call_id.as_deref(), Some("call-84"));
}

#[test]
fn following_view_stays_at_latest_and_pinned_view_moves_up() {
    let mut t = TranscriptState::new();
    t.push_activity(tool("a"));
    assert_eq!(t.transcript_scroll, 0);
    t.scroll_transcript_up(3);
    t.push_activity(tool("b"));
    // A tool card without preview takes five rows.
    assert_eq!(t.transcript_scroll, 8);
    t.scroll_transcript_down(100);
    assert_eq!(t.transcript_scroll, 0);
    t.scroll_transcript_up(usize::MAX);
    t.scroll_transcript_up(1);
    assert_eq!(t.transcript_scroll, usize::MAX);
    t.scroll_transcript_to_latest();
    assert_eq!(t.transcript_scroll, 0);
    t.preserve_transcript_position_after_append(4);
    assert_eq!(t.transcript_scroll, 0);
}

#[test]
fn tool_update_changes_the_newest_matching_entry_only() {
    let mut t = TranscriptState::new();
    t.push_activity(tool("a").with_detail("first".to_string()));
    t.push_activity(tool("b"));
    t.push_activity(tool("a"));
    t.scroll_transcript_up(2);
    t.update_tool_activity("a", "done".to_string(), None, Some("ok".to_string()), Some(true), Some(12));
    assert_eq!(t.activity[2].status, "done");
    assert_eq!(t.activity[2].output_preview.as_deref(), Some("ok"));
    assert_eq!(t.activity[2].success, Some(true));
    assert_eq!(t.activity[2].duration_ms, Some(12));
    assert_eq!(t.activity[2].detail, None);
    assert_eq!(t.activity[0].status, "running");
    assert_eq!(t.activity[0].detail.as_deref(), Some("first"));
    assert_eq!(t.transcript_scroll, 3);
    t.update_tool_activity("missing", "done".to_string(), None, None, None, None);
    assert_eq!(t.transcript_scroll, 3);
    assert_eq!(t.activity[1].status, "running");
}

#[test]
fn toggling_tool_cards_reports_the_new_state() {
    let mut t = TranscriptState::new();
    t.toggle_tool_output_expansion();
    assert!(t.expanded_tool_outputs);
    assert_eq!(t.status, "Expanded tool output cards");
    t.toggle_tool_output_expansion();
    assert!(!t.expanded_tool_outputs);
    assert_eq!(t.status, "Collapsed tool output cards");
}

fn of_turn(call: &str, turn: &str) -> ActivityItem {
    tool(call).with_turn(TurnId(turn.to_string()))
}

#[test]
fn completed_turn_activity_moves_into_its_own_log() {
    let mut t = TranscriptState::new();
    let session = SessionKey("s1".to_string());
    t.push_activity(of_turn("a", "t1"));
    t.push_activity(of_turn("b", "t2"));
    t.push_activity(of_turn("c", "t1"));
    t.push_activity(tool("d"));

    assert!(!t.capture_completed_turn_activity(&session, &TurnId("t9".to_string()), None, None));
    assert_eq!(t.activity.len(), 4);
    assert!(t.turn_activity_logs.is_empty());

    assert!(t.capture_completed_turn_activity(&session, &TurnId("t1".to_string()), Some("hello".to_string()), Some(3)));
    let calls: Vec<_> = t.activity.iter().map(|i| i.tool_call_id.clone().unwrap()).collect();
    assert_eq!(calls, vec!["b".to_string(), "d".to_string()]);
    assert_eq!(t.turn_activity_logs.len(), 1);
    let log = &t.turn_activity_logs[0];
    assert_eq!(log.session_id, session);
    assert_eq!(log.turn_id, TurnId("t1".to_string()));
    assert_eq!(log.request.as_deref(), Some("hello"));
    assert_eq!(log.anchor_index, Some(3));
    let logged: Vec<_> = log.items.iter().map(|i| i.tool_call_id.clone().unwrap()).collect();
    assert_eq!(logged, vec!["a".to_string(), "c".to_string()]);

    // The same turn again replaces its log in place.
    t.push_activity(of_turn("e", "t1"));
    assert!(t.capture_completed_turn_activity(&session, &TurnId("t1".to_string()), None, None));
    assert_eq!(t.turn_activity_logs.len(), 1);
    assert_eq!(t.turn_activity_logs[0].items.len(), 1);
    assert_eq!(t.turn_activity_logs[0].request, None);
}

#[test]
fn turn_activity_logs_keep_the_newest() {
    let mut t = TranscriptState::new();
    let session = SessionKey("s".to_string());
    for i in 0..(MAX_TURN_ACTIVITY_LOGS + 3) {
        let turn = format!("turn-{i}");
        t.push_activity(of_turn("x", &turn));
        assert!(t.capture_completed_turn_activity(&session, &TurnId(turn), None, None));
    }
    assert_eq!(t.turn_activity_logs.len(), MAX_TURN_ACTIVITY_LOGS);
    assert_eq!(t.turn_activity_logs[0].turn_id, TurnId("turn-3".to_string()));
    assert!(t.activity.is_empty());
}
