use octos_tui::model::activity::{estimated_activity_rows, ActivityItem, ContextLifecycleState, SessionContextLifecycle};
use octos_tui::model::diff::{SessionKey, TurnId};
use octos_tui::model::panes::ActivityKind;
use octos_tui::model::protocol_types::{ContextCompactionSummary, ContextNormalizationSummary};

fn state(recovery: &str) -> ContextLifecycleState {
    ContextLifecycleState {
        session_id: SessionKey("local:test".to_string()),
        thread_id: None,
        generation: 3,
        transcript_hash: "h".to_string(),
        item_count: 12,
        token_estimate: 4096,
        recovery_state: recovery.to_string(),
        last_checkpoint_id: None,
        last_compaction_id: None,
    }
}

fn compaction(output: Option<u64>) -> ContextCompactionSummary {
    ContextCompactionSummary {
        compaction_id: "c1".to_string(),
        status: "completed".to_string(),
        trigger: "auto".to_string(),
        input_generation: 2,
        output_generation: output,
        retained_count: 5,
        dropped_count: 7,
        token_estimate_before: 9000,
        token_estimate_after: Some(4096),
        error: None,
    }
}

fn normalization() -> ContextNormalizationSummary {
    ContextNormalizationSummary {
        generation: 3,
        model_capability_id: "m".to_string(),
        prompt_message_count: 4,
        token_estimate: 100,
        repaired_count: 1,
        dropped_count: 0,
        synthetic_count: 0,
        truncated_count: 0,
    }
}

#[test]
fn lifecycle_summary_is_hidden_before_any_state() {
    let lifecycle = SessionContextLifecycle::default();
    assert_eq!(lifecycle.summary_line(), None);
}

#[test]
fn lifecycle_summary_lists_counts() {
    let mut lifecycle = SessionContextLifecycle::default();
    lifecycle.apply_normalization(state("healthy"), normalization());
    assert_eq!(lifecycle.summary_line().as_deref(), Some("context gen=3 items=12 ~4096 tok"));
    assert_eq!(lifecycle.last_normalization, Some(normalization()));
}

#[test]
fn lifecycle_summary_shows_recovery_and_compaction() {
    let mut lifecycle = SessionContextLifecycle::default();
    lifecycle.apply_compaction(state("recovering"), compaction(Some(3)));
    assert_eq!(
        lifecycle.summary_line().as_deref(),
        Some("context gen=3 items=12 ~4096 tok (recovering) | compacted 2->3 retained=5 dropped=7")
    );
    lifecycle.apply_compaction(state(""), compaction(None));
    assert_eq!(
        lifecycle.summary_line().as_deref(),
        Some("context gen=3 items=12 ~4096 tok | compacted 2->? retained=5 dropped=7")
    );
}

#[test]
fn tool_rows_grow_with_preview_lines_up_to_four() {
    let item = ActivityItem::new(ActivityKind::Tool, "shell".to_string(), "done".to_string());
    assert_eq!(estimated_activity_rows(&item), 5);
    let item = item.with_output_preview("a\nb".to_string());
    assert_eq!(estimated_activity_rows(&item), 6);
    let item = ActivityItem::new(ActivityKind::Tool, "shell".to_string(), "done".to_string())
        .with_output_preview("1\n2\n3\n4\n5\n6".to_string());
    assert_eq!(estimated_activity_rows(&item), 8);
    let item = ActivityItem::new(ActivityKind::Tool, "shell".to_string(), "done".to_string())
        .with_output_preview(String::new());
    assert_eq!(estimated_activity_rows(&item), 5);
}

#[test]
fn file_mutation_progress_takes_three_rows() {
    let item = ActivityItem::new(ActivityKind::Progress, "file_mutation".to_string(), "x".to_string());
    assert_eq!(estimated_activity_rows(&item), 3);
    let item = ActivityItem::new(ActivityKind::Progress, "edit".to_string(), "File mutation: a.rs".to_string());
    assert_eq!(estimated_activity_rows(&item), 3);
    let item = ActivityItem::new(ActivityKind::Progress, "edit".to_string(), "working".to_string());
    assert_eq!(estimated_activity_rows(&item), 2);
    let item = ActivityItem::new(ActivityKind::Warning, "w".to_string(), "x".to_string());
    assert_eq!(estimated_activity_rows(&item), 2);
}

#[test]
fn activity_builders_set_their_field() {
    let item = ActivityItem::new(ActivityKind::Tool, "t".to_string(), "s".to_string())
        .with_detail("d".to_string())
        .with_turn(TurnId("turn-1".to_string()))
        .with_tool_call("call-1".to_string())
        .with_success(true)
        .with_duration_ms(42);
    assert_eq!(item.detail.as_deref(), Some("d"));
    assert_eq!(item.turn_id, Some(TurnId("turn-1".to_string())));
    assert_eq!(item.tool_call_id.as_deref(), Some("call-1"));
    assert_eq!(item.success, Some(true));
    assert_eq!(item.duration_ms, Some(42));
    assert!(item.output_preview.is_none());
}
