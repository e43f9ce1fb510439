use octos_tui::model::autonomy::OutputCursor;
use octos_tui::model::diff::SessionKey;
use octos_tui::model::task_output::{task_state_label, TaskOutputCursors, TaskOutputDetailState};

fn key(s: &str) -> SessionKey {
    SessionKey(s.to_string())
}

#[test]
fn task_output_view_opens_appends_and_closes() {
    let mut v = TaskOutputDetailState::default();
    assert!(!v.is_for(&key("s"), "t1"));
    v.open(key("s"), "t1".to_string(), "build".to_string(), "line 1\n".to_string(), Some(OutputCursor { offset: 7 }));
    assert!(v.is_for(&key("s"), "t1"));
    assert!(!v.is_for(&key("s"), "t2"));
    assert!(!v.is_for(&key("x"), "t1"));
    v.scroll_down(5);
    assert_eq!(v.scroll, 5);
    v.scroll_up(2);
    assert_eq!(v.scroll, 3);
    v.append_output("line 2\n", OutputCursor { offset: 14 });
    assert_eq!(v.output, "line 1\nline 2\n");
    assert_eq!(v.cursor, Some(OutputCursor { offset: 14 }));
    assert_eq!(v.scroll, 0);
    v.scroll_up(9);
    assert_eq!(v.scroll, 0);
    v.close();
    assert_eq!(v, TaskOutputDetailState::default());
    assert!(!v.is_for(&key("s"), "t1"));
}

#[test]
fn task_output_cursors_read_back_per_task() {
    let mut c = TaskOutputCursors::new();
    assert_eq!(c.task_output_cursor(&key("s"), "t1"), None);
    c.set_task_output_cursor(key("s"), "t1".to_string(), OutputCursor { offset: 3 });
    c.set_task_output_cursor(key("s"), "t2".to_string(), OutputCursor { offset: 9 });
    c.set_task_output_cursor(key("z"), "t1".to_string(), OutputCursor { offset: 1 });
    c.set_task_output_cursor(key("s"), "t1".to_string(), OutputCursor { offset: 30 });
    assert_eq!(c.task_output_cursors.len(), 3);
    assert_eq!(c.task_output_cursor(&key("s"), "t1"), Some(OutputCursor { offset: 30 }));
    assert_eq!(c.task_output_cursor(&key("s"), "t2"), Some(OutputCursor { offset: 9 }));
    assert_eq!(c.task_output_cursor(&key("z"), "t1"), Some(OutputCursor { offset: 1 }));
    assert_eq!(c.task_output_cursor(&key("z"), "t2"), None);
}

#[test]
fn task_state_labels_follow_wire_names() {
    assert_eq!(task_state_label("pending"), "pending");
    assert_eq!(task_state_label("running"), "running");
    assert_eq!(task_state_label("completed"), "done");
    assert_eq!(task_state_label("failed"), "failed");
    assert_eq!(task_state_label("cancelled"), "cancelled");
    assert_eq!(task_state_label("paused"), "unknown");
    assert_eq!(task_state_label(""), "unknown");
}
