use octos_tui::json::JsonValue;
use octos_tui::model::autonomy::{AgentRecord, AutonomyMirror, LoopRecord, OutputCursor, MAX_PENDING_HYDRATION};
use octos_tui::model::diff::SessionKey;

fn key(s: &str) -> SessionKey {
    SessionKey(s.to_string())
}

fn agent(id: &str, name: &str) -> AgentRecord {
    AgentRecord { agent_id: id.to_string(), record: JsonValue::String(name.to_string()) }
}

fn looped(id: &str, status: &str) -> LoopRecord {
    LoopRecord { loop_id: id.to_string(), status: status.to_string(), record: JsonValue::Null }
}

fn name(a: &AgentRecord) -> &str {
    match &a.record {
        JsonValue::String(s) => s.as_str(),
        _ => "",
    }
}

#[test]
fn mirror_entries_are_created_on_first_report() {
    let mut m: AutonomyMirror<u32> = AutonomyMirror::new();
    assert!(m.session_autonomy_for(&key("s")).is_none());
    m.set_session_agents(&key("s"), vec![agent("a1", "one")]);
    let e = m.session_autonomy_for(&key("s")).expect("entry");
    assert_eq!(e.agents.len(), 1);
    assert!(e.loops.is_empty() && e.goal.is_none());
    // Removing a loop of a session never reported creates nothing.
    m.remove_session_loop(&key("other"), "l1");
    assert!(m.session_autonomy_for(&key("other")).is_none());
    assert_eq!(m.session_autonomy.len(), 1);
}

#[test]
fn agents_upsert_by_id() {
    let mut m: AutonomyMirror<u32> = AutonomyMirror::new();
    m.upsert_session_agent(&key("s"), agent("a1", "one"));
    m.upsert_session_agent(&key("s"), agent("a2", "two"));
    m.upsert_session_agent(&key("s"), agent("a1", "uno"));
    let e = m.session_autonomy_for(&key("s")).unwrap();
    let names: Vec<(&str, &str)> = e.agents.iter().map(|a| (a.agent_id.as_str(), name(a))).collect();
    assert_eq!(names, vec![("a1", "uno"), ("a2", "two")]);
}

#[test]
fn deleted_loops_leave_no_tombstone() {
    let mut m: AutonomyMirror<u32> = AutonomyMirror::new();
    m.set_session_loops(&key("s"), vec![looped("l1", "active"), looped("l2", "paused")]);
    m.upsert_session_loop(&key("s"), looped("l2", "active"));
    m.upsert_session_loop(&key("s"), looped("l3", "active"));
    m.upsert_session_loop(&key("s"), looped("l1", "deleted"));
    let e = m.session_autonomy_for(&key("s")).unwrap();
    let loops: Vec<(&str, &str)> = e.loops.iter().map(|l| (l.loop_id.as_str(), l.status.as_str())).collect();
    assert_eq!(loops, vec![("l2", "active"), ("l3", "active")]);
    m.remove_session_loop(&key("s"), "l3");
    assert_eq!(m.session_autonomy_for(&key("s")).unwrap().loops.len(), 1);
}

#[test]
fn goal_is_set_and_cleared() {
    let mut m: AutonomyMirror<u32> = AutonomyMirror::new();
    m.set_session_goal(&key("s"), Some(JsonValue::Bool(true)), Some("user".to_string()));
    let e = m.session_autonomy_for(&key("s")).unwrap();
    assert!(matches!(e.goal, Some(JsonValue::Bool(true))));
    assert_eq!(e.goal_transition_actor.as_deref(), Some("user"));
    m.set_session_goal(&key("s"), None, None);
    assert!(m.session_autonomy_for(&key("s")).unwrap().goal.is_none());
}

#[test]
fn agent_output_appends_and_restarts_on_rewind() {
    let mut m: AutonomyMirror<u32> = AutonomyMirror::new();
    m.append_agent_output(&key("s"), "a1", OutputCursor { offset: 5 }, "hello");
    m.append_agent_output(&key("s"), "a1", OutputCursor { offset: 11 }, " world");
    {
        let c = &m.session_autonomy_for(&key("s")).unwrap().agent_outputs[0];
        assert_eq!(c.text, "hello world");
        assert_eq!(c.cursor, OutputCursor { offset: 11 });
    }
    m.append_agent_output(&key("s"), "a1", OutputCursor { offset: 3 }, "new");
    let c = &m.session_autonomy_for(&key("s")).unwrap().agent_outputs[0];
    assert_eq!(c.text, "new");
    assert_eq!(c.cursor, OutputCursor { offset: 3 });
    m.set_agent_output(&key("s"), "a2", "full".to_string(), OutputCursor { offset: 4 });
    m.set_agent_output(&key("s"), "a1", "reset".to_string(), OutputCursor { offset: 5 });
    let outs: Vec<(&str, &str)> = m.session_autonomy_for(&key("s")).unwrap().agent_outputs.iter()
        .map(|c| (c.agent_id.as_str(), c.text.as_str())).collect();
    assert_eq!(outs, vec![("a1", "reset"), ("a2", "full")]);
}

#[test]
fn agent_artifacts_replace_per_agent() {
    let mut m: AutonomyMirror<u32> = AutonomyMirror::new();
    m.set_agent_artifacts(&key("s"), "a1", vec![JsonValue::Null, JsonValue::Null]);
    m.set_agent_artifacts(&key("s"), "a1", vec![JsonValue::Null]);
    let e = m.session_autonomy_for(&key("s")).unwrap();
    assert_eq!(e.agent_artifacts.len(), 1);
    assert_eq!(e.agent_artifacts[0].artifacts.len(), 1);
}

#[test]
fn hydration_queue_is_bounded_and_fifo() {
    let mut m: AutonomyMirror<usize> = AutonomyMirror::new();
    assert_eq!(m.dequeue_autonomy_hydration(), None);
    for i in 0..(MAX_PENDING_HYDRATION + 3) {
        m.enqueue_autonomy_hydration(i);
    }
    assert_eq!(m.pending_autonomy_hydration.len(), MAX_PENDING_HYDRATION);
    assert_eq!(m.dequeue_autonomy_hydration(), Some(3));
    assert_eq!(m.dequeue_autonomy_hydration(), Some(4));
}
