use octos_tui::cursors::SessionCursors;
use octos_tui::json::{JsonNumber, JsonValue};
use octos_tui::model::diff::SessionKey;

fn cursor(stream: &str, seq: u64) -> JsonValue {
    JsonValue::Object(
        vec![
            ("stream".to_string(), JsonValue::String(stream.to_string())),
            ("seq".to_string(), JsonValue::Number(JsonNumber { repr: seq.to_string(), integral: true })),
        ],
        format!("{{\"stream\":\"{stream}\",\"seq\":{seq}}}"),
    )
}

fn text(v: Option<&JsonValue>) -> Option<&str> {
    match v {
        Some(JsonValue::Object(_, raw)) => Some(raw.as_str()),
        _ => None,
    }
}

#[test]
fn reopening_a_session_resumes_from_its_recorded_cursor() {
    let session_id = SessionKey("local:test".into());
    let mut cursors = SessionCursors::new();
    assert!(cursors.resume_cursor(&session_id, None).is_none());
    cursors.record_session_cursor(session_id.clone(), cursor("local:test", 21));
    cursors.record_session_cursor(SessionKey("other".into()), cursor("other", 3));
    cursors.record_session_cursor(session_id.clone(), cursor("local:test", 42));
    assert_eq!(cursors.session_cursors.len(), 2);
    assert_eq!(text(cursors.resume_cursor(&session_id, None)), Some("{\"stream\":\"local:test\",\"seq\":42}"));
    let requested = cursor("local:test", 7);
    assert_eq!(
        text(cursors.resume_cursor(&session_id, Some(&requested))),
        Some("{\"stream\":\"local:test\",\"seq\":7}")
    );
    assert_eq!(text(cursors.session_cursor(&SessionKey("other".into()))), Some("{\"stream\":\"other\",\"seq\":3}"));
    assert!(cursors.session_cursor(&SessionKey("none".into())).is_none());
}
