use octos_tui::model::diff::{SessionKey, TurnId};
use octos_tui::model::optimistic::{
    latest_user_content_for_session, matching_user_message_count, ChatMessage, ChatSession, ConversationState,
    MAX_OPTIMISTIC_USER_MESSAGES,
};

fn msg(role: &str, content: &str) -> ChatMessage {
    ChatMessage { role: role.to_string(), content: content.to_string() }
}

fn state(session_id: &SessionKey, messages: Vec<ChatMessage>) -> ConversationState {
    ConversationState {
        sessions: vec![ChatSession { id: session_id.clone(), messages, live_reply: None }],
        optimistic_user_messages: vec![],
    }
}

#[test]
fn optimistic_user_prompt_restores_missing_duplicate_at_submit_anchor() {
    let session_id = SessionKey("local:test".into());
    let mut state = state(&session_id, vec![msg("user", "repeat"), msg("assistant", "old answer")]);
    state.record_submitted_user_prompt(session_id.clone(), TurnId("t1".into()), "repeat".into());
    assert_eq!(state.sessions[0].messages[2].content, "repeat");

    let optimistic_user_messages = state.optimistic_user_messages.clone();
    let mut replayed = ConversationState {
        sessions: vec![ChatSession {
            id: session_id,
            messages: vec![
                msg("user", "repeat"),
                msg("assistant", "old answer"),
                msg("assistant", "server-side output without echoed prompt"),
            ],
            live_reply: None,
        }],
        optimistic_user_messages,
    };

    replayed.restore_optimistic_user_messages();

    let messages = &replayed.sessions[0].messages;
    assert_eq!(messages[0].content, "repeat");
    assert_eq!(messages[1].content, "old answer");
    assert_eq!(messages[2].role.as_str(), "user");
    assert_eq!(messages[2].content, "repeat");
    assert_eq!(messages[3].content, "server-side output without echoed prompt");
}

#[test]
fn optimistic_user_prompt_drops_when_server_echo_confirms_it() {
    let session_id = SessionKey("local:test".into());
    let mut state = state(&session_id, vec![msg("assistant", "ready")]);

    state.record_submitted_user_prompt(session_id, TurnId("t1".into()), "confirmed prompt".into());
    assert_eq!(state.optimistic_user_messages.len(), 1);
    state.sessions[0].messages = vec![
        msg("assistant", "ready"),
        msg("user", "confirmed prompt"),
        msg("assistant", "server echoed the prompt"),
    ];

    state.restore_optimistic_user_messages();

    assert!(state.optimistic_user_messages.is_empty());
    assert_eq!(
        state.sessions[0]
            .messages
            .iter()
            .filter(|message| message.role.as_str() == "user" && message.content == "confirmed prompt")
            .count(),
        1
    );
}

#[test]
fn prompt_for_unknown_session_changes_nothing() {
    let mut state = state(&SessionKey("a".into()), vec![msg("user", "hi")]);
    state.record_submitted_user_prompt(SessionKey("b".into()), TurnId("t".into()), "hi".into());
    assert!(state.optimistic_user_messages.is_empty());
    assert_eq!(state.sessions[0].messages.len(), 1);
}

#[test]
fn pending_prompts_of_missing_sessions_are_kept() {
    let key = SessionKey("a".into());
    let mut state = state(&key, vec![]);
    state.record_submitted_user_prompt(key.clone(), TurnId("t".into()), "hello".into());
    assert_eq!(state.sessions[0].messages.len(), 1);
    state.sessions.clear();
    state.restore_optimistic_user_messages();
    assert_eq!(state.optimistic_user_messages.len(), 1);
    // A shorter transcript takes the prompt at its end.
    state.sessions.push(ChatSession { id: key, messages: vec![], live_reply: None });
    state.restore_optimistic_user_messages();
    assert_eq!(state.sessions[0].messages.len(), 1);
    assert_eq!(state.sessions[0].messages[0].role, "user");
    assert_eq!(state.optimistic_user_messages.len(), 1);
}

#[test]
fn optimistic_prompts_keep_the_newest() {
    let key = SessionKey("a".into());
    let mut state = state(&key, vec![]);
    for i in 0..(MAX_OPTIMISTIC_USER_MESSAGES + 2) {
        state.record_submitted_user_prompt(key.clone(), TurnId(format!("t{i}")), format!("p{i}"));
        // The server never echoes them.
        state.sessions[0].messages.clear();
    }
    assert_eq!(state.optimistic_user_messages.len(), MAX_OPTIMISTIC_USER_MESSAGES);
    assert_eq!(state.optimistic_user_messages[0].content, "p2");
}

#[test]
fn counts_and_latest_user_content() {
    let key = SessionKey("a".into());
    let sessions = vec![ChatSession {
        id: key.clone(),
        messages: vec![msg("user", "x"), msg("assistant", "x"), msg("user", "y"), msg("user", "x"), msg("tool", "z")],
        live_reply: None,
    }];
    assert_eq!(matching_user_message_count(&sessions[0], "x"), 2);
    assert_eq!(matching_user_message_count(&sessions[0], "z"), 0);
    assert_eq!(latest_user_content_for_session(&sessions, &key).as_deref(), Some("x"));
    assert_eq!(latest_user_content_for_session(&sessions, &SessionKey("b".into())), None);
    let quiet = vec![ChatSession { id: key.clone(), messages: vec![msg("assistant", "only")], live_reply: None }];
    assert_eq!(latest_user_content_for_session(&quiet, &key), None);
}
