//! The last cursor the server reported for each session, so that reopening
//! a session after a reconnect resumes where its stream left off.

use vstd::prelude::*;
use crate::json::JsonValue;
use crate::model::diff::SessionKey;
use crate::model::keyed::{Keyed, keyed_find, keyed_place, keyed_lookup, keyed_placed};

verus! {

/// A session's last reported cursor, kept as the server sent it.
#[derive(Debug)]
pub struct SessionCursor {
    pub session_id: SessionKey,
    pub cursor: JsonValue,
}

impl Keyed for SessionCursor {
    open spec fn key_view(&self) -> Seq<char> {
        self.session_id.0@
    }

    fn key(&self) -> (r: &str) {
        self.session_id.0.as_str()
    }
}

/// The cursor recorded for `session`.
pub open spec fn recorded_session_cursor(s: Seq<SessionCursor>, session: Seq<char>) -> Option<JsonValue> {
    match keyed_lookup(s, session) {
        Some(c) => Some(c.cursor),
        None => None,
    }
}

/// The cursors recorded per session; a newer one replaces the older.
#[derive(Debug)]
pub struct SessionCursors {
    pub session_cursors: Vec<SessionCursor>,
}

impl SessionCursors {
    /// Nothing recorded.
    pub fn new() -> (r: Self)
        ensures
            r.session_cursors@.len() == 0,
    {
        SessionCursors { session_cursors: Vec::new() }
    }

    /// Record the cursor the server reported for `session_id` (when it
    /// opened the session or completed a turn).
    pub fn record_session_cursor(&mut self, session_id: SessionKey, cursor: JsonValue)
        ensures
            final(self).session_cursors@ == keyed_placed(
                old(self).session_cursors@,
                SessionCursor { session_id, cursor },
            ),
    {
        keyed_place(&mut self.session_cursors, SessionCursor { session_id, cursor });
    }

    /// The cursor recorded for `session_id`.
    pub fn session_cursor(&self, session_id: &SessionKey) -> (r: Option<&JsonValue>)
        ensures
            match r {
                Some(c) => recorded_session_cursor(self.session_cursors@, session_id.0@) == Some(*c),
                None => recorded_session_cursor(self.session_cursors@, session_id.0@) is None,
            },
    {
        match keyed_find(&self.session_cursors, session_id.0.as_str()) {
            Some(c) => Some(&c.cursor),
            None => None,
        }
    }

    /// Where reopening `session_id` resumes: the cursor the request names,
    /// else the one recorded for the session.
    pub fn resume_cursor<'a>(&'a self, session_id: &SessionKey, after: Option<&'a JsonValue>) -> (r: Option<&'a JsonValue>)
        ensures
            match after {
                Some(a) => r == Some(a),
                None => match r {
                    Some(c) => recorded_session_cursor(self.session_cursors@, session_id.0@) == Some(*c),
                    None => recorded_session_cursor(self.session_cursors@, session_id.0@) is None,
                },
            },
    {
        match after {
            Some(a) => Some(a),
            None => self.session_cursor(session_id),
        }
    }
}

/// After recording a cursor for a session, reopening it resumes from that
/// cursor unless the request names its own; other sessions resume as
/// before.
pub proof fn law_reopen_resumes_from_recorded_cursor(
    s: Seq<SessionCursor>,
    session_id: SessionKey,
    cursor: JsonValue,
    other: Seq<char>,
)
    ensures
        recorded_session_cursor(keyed_placed(s, SessionCursor { session_id, cursor }), session_id.0@)
            == Some(cursor),
        other != session_id.0@ ==> recorded_session_cursor(
            keyed_placed(s, SessionCursor { session_id, cursor }),
            other,
        ) == recorded_session_cursor(s, other),
{
    crate::model::keyed::law_read_after_write(s, SessionCursor { session_id, cursor }, other);
}

} // verus!
