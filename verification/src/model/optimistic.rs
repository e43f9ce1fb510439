//! Prompts the user submitted, kept until the server's transcript shows
//! them. A submitted prompt remembers how many identical user messages its
//! session had and where it was sent; whenever the transcript is replaced,
//! a prompt that the server has not echoed yet is put back at that place.

use vstd::prelude::*;
use crate::json::str_eq;
use crate::model::diff::{SessionKey, TurnId};

verus! {

/// Submitted prompts kept at most; the oldest go first.
pub const MAX_OPTIMISTIC_USER_MESSAGES: usize = 64;

/// One transcript message: who wrote it and what it says.
#[derive(Debug, Clone, PartialEq, Eq)]
pub struct ChatMessage {
    pub role: String,
    pub content: String,
}

impl ChatMessage {
    /// A message written by the user.
    pub fn user(content: String) -> (r: Self)
        ensures
            r.role@ == "user"@,
            r.content == content,
    {
        ChatMessage { role: String::from_str("user"), content }
    }
}

/// A session's transcript, and the text of the reply still streaming into
/// it, if any.
#[derive(Debug, Clone, PartialEq, Eq)]
pub struct ChatSession {
    pub id: SessionKey,
    pub messages: Vec<ChatMessage>,
    pub live_reply: Option<String>,
}

/// A prompt the user submitted: its session and turn, its text, where the
/// transcript ended when it was sent, and how many user messages with the
/// same text the session held then.
#[derive(Debug, Clone, PartialEq, Eq)]
pub struct OptimisticUserMessage {
    pub session_id: SessionKey,
    pub turn_id: TurnId,
    pub content: String,
    pub anchor_index: usize,
    pub prior_matching_user_count: usize,
}

/// The sessions' transcripts and the prompts not yet echoed by the server.
#[derive(Debug)]
pub struct ConversationState {
    pub sessions: Vec<ChatSession>,
    pub optimistic_user_messages: Vec<OptimisticUserMessage>,
}

/// A message as (role, content).
pub open spec fn msg_view(m: ChatMessage) -> (Seq<char>, Seq<char>) {
    (m.role@, m.content@)
}

pub open spec fn msgs_view(ms: Seq<ChatMessage>) -> Seq<(Seq<char>, Seq<char>)> {
    ms.map_values(|m: ChatMessage| msg_view(m))
}

/// A session as (id, messages).
pub open spec fn sessions_view(ss: Seq<ChatSession>) -> Seq<(Seq<char>, Seq<(Seq<char>, Seq<char>)>)> {
    ss.map_values(|s: ChatSession| (s.id.0@, msgs_view(s.messages@)))
}

/// How many user messages say exactly `content`.
pub open spec fn user_count(ms: Seq<(Seq<char>, Seq<char>)>, content: Seq<char>) -> nat
    decreases ms.len(),
{
    if ms.len() == 0 {
        0
    } else {
        user_count(ms.drop_last(), content) + if ms.last() == ("user"@, content) { 1nat } else { 0nat }
    }
}

/// The content of the last user message, if any.
pub open spec fn last_user_content(ms: Seq<(Seq<char>, Seq<char>)>) -> Option<Seq<char>>
    decreases ms.len(),
{
    if ms.len() == 0 {
        None
    } else if ms.last().0 == "user"@ {
        Some(ms.last().1)
    } else {
        last_user_content(ms.drop_last())
    }
}

/// Index of the first session with id `id` at or after `j`.
pub open spec fn session_index(sv: Seq<(Seq<char>, Seq<(Seq<char>, Seq<char>)>)>, id: Seq<char>, j: int) -> Option<int>
    decreases sv.len() - j,
{
    if j < 0 || j >= sv.len() {
        None
    } else if sv[j].0 == id {
        Some(j)
    } else {
        session_index(sv, id, j + 1)
    }
}

/// One prompt's restoration: a prompt of an unknown session is kept and
/// changes nothing; one the server has echoed (its session now holds more
/// identical user messages than when it was sent) is dropped; any other is
/// put back at its place, or at the end of a shorter transcript, and kept.
/// The flag says whether the prompt is kept.
pub open spec fn restore_step(
    sv: Seq<(Seq<char>, Seq<(Seq<char>, Seq<char>)>)>,
    o: OptimisticUserMessage,
) -> (Seq<(Seq<char>, Seq<(Seq<char>, Seq<char>)>)>, bool) {
    match session_index(sv, o.session_id.0@, 0) {
        None => (sv, true),
        Some(i) => {
            let ms = sv[i].1;
            if user_count(ms, o.content@) > o.prior_matching_user_count {
                (sv, false)
            } else {
                let at = if o.anchor_index < ms.len() { o.anchor_index as int } else { ms.len() as int };
                (sv.update(i, (sv[i].0, ms.insert(at, ("user"@, o.content@)))), true)
            }
        },
    }
}

/// Restoring the prompts in order: the sessions afterwards, and the
/// prompts kept.
pub open spec fn restore_all(
    sv: Seq<(Seq<char>, Seq<(Seq<char>, Seq<char>)>)>,
    os: Seq<OptimisticUserMessage>,
) -> (Seq<(Seq<char>, Seq<(Seq<char>, Seq<char>)>)>, Seq<OptimisticUserMessage>)
    decreases os.len(),
{
    if os.len() == 0 {
        (sv, Seq::empty())
    } else {
        let (s1, kept) = restore_all(sv, os.drop_last());
        let (s2, keep) = restore_step(s1, os.last());
        (s2, if keep { kept.push(os.last()) } else { kept })
    }
}

/// The newest `MAX_OPTIMISTIC_USER_MESSAGES` prompts.
pub open spec fn capped_prompts(os: Seq<OptimisticUserMessage>) -> Seq<OptimisticUserMessage> {
    if os.len() > MAX_OPTIMISTIC_USER_MESSAGES {
        os.skip(os.len() - MAX_OPTIMISTIC_USER_MESSAGES)
    } else {
        os
    }
}


/// A prompt the server has echoed (its session holds more identical user
/// messages than when it was sent) is forgotten and changes nothing.
pub proof fn law_echoed_prompt_is_forgotten(
    sv: Seq<(Seq<char>, Seq<(Seq<char>, Seq<char>)>)>,
    o: OptimisticUserMessage,
    i: int,
)
    requires
        session_index(sv, o.session_id.0@, 0) == Some(i),
        user_count(sv[i].1, o.content@) > o.prior_matching_user_count,
    ensures
        restore_all(sv, seq![o]) == (sv, Seq::<OptimisticUserMessage>::empty()),
{
    assert(seq![o].drop_last() =~= Seq::<OptimisticUserMessage>::empty());
    assert(restore_all(sv, seq![o].drop_last()) == (sv, Seq::<OptimisticUserMessage>::empty()));
    assert(seq![o].last() == o);
}

/// A prompt the server has not echoed goes back at the place it was sent
/// from (or at the end of a transcript that has since grown shorter), and
/// stays pending.
pub proof fn law_unechoed_prompt_returns_to_its_place(
    sv: Seq<(Seq<char>, Seq<(Seq<char>, Seq<char>)>)>,
    o: OptimisticUserMessage,
    i: int,
)
    requires
        session_index(sv, o.session_id.0@, 0) == Some(i),
        user_count(sv[i].1, o.content@) <= o.prior_matching_user_count,
    ensures
        restore_all(sv, seq![o]) == (
            sv.update(i, (sv[i].0, sv[i].1.insert(
                if o.anchor_index < sv[i].1.len() { o.anchor_index as int } else { sv[i].1.len() as int },
                ("user"@, o.content@),
            ))),
            seq![o],
        ),
{
    assert(seq![o].drop_last() =~= Seq::<OptimisticUserMessage>::empty());
    assert(restore_all(sv, seq![o].drop_last()) == (sv, Seq::<OptimisticUserMessage>::empty()));
    assert(seq![o].last() == o);
    assert(Seq::<OptimisticUserMessage>::empty().push(o) =~= seq![o]);
}

/// A prompt just sent on a listed session, with nothing else pending, ends
/// that session's transcript and stays pending.
pub proof fn law_sent_prompt_is_shown_at_the_end(
    sv: Seq<(Seq<char>, Seq<(Seq<char>, Seq<char>)>)>,
    o: OptimisticUserMessage,
    i: int,
)
    requires
        session_index(sv, o.session_id.0@, 0) == Some(i),
        o.anchor_index == sv[i].1.len(),
        o.prior_matching_user_count == user_count(sv[i].1, o.content@),
    ensures
        restore_all(sv, seq![o]) == (sv.update(i, (sv[i].0, sv[i].1.push(("user"@, o.content@)))), seq![o]),
{
    law_unechoed_prompt_returns_to_its_place(sv, o, i);
    assert(sv[i].1.insert(sv[i].1.len() as int, ("user"@, o.content@)) =~= sv[i].1.push(("user"@, o.content@)));
}

proof fn lemma_session_index_bounds(sv: Seq<(Seq<char>, Seq<(Seq<char>, Seq<char>)>)>, id: Seq<char>, j: int)
    ensures
        session_index(sv, id, j) matches Some(i) ==> 0 <= j <= i < sv.len(),
    decreases sv.len() - j,
{
    if 0 <= j < sv.len() && sv[j].0 != id {
        lemma_session_index_bounds(sv, id, j + 1);
    }
}

proof fn lemma_restore_keeps_session(
    sv: Seq<(Seq<char>, Seq<(Seq<char>, Seq<char>)>)>,
    os: Seq<OptimisticUserMessage>,
    j: int,
)
    ensures
        restore_all(sv, os).0.len() == sv.len(),
        0 <= j < sv.len() ==> restore_all(sv, os).0[j].0 == sv[j].0
            && restore_all(sv, os).0[j].1.len() >= sv[j].1.len(),
        restore_all(sv, os).1.len() <= os.len(),
    decreases os.len(),
{
    if os.len() > 0 {
        lemma_restore_keeps_session(sv, os.drop_last(), j);
        let s1 = restore_all(sv, os.drop_last()).0;
        lemma_session_index_bounds(s1, os.last().session_id.0@, 0);
    }
}

/// Restoring prompts never removes a message or a session, nor renames a
/// session: every transcript keeps at least the length it had.
pub proof fn law_restore_only_adds_messages(
    sv: Seq<(Seq<char>, Seq<(Seq<char>, Seq<char>)>)>,
    os: Seq<OptimisticUserMessage>,
)
    ensures
        restore_all(sv, os).0.len() == sv.len(),
        restore_all(sv, os).1.len() <= os.len(),
        forall|j: int| 0 <= j < sv.len() ==> (#[trigger] restore_all(sv, os).0[j]).0 == sv[j].0
            && restore_all(sv, os).0[j].1.len() >= sv[j].1.len(),
{
    lemma_restore_keeps_session(sv, os, 0);
    assert forall|j: int| 0 <= j < sv.len() implies (#[trigger] restore_all(sv, os).0[j]).0 == sv[j].0
        && restore_all(sv, os).0[j].1.len() >= sv[j].1.len() by {
        lemma_restore_keeps_session(sv, os, j);
    }
}

/// How many user messages of `session` say exactly `content`.
pub fn matching_user_message_count(session: &ChatSession, content: &str) -> (r: usize)
    ensures
        r == user_count(msgs_view(session.messages@), content@),
{
    let mut n: usize = 0;
    let mut i: usize = 0;
    proof { assert(msgs_view(session.messages@).take(0) =~= Seq::<(Seq<char>, Seq<char>)>::empty()); }
    while i < session.messages.len()
        invariant
            i <= session.messages@.len(),
            n == user_count(msgs_view(session.messages@).take(i as int), content@),
            n <= i,
        decreases session.messages@.len() - i,
    {
        let m = &session.messages[i];
        proof {
            let mv = msgs_view(session.messages@);
            assert(mv.take(i + 1).drop_last() =~= mv.take(i as int));
            assert(mv.take(i + 1).last() == msg_view(*m));
            reveal_strlit("user");
        }
        if str_eq(m.role.as_str(), "user") && str_eq(m.content.as_str(), content) {
            n += 1;
        }
        i += 1;
    }
    proof { assert(msgs_view(session.messages@).take(i as int) =~= msgs_view(session.messages@)); }
    n
}

/// The text of the last user message of the first session `session_id`.
pub fn latest_user_content_for_session(sessions: &Vec<ChatSession>, session_id: &SessionKey) -> (r: Option<String>)
    ensures
        match session_index(sessions_view(sessions@), session_id.0@, 0) {
            None => r is None,
            Some(i) => match (r, last_user_content(sessions_view(sessions@)[i].1)) {
                (Some(a), Some(b)) => a@ == b,
                (None, None) => true,
                _ => false,
            },
        },
{
    let ghost sv = sessions_view(sessions@);
    let i = find_session(sessions, session_id);
    if i >= sessions.len() {
        return None;
    }
    let ms = &sessions[i].messages;
    let ghost mv = msgs_view(ms@);
    let mut k: usize = ms.len();
    proof {
        assert(mv.take(k as int) =~= mv);
        assert(sv[i as int].1 == mv);
    }
    while k > 0
        invariant
            k <= ms@.len(),
            mv == msgs_view(ms@),
            i < sessions@.len(),
            sv == sessions_view(sessions@),
            sv[i as int].1 == mv,
            session_index(sv, session_id.0@, 0) == Some(i as int),
            last_user_content(mv) == last_user_content(mv.take(k as int)),
        decreases k,
    {
        let m = &ms[k - 1];
        proof {
            assert(mv.take(k as int).drop_last() =~= mv.take(k - 1));
            assert(mv.take(k as int).last() == msg_view(*m));
            reveal_strlit("user");
        }
        if str_eq(m.role.as_str(), "user") {
            return Some(m.content.clone());
        }
        k -= 1;
    }
    None
}

/// Index of the first session `id`, or the number of sessions.
fn find_session(sessions: &Vec<ChatSession>, id: &SessionKey) -> (r: usize)
    ensures
        r <= sessions@.len(),
        r < sessions@.len() <==> session_index(sessions_view(sessions@), id.0@, 0) is Some,
        r < sessions@.len() ==> session_index(sessions_view(sessions@), id.0@, 0) == Some(r as int),
{
    let ghost sv = sessions_view(sessions@);
    let mut i: usize = 0;
    while i < sessions.len()
        invariant
            i <= sessions@.len(),
            sv == sessions_view(sessions@),
            session_index(sv, id.0@, 0) == session_index(sv, id.0@, i as int),
        decreases sessions@.len() - i,
    {
        if str_eq(sessions[i].id.0.as_str(), id.0.as_str()) {
            return i;
        }
        i += 1;
    }
    i
}

impl ConversationState {
    /// Put back every prompt the server has not echoed yet, and forget those
    /// it has (see [`restore_all`]).
    pub fn restore_optimistic_user_messages(&mut self)
        ensures
            (sessions_view(final(self).sessions@), final(self).optimistic_user_messages@) == restore_all(
                sessions_view(old(self).sessions@),
                old(self).optimistic_user_messages@,
            ),
    {
        let ghost sv0 = sessions_view(self.sessions@);
        let ghost os = self.optimistic_user_messages@;
        let mut pending: Vec<OptimisticUserMessage> = Vec::new();
        std::mem::swap(&mut pending, &mut self.optimistic_user_messages);
        let mut retained: Vec<OptimisticUserMessage> = Vec::new();
        proof {
            assert(os.take(0) =~= Seq::<OptimisticUserMessage>::empty());
            assert(pending@ =~= os.skip(0));
        }
        while pending.len() > 0
            invariant
                pending@.len() <= os.len(),
                pending@ == os.skip(os.len() - pending@.len()),
                (sessions_view(self.sessions@), retained@) == restore_all(sv0, os.take(os.len() - pending@.len())),
            decreases pending@.len(),
        {
            let ghost done = os.len() - pending@.len();
            let ghost before = pending@;
            let o = pending.remove(0);
            proof {
                assert(pending@ =~= os.skip(done + 1));
                assert(o == os[done]);
                assert(os.take(done + 1).drop_last() =~= os.take(done));
                assert(os.take(done + 1).last() == o);
            }
            let ghost s1 = sessions_view(self.sessions@);
            let i = find_session(&self.sessions, &o.session_id);
            if i >= self.sessions.len() {
                retained.push(o);
            } else {
                let count = matching_user_message_count(&self.sessions[i], o.content.as_str());
                if count > o.prior_matching_user_count {
                    // The server's transcript shows the prompt: forget it.
                } else {
                    let mut s = self.sessions.remove(i);
                    let at = if o.anchor_index < s.messages.len() { o.anchor_index } else { s.messages.len() };
                    let ghost ms = msgs_view(s.messages@);
                    s.messages.insert(at, ChatMessage::user(o.content.clone()));
                    proof {
                        assert(msgs_view(s.messages@) =~= ms.insert(at as int, ("user"@, o.content@)));
                    }
                    self.sessions.insert(i, s);
                    proof {
                        assert(sessions_view(self.sessions@) =~= s1.update(i as int, (s1[i as int].0, ms.insert(at as int, ("user"@, o.content@)))));
                    }
                    retained.push(o);
                }
            }
        }
        proof { assert(os.take(os.len() as int) =~= os); }
        self.optimistic_user_messages = retained;
    }

    /// Remember a prompt just sent on `session_id`'s turn `turn_id`, keep
    /// the newest `MAX_OPTIMISTIC_USER_MESSAGES`, and restore them all. A
    /// prompt for a session that is not listed changes nothing.
    pub fn record_submitted_user_prompt(&mut self, session_id: SessionKey, turn_id: TurnId, content: String)
        ensures
            match session_index(sessions_view(old(self).sessions@), session_id.0@, 0) {
                None => final(self).sessions@ == old(self).sessions@
                    && final(self).optimistic_user_messages@ == old(self).optimistic_user_messages@,
                Some(i) => {
                    let sv = sessions_view(old(self).sessions@);
                    let o = OptimisticUserMessage {
                        session_id,
                        turn_id,
                        content,
                        anchor_index: sv[i].1.len() as usize,
                        prior_matching_user_count: user_count(sv[i].1, content@) as usize,
                    };
                    (sessions_view(final(self).sessions@), final(self).optimistic_user_messages@) == restore_all(
                        sv,
                        capped_prompts(old(self).optimistic_user_messages@.push(o)),
                    )
                },
            },
    {
        let i = find_session(&self.sessions, &session_id);
        if i >= self.sessions.len() {
            return;
        }
        let count = matching_user_message_count(&self.sessions[i], content.as_str());
        let anchor = self.sessions[i].messages.len();
        proof {
            assert(sessions_view(self.sessions@)[i as int].1.len() == anchor);
        }
        let optimistic = OptimisticUserMessage {
            session_id,
            turn_id,
            content,
            anchor_index: anchor,
            prior_matching_user_count: count,
        };
        self.optimistic_user_messages.push(optimistic);
        if self.optimistic_user_messages.len() > MAX_OPTIMISTIC_USER_MESSAGES {
            let excess = self.optimistic_user_messages.len() - MAX_OPTIMISTIC_USER_MESSAGES;
            let ghost all = self.optimistic_user_messages@;
            let newest = self.optimistic_user_messages.split_off(excess);
            self.optimistic_user_messages = newest;
            proof { assert(self.optimistic_user_messages@ =~= all.skip(all.len() - MAX_OPTIMISTIC_USER_MESSAGES)); }
        }
        self.restore_optimistic_user_messages();
    }
}

} // verus!
