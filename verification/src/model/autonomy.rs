//! The client's mirror of what the server reports about a session's
//! autonomous work: its agents, their output and artifacts, its goal and
//! its loops. The mirror is filled only from server responses and
//! notifications; a session's entry is created on its first report.
//! Records are kept with the keys the mirror files them by (agent id,
//! loop id and status) and the rest of their JSON.

use vstd::prelude::*;
use crate::json::{JsonValue, str_eq};
use crate::model::diff::SessionKey;
use crate::model::keyed::{Keyed, keyed_find, keyed_index, keyed_lookup, keyed_place, keyed_placed, keyed_position,
    keyed_remove_all, without_key};

verus! {

/// Pending hydration commands kept at most; the oldest goes first.
pub const MAX_PENDING_HYDRATION: usize = 16;

/// Where an agent's output stream stands.
#[derive(Debug, Clone, Copy, PartialEq, Eq, Structural)]
pub struct OutputCursor {
    pub offset: u64,
}

/// An agent as the server reports it.
#[derive(Debug)]
pub struct AgentRecord {
    pub agent_id: String,
    pub record: JsonValue,
}

/// A loop as the server reports it; a loop whose status is `deleted` is a
/// tombstone.
#[derive(Debug)]
pub struct LoopRecord {
    pub loop_id: String,
    pub status: String,
    pub record: JsonValue,
}

/// The output text cached for one agent, and where it ends.
#[derive(Debug, Clone, PartialEq, Eq)]
pub struct AutonomyAgentOutputCache {
    pub agent_id: String,
    pub text: String,
    pub cursor: OutputCursor,
}

/// The artifacts listed for one agent.
#[derive(Debug)]
pub struct AutonomyAgentArtifactCache {
    pub agent_id: String,
    pub artifacts: Vec<JsonValue>,
}

/// Everything mirrored for one session.
#[derive(Debug)]
pub struct SessionAutonomyState {
    pub session_id: SessionKey,
    pub agents: Vec<AgentRecord>,
    pub agent_outputs: Vec<AutonomyAgentOutputCache>,
    pub agent_artifacts: Vec<AutonomyAgentArtifactCache>,
    pub goal: Option<JsonValue>,
    pub goal_transition_actor: Option<String>,
    pub loops: Vec<LoopRecord>,
}

impl Keyed for AgentRecord {
    open spec fn key_view(&self) -> Seq<char> {
        self.agent_id@
    }

    fn key(&self) -> (r: &str) {
        self.agent_id.as_str()
    }
}

impl Keyed for LoopRecord {
    open spec fn key_view(&self) -> Seq<char> {
        self.loop_id@
    }

    fn key(&self) -> (r: &str) {
        self.loop_id.as_str()
    }
}

impl Keyed for AutonomyAgentOutputCache {
    open spec fn key_view(&self) -> Seq<char> {
        self.agent_id@
    }

    fn key(&self) -> (r: &str) {
        self.agent_id.as_str()
    }
}

impl Keyed for AutonomyAgentArtifactCache {
    open spec fn key_view(&self) -> Seq<char> {
        self.agent_id@
    }

    fn key(&self) -> (r: &str) {
        self.agent_id.as_str()
    }
}

impl Keyed for SessionAutonomyState {
    open spec fn key_view(&self) -> Seq<char> {
        self.session_id.0@
    }

    fn key(&self) -> (r: &str) {
        self.session_id.0.as_str()
    }
}

/// What a session's entry holds, as sequences.
pub struct AutonomyView {
    pub agents: Seq<AgentRecord>,
    pub agent_outputs: Seq<AutonomyAgentOutputCache>,
    pub agent_artifacts: Seq<AutonomyAgentArtifactCache>,
    pub goal: Option<JsonValue>,
    pub goal_transition_actor: Option<String>,
    pub loops: Seq<LoopRecord>,
}

pub open spec fn autonomy_view(e: SessionAutonomyState) -> AutonomyView {
    AutonomyView {
        agents: e.agents@,
        agent_outputs: e.agent_outputs@,
        agent_artifacts: e.agent_artifacts@,
        goal: e.goal,
        goal_transition_actor: e.goal_transition_actor,
        loops: e.loops@,
    }
}

/// An entry with nothing reported yet.
pub open spec fn empty_autonomy() -> AutonomyView {
    AutonomyView {
        agents: Seq::empty(),
        agent_outputs: Seq::empty(),
        agent_artifacts: Seq::empty(),
        goal: None,
        goal_transition_actor: None,
        loops: Seq::empty(),
    }
}

/// What is mirrored for session `id`: its entry, or nothing yet.
pub open spec fn current_autonomy(s: Seq<SessionAutonomyState>, id: Seq<char>) -> AutonomyView {
    match keyed_lookup(s, id) {
        Some(e) => autonomy_view(e),
        None => empty_autonomy(),
    }
}

/// Where session `id`'s entry is, or will be once added.
pub open spec fn autonomy_slot(s: Seq<SessionAutonomyState>, id: Seq<char>) -> int {
    match keyed_index(s, id, 0) {
        Some(i) => i,
        None => s.len() as int,
    }
}

/// `t` is `s` with session `id`'s entry (added if missing) now holding
/// `v`, and every other entry as it was.
pub open spec fn autonomy_updated(
    s: Seq<SessionAutonomyState>,
    t: Seq<SessionAutonomyState>,
    id: Seq<char>,
    v: AutonomyView,
) -> bool {
    let i = autonomy_slot(s, id);
    &&& t.len() == if keyed_index(s, id, 0) is Some { s.len() } else { s.len() + 1 }
    &&& t[i].key_view() == id
    &&& autonomy_view(t[i]) == v
    &&& forall|j: int| 0 <= j < s.len() && j != i ==> #[trigger] t[j] == s[j]
}

/// An output cache list after appending `text` at `cursor` for `agent`:
/// an agent's cached text grows by `text`, or restarts with it when the
/// cursor went back; an agent without a cache gets one.
pub open spec fn appended_outputs(
    old_caches: Seq<AutonomyAgentOutputCache>,
    new_caches: Seq<AutonomyAgentOutputCache>,
    agent: Seq<char>,
    cursor: OutputCursor,
    text: Seq<char>,
) -> bool {
    match keyed_index(old_caches, agent, 0) {
        Some(p) => {
            &&& new_caches.len() == old_caches.len()
            &&& forall|j: int| 0 <= j < old_caches.len() && j != p ==> #[trigger] new_caches[j] == old_caches[j]
            &&& new_caches[p].agent_id == old_caches[p].agent_id
            &&& new_caches[p].cursor == cursor
            &&& new_caches[p].text@ == if cursor.offset < old_caches[p].cursor.offset {
                text
            } else {
                old_caches[p].text@ + text
            }
        },
        None => {
            &&& new_caches.len() == old_caches.len() + 1
            &&& new_caches.drop_last() == old_caches
            &&& new_caches.last().agent_id@ == agent
            &&& new_caches.last().text@ == text
            &&& new_caches.last().cursor == cursor
        },
    }
}

proof fn lemma_slot_update(s: Seq<SessionAutonomyState>, id: Seq<char>, r0: SessionAutonomyState, r1: SessionAutonomyState)
    requires
        r0.key_view() == id,
        r1.key_view() == id,
        keyed_index(s, id, 0) is Some ==> r0 == s[autonomy_slot(s, id)],
    ensures
        autonomy_updated(
            s,
            (if keyed_index(s, id, 0) is Some { s } else { s.push(r0) }).update(autonomy_slot(s, id), r1),
            id,
            autonomy_view(r1),
        ),
{
    crate::model::keyed::lemma_keyed_index_found(s, id, 0);
}

proof fn lemma_index_at(t: Seq<SessionAutonomyState>, key: Seq<char>, j: int, i: int)
    requires
        0 <= j <= i < t.len(),
        t[i].key_view() == key,
        forall|m: int| j <= m < i ==> #[trigger] t[m].key_view() != key,
    ensures
        keyed_index(t, key, j) == Some(i),
    decreases i - j,
{
    if j < i {
        lemma_index_at(t, key, j + 1, i);
    }
}

/// What the mirror gives back after an update: the new contents for the
/// session updated, and for every other session what it gave before.
pub proof fn law_autonomy_read_after_write(
    s: Seq<SessionAutonomyState>,
    t: Seq<SessionAutonomyState>,
    id: Seq<char>,
    v: AutonomyView,
    other: Seq<char>,
)
    requires
        autonomy_updated(s, t, id, v),
    ensures
        current_autonomy(t, id) == v,
        other != id ==> current_autonomy(t, other) == current_autonomy(s, other),
{
    let i = autonomy_slot(s, id);
    crate::model::keyed::lemma_keyed_index_found(s, id, 0);
    assert forall|m: int| 0 <= m < i implies #[trigger] t[m].key_view() != id by {
        assert(t[m] == s[m]);
    }
    lemma_index_at(t, id, 0, i);
    if other != id {
        match keyed_index(s, id, 0) {
            Some(_) => {
                assert forall|m: int| 0 <= m < s.len() implies #[trigger] s[m].key_view() == t[m].key_view() by {
                    if m != i {
                        assert(t[m] == s[m]);
                    }
                }
                crate::model::keyed::lemma_keyed_index_same_keys(s, t, other, 0);
                crate::model::keyed::lemma_keyed_index_found(s, other, 0);
                match keyed_index(s, other, 0) {
                    Some(k) => {
                        assert(k != i);
                        assert(t[k] == s[k]);
                    },
                    None => {},
                }
            },
            None => {
                assert(t =~= s.push(t[i]));
                crate::model::keyed::lemma_keyed_index_push(s, t[i], other, 0);
                crate::model::keyed::lemma_keyed_index_found(s, other, 0);
                match keyed_index(s, other, 0) {
                    Some(k) => {
                        assert(t[k] == s[k]);
                    },
                    None => {},
                }
            },
        }
    }
}

impl SessionAutonomyState {
    /// An entry for `session_id` with nothing reported yet.
    pub fn new(session_id: SessionKey) -> (r: Self)
        ensures
            r.session_id == session_id,
            autonomy_view(r) == empty_autonomy(),
    {
        let r = SessionAutonomyState {
            session_id,
            agents: Vec::new(),
            agent_outputs: Vec::new(),
            agent_artifacts: Vec::new(),
            goal: None,
            goal_transition_actor: None,
            loops: Vec::new(),
        };
        proof {
            assert(autonomy_view(r).agents =~= Seq::<AgentRecord>::empty());
            assert(autonomy_view(r).agent_outputs =~= Seq::<AutonomyAgentOutputCache>::empty());
            assert(autonomy_view(r).agent_artifacts =~= Seq::<AutonomyAgentArtifactCache>::empty());
            assert(autonomy_view(r).loops =~= Seq::<LoopRecord>::empty());
        }
        r
    }
}

/// The mirror of every session, and the hydration commands waiting to be
/// sent (of type `C`).
#[derive(Debug)]
pub struct AutonomyMirror<C> {
    pub session_autonomy: Vec<SessionAutonomyState>,
    pub pending_autonomy_hydration: Vec<C>,
}

impl<C> AutonomyMirror<C> {
    /// Nothing mirrored, nothing pending.
    pub fn new() -> (r: Self)
        ensures
            r.session_autonomy@.len() == 0,
            r.pending_autonomy_hydration@.len() == 0,
    {
        AutonomyMirror { session_autonomy: Vec::new(), pending_autonomy_hydration: Vec::new() }
    }

    /// The entry of `session_id`, if anything was reported for it.
    pub fn session_autonomy_for(&self, session_id: &SessionKey) -> (r: Option<&SessionAutonomyState>)
        ensures
            match r {
                Some(e) => keyed_lookup(self.session_autonomy@, session_id.0@) == Some(*e),
                None => keyed_lookup(self.session_autonomy@, session_id.0@) is None,
            },
    {
        keyed_find(&self.session_autonomy, session_id.0.as_str())
    }

    /// The entry of `session_id`, added empty when missing.
    pub fn session_autonomy_mut(&mut self, session_id: &SessionKey) -> (r: &mut SessionAutonomyState)
        ensures
            ({
                let s = old(self).session_autonomy@;
                let i = autonomy_slot(s, session_id.0@);
                &&& final(self).session_autonomy@ == (if keyed_index(s, session_id.0@, 0) is Some {
                    s
                } else {
                    s.push(*r)
                }).update(i, *final(r))
                &&& r.key_view() == session_id.0@
                &&& autonomy_view(*r) == current_autonomy(s, session_id.0@)
                &&& keyed_index(s, session_id.0@, 0) is Some ==> *r == s[i]
            }),
            final(self).pending_autonomy_hydration@ == old(self).pending_autonomy_hydration@,
    {
        let ghost s = self.session_autonomy@;
        let i = keyed_position(&self.session_autonomy, session_id.0.as_str());
        if i == self.session_autonomy.len() {
            let fresh = SessionAutonomyState::new(SessionKey(session_id.0.clone()));
            self.session_autonomy.push(fresh);
            proof {
                assert(self.session_autonomy@[i as int] == fresh);
            }
        } else {
            proof {
                assert(keyed_lookup(s, session_id.0@) == Some(s[i as int]));
                crate::model::keyed::lemma_keyed_index_found(s, session_id.0@, 0);
            }
        }
        &mut self.session_autonomy[i]
    }

    /// Replace the agent list of `session_id`.
    pub fn set_session_agents(&mut self, session_id: &SessionKey, agents: Vec<AgentRecord>)
        ensures
            autonomy_updated(
                old(self).session_autonomy@,
                final(self).session_autonomy@,
                session_id.0@,
                AutonomyView { agents: agents@, ..current_autonomy(old(self).session_autonomy@, session_id.0@) },
            ),
            final(self).pending_autonomy_hydration@ == old(self).pending_autonomy_hydration@,
    {
        let ghost s = self.session_autonomy@;
        let entry = self.session_autonomy_mut(session_id);
        let ghost r0 = *entry;
        entry.agents = agents;
        proof { lemma_slot_update(s, session_id.0@, r0, *entry); }
    }

    /// Replace the agent with `agent`'s id, or add it.
    pub fn upsert_session_agent(&mut self, session_id: &SessionKey, agent: AgentRecord)
        ensures
            ({
                let v = current_autonomy(old(self).session_autonomy@, session_id.0@);
                autonomy_updated(
                    old(self).session_autonomy@,
                    final(self).session_autonomy@,
                    session_id.0@,
                    AutonomyView { agents: keyed_placed(v.agents, agent), ..v },
                )
            }),
            final(self).pending_autonomy_hydration@ == old(self).pending_autonomy_hydration@,
    {
        let ghost s = self.session_autonomy@;
        let entry = self.session_autonomy_mut(session_id);
        let ghost r0 = *entry;
        keyed_place(&mut entry.agents, agent);
        proof { lemma_slot_update(s, session_id.0@, r0, *entry); }
    }

    /// Replace the loop list of `session_id`.
    pub fn set_session_loops(&mut self, session_id: &SessionKey, loops: Vec<LoopRecord>)
        ensures
            autonomy_updated(
                old(self).session_autonomy@,
                final(self).session_autonomy@,
                session_id.0@,
                AutonomyView { loops: loops@, ..current_autonomy(old(self).session_autonomy@, session_id.0@) },
            ),
            final(self).pending_autonomy_hydration@ == old(self).pending_autonomy_hydration@,
    {
        let ghost s = self.session_autonomy@;
        let entry = self.session_autonomy_mut(session_id);
        let ghost r0 = *entry;
        entry.loops = loops;
        proof { lemma_slot_update(s, session_id.0@, r0, *entry); }
    }

    /// Replace the loop with `loop_state`'s id, or add it; a `deleted` loop
    /// is removed instead, so that no tombstone is listed.
    pub fn upsert_session_loop(&mut self, session_id: &SessionKey, loop_state: LoopRecord)
        ensures
            ({
                let v = current_autonomy(old(self).session_autonomy@, session_id.0@);
                autonomy_updated(
                    old(self).session_autonomy@,
                    final(self).session_autonomy@,
                    session_id.0@,
                    AutonomyView {
                        loops: if loop_state.status@ == "deleted"@ {
                            without_key(v.loops, loop_state.loop_id@)
                        } else {
                            keyed_placed(v.loops, loop_state)
                        },
                        ..v
                    },
                )
            }),
            final(self).pending_autonomy_hydration@ == old(self).pending_autonomy_hydration@,
    {
        let ghost s = self.session_autonomy@;
        let entry = self.session_autonomy_mut(session_id);
        let ghost r0 = *entry;
        proof { reveal_strlit("deleted"); }
        if str_eq(loop_state.status.as_str(), "deleted") {
            keyed_remove_all(&mut entry.loops, loop_state.loop_id.as_str());
            proof { lemma_slot_update(s, session_id.0@, r0, *entry); }
            return;
        }
        keyed_place(&mut entry.loops, loop_state);
        proof { lemma_slot_update(s, session_id.0@, r0, *entry); }
    }

    /// Remove the loops with id `loop_id` from a session already mirrored;
    /// nothing changes for a session not mirrored.
    pub fn remove_session_loop(&mut self, session_id: &SessionKey, loop_id: &str)
        ensures
            keyed_index(old(self).session_autonomy@, session_id.0@, 0) is None ==> final(self).session_autonomy@
                == old(self).session_autonomy@,
            keyed_index(old(self).session_autonomy@, session_id.0@, 0) is Some ==> ({
                let v = current_autonomy(old(self).session_autonomy@, session_id.0@);
                autonomy_updated(
                    old(self).session_autonomy@,
                    final(self).session_autonomy@,
                    session_id.0@,
                    AutonomyView { loops: without_key(v.loops, loop_id@), ..v },
                )
            }),
            final(self).pending_autonomy_hydration@ == old(self).pending_autonomy_hydration@,
    {
        let i = keyed_position(&self.session_autonomy, session_id.0.as_str());
        if i < self.session_autonomy.len() {
            let ghost s = self.session_autonomy@;
            let entry = self.session_autonomy_mut(session_id);
            let ghost r0 = *entry;
            keyed_remove_all(&mut entry.loops, loop_id);
            proof { lemma_slot_update(s, session_id.0@, r0, *entry); }
        }
    }

    /// Set or clear the goal of `session_id`, with who changed it last.
    pub fn set_session_goal(&mut self, session_id: &SessionKey, goal: Option<JsonValue>, transition_actor: Option<String>)
        ensures
            autonomy_updated(
                old(self).session_autonomy@,
                final(self).session_autonomy@,
                session_id.0@,
                AutonomyView {
                    goal,
                    goal_transition_actor: transition_actor,
                    ..current_autonomy(old(self).session_autonomy@, session_id.0@)
                },
            ),
            final(self).pending_autonomy_hydration@ == old(self).pending_autonomy_hydration@,
    {
        let ghost s = self.session_autonomy@;
        let entry = self.session_autonomy_mut(session_id);
        let ghost r0 = *entry;
        entry.goal = goal;
        entry.goal_transition_actor = transition_actor;
        proof { lemma_slot_update(s, session_id.0@, r0, *entry); }
    }

    /// Replace the cached output of `agent_id` with `text`, ending at
    /// `cursor`.
    pub fn set_agent_output(&mut self, session_id: &SessionKey, agent_id: &str, text: String, cursor: OutputCursor)
        ensures
            exists|cache: AutonomyAgentOutputCache|
                cache.agent_id@ == agent_id@ && cache.text == text && cache.cursor == cursor && ({
                    let v = current_autonomy(old(self).session_autonomy@, session_id.0@);
                    autonomy_updated(
                        old(self).session_autonomy@,
                        final(self).session_autonomy@,
                        session_id.0@,
                        AutonomyView { agent_outputs: keyed_placed(v.agent_outputs, cache), ..v },
                    )
                }),
            final(self).pending_autonomy_hydration@ == old(self).pending_autonomy_hydration@,
    {
        let ghost s = self.session_autonomy@;
        let entry = self.session_autonomy_mut(session_id);
        let ghost r0 = *entry;
        let cache = AutonomyAgentOutputCache { agent_id: String::from_str(agent_id), text, cursor };
        let ghost c = cache;
        keyed_place(&mut entry.agent_outputs, cache);
        proof {
            assert(c.agent_id@ == agent_id@);
            lemma_slot_update(s, session_id.0@, r0, *entry);
        }
    }

    /// Append an output delta of `agent_id` (see [`appended_outputs`]).
    pub fn append_agent_output(&mut self, session_id: &SessionKey, agent_id: &str, cursor: OutputCursor, text: &str)
        ensures
            ({
                let v = current_autonomy(old(self).session_autonomy@, session_id.0@);
                let i = autonomy_slot(old(self).session_autonomy@, session_id.0@);
                let w = autonomy_view(final(self).session_autonomy@[i]);
                &&& autonomy_updated(
                    old(self).session_autonomy@,
                    final(self).session_autonomy@,
                    session_id.0@,
                    AutonomyView { agent_outputs: w.agent_outputs, ..v },
                )
                &&& appended_outputs(v.agent_outputs, w.agent_outputs, agent_id@, cursor, text@)
            }),
            final(self).pending_autonomy_hydration@ == old(self).pending_autonomy_hydration@,
    {
        let ghost s = self.session_autonomy@;
        let entry = self.session_autonomy_mut(session_id);
        let ghost r0 = *entry;
        let p = keyed_position(&entry.agent_outputs, agent_id);
        if p < entry.agent_outputs.len() {
            let mut cache = entry.agent_outputs.remove(p);
            if cursor.offset < cache.cursor.offset {
                cache.text = String::from_str(text);
            } else {
                cache.text.append(text);
            }
            cache.cursor = cursor;
            entry.agent_outputs.insert(p, cache);
            proof {
                assert(entry.agent_outputs@.len() == r0.agent_outputs@.len());
                assert forall|j: int| 0 <= j < r0.agent_outputs@.len() && j != p implies
                    #[trigger] entry.agent_outputs@[j] == r0.agent_outputs@[j] by {}
            }
        } else {
            entry.agent_outputs.push(AutonomyAgentOutputCache {
                agent_id: String::from_str(agent_id),
                text: String::from_str(text),
                cursor,
            });
            proof { assert(entry.agent_outputs@.drop_last() =~= r0.agent_outputs@); }
        }
        proof { lemma_slot_update(s, session_id.0@, r0, *entry); }
    }

    /// Replace the artifact list cached for `agent_id`.
    pub fn set_agent_artifacts(&mut self, session_id: &SessionKey, agent_id: &str, artifacts: Vec<JsonValue>)
        ensures
            exists|cache: AutonomyAgentArtifactCache|
                cache.agent_id@ == agent_id@ && cache.artifacts == artifacts && ({
                    let v = current_autonomy(old(self).session_autonomy@, session_id.0@);
                    autonomy_updated(
                        old(self).session_autonomy@,
                        final(self).session_autonomy@,
                        session_id.0@,
                        AutonomyView { agent_artifacts: keyed_placed(v.agent_artifacts, cache), ..v },
                    )
                }),
            final(self).pending_autonomy_hydration@ == old(self).pending_autonomy_hydration@,
    {
        let ghost s = self.session_autonomy@;
        let entry = self.session_autonomy_mut(session_id);
        let ghost r0 = *entry;
        let cache = AutonomyAgentArtifactCache { agent_id: String::from_str(agent_id), artifacts };
        let ghost c = cache;
        keyed_place(&mut entry.agent_artifacts, cache);
        proof {
            assert(c.agent_id@ == agent_id@);
            lemma_slot_update(s, session_id.0@, r0, *entry);
        }
    }

    /// Queue a hydration command; a full queue drops its oldest first.
    pub fn enqueue_autonomy_hydration(&mut self, command: C)
        ensures
            final(self).pending_autonomy_hydration@ == (if old(self).pending_autonomy_hydration@.len()
                >= MAX_PENDING_HYDRATION {
                old(self).pending_autonomy_hydration@.drop_first()
            } else {
                old(self).pending_autonomy_hydration@
            }).push(command),
            final(self).session_autonomy@ == old(self).session_autonomy@,
    {
        if self.pending_autonomy_hydration.len() >= MAX_PENDING_HYDRATION {
            let ghost before = self.pending_autonomy_hydration@;
            let _oldest = self.pending_autonomy_hydration.remove(0);
            proof { assert(self.pending_autonomy_hydration@ =~= before.drop_first()); }
        }
        self.pending_autonomy_hydration.push(command);
    }

    /// Take the oldest queued hydration command.
    pub fn dequeue_autonomy_hydration(&mut self) -> (r: Option<C>)
        ensures
            old(self).pending_autonomy_hydration@.len() == 0 ==> r is None
                && final(self).pending_autonomy_hydration@ == old(self).pending_autonomy_hydration@,
            old(self).pending_autonomy_hydration@.len() > 0 ==> r == Some(old(self).pending_autonomy_hydration@[0])
                && final(self).pending_autonomy_hydration@ == old(self).pending_autonomy_hydration@.drop_first(),
            final(self).session_autonomy@ == old(self).session_autonomy@,
    {
        if self.pending_autonomy_hydration.len() == 0 {
            None
        } else {
            let ghost before = self.pending_autonomy_hydration@;
            let c = self.pending_autonomy_hydration.remove(0);
            proof { assert(self.pending_autonomy_hydration@ =~= before.drop_first()); }
            Some(c)
        }
    }
}

} // verus!
