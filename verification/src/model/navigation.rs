//! Moving between sessions and tasks. Leaving a session saves the
//! composer's text as its draft and entering one loads its draft; the
//! run state follows the selected session. Times are seconds on a clock
//! the caller reads.

use vstd::prelude::*;
use crate::model::diff::SessionKey;
use crate::model::panes::{SessionRunState, ring_next, ring_prev, ring_step_next, ring_step_prev, law_ring_round_trip};
use crate::model::composer_edit::ComposerState;
use crate::model::drafts::{drafts_view, spec_persist, spec_load, DraftsModel, drafts_wf, law_switch_away_and_back_restores_draft};

verus! {

/// What navigation reads of a session: its id, how many tasks it has, and
/// whether a reply is streaming into it.
#[derive(Debug, Clone, PartialEq, Eq)]
pub struct SessionSummary {
    pub id: SessionKey,
    pub task_count: usize,
    pub live_reply: bool,
}

/// The selected session's run state and when it last became active.
#[derive(Debug, Clone, PartialEq, Eq)]
pub struct RunStateClock {
    pub run_state: SessionRunState,
    pub run_state_started_at: Option<u64>,
}

pub open spec fn is_active(s: SessionRunState) -> bool {
    s is InProgress || s is Blocked
}

/// The start time after entering an active state at `now`: kept when the
/// state already was active.
pub open spec fn active_since(old: RunStateClock, now: u64) -> Option<u64> {
    if is_active(old.run_state) { old.run_state_started_at } else { Some(now) }
}

/// The run state of a freshly selected session: running while a reply
/// streams into it, idle otherwise; an active state starts at `now`.
pub open spec fn spec_refreshed(live_reply: bool, now: u64) -> RunStateClock {
    if live_reply {
        RunStateClock { run_state: SessionRunState::InProgress, run_state_started_at: Some(now) }
    } else {
        RunStateClock { run_state: SessionRunState::Idle, run_state_started_at: None }
    }
}

/// Seconds the state has been active at `now`; `None` when it is not
/// active or has no start.
pub open spec fn spec_elapsed(c: RunStateClock, now: u64) -> Option<u64> {
    match c.run_state_started_at {
        Some(s) => if is_active(c.run_state) {
            Some(if now >= s { (now - s) as u64 } else { 0 })
        } else {
            None
        },
        None => None,
    }
}

impl RunStateClock {
    pub fn new() -> (r: Self)
        ensures
            r.run_state is Idle,
            r.run_state_started_at.is_none(),
    {
        RunStateClock { run_state: SessionRunState::Idle, run_state_started_at: None }
    }

    pub fn set_run_state_idle(&mut self)
        ensures
            final(self).run_state is Idle,
            final(self).run_state_started_at.is_none(),
    {
        self.run_state = SessionRunState::Idle;
        self.run_state_started_at = None;
    }

    /// Running; the start time is kept when already active.
    pub fn set_run_state_in_progress(&mut self, now: u64)
        ensures
            final(self).run_state is InProgress,
            final(self).run_state_started_at == active_since(*old(self), now),
    {
        if !self.run_state.is_active() {
            self.run_state_started_at = Some(now);
        }
        self.run_state = SessionRunState::InProgress;
    }

    /// Waiting on the user; the start time is kept when already active.
    pub fn set_run_state_blocked(&mut self, message: String, now: u64)
        ensures
            final(self).run_state == (SessionRunState::Blocked { message }),
            final(self).run_state_started_at == active_since(*old(self), now),
    {
        if !self.run_state.is_active() {
            self.run_state_started_at = Some(now);
        }
        self.run_state = SessionRunState::Blocked { message };
    }

    pub fn set_run_state_success(&mut self)
        ensures
            final(self).run_state is Success,
            final(self).run_state_started_at.is_none(),
    {
        self.run_state = SessionRunState::Success;
        self.run_state_started_at = None;
    }

    pub fn set_run_state_error(&mut self, message: String)
        ensures
            final(self).run_state == (SessionRunState::Error { message }),
            final(self).run_state_started_at.is_none(),
    {
        self.run_state = SessionRunState::Error { message };
        self.run_state_started_at = None;
    }

    /// The run state of a freshly selected session (see
    /// [`spec_refreshed`]).
    pub fn refresh_run_state_from_selection(&mut self, live_reply: bool, now: u64)
        ensures
            *final(self) == spec_refreshed(live_reply, now),
    {
        if live_reply {
            self.run_state = SessionRunState::InProgress;
            self.run_state_started_at = Some(now);
        } else {
            self.run_state = SessionRunState::Idle;
            self.run_state_started_at = None;
        }
    }

    /// Seconds active at `now` (see [`spec_elapsed`]).
    pub fn run_state_elapsed_secs(&self, now: u64) -> (r: Option<u64>)
        ensures
            r == spec_elapsed(*self, now),
    {
        match self.run_state_started_at {
            Some(s) => if self.run_state.is_active() {
                Some(now.saturating_sub(s))
            } else {
                None
            },
            None => None,
        }
    }
}

/// Staying active keeps the start time: a running session that blocks on
/// the user and resumes still counts from when it started.
pub proof fn law_active_start_is_kept(c: RunStateClock, now: u64)
    requires
        is_active(c.run_state),
    ensures
        active_since(c, now) == c.run_state_started_at,
{
}

/// A state that is not active reports no elapsed time.
pub proof fn law_inactive_has_no_elapsed(c: RunStateClock, now: u64)
    requires
        !is_active(c.run_state),
    ensures
        spec_elapsed(c, now) is None,
{
}

/// The session list, the selection, and what follows the selection.
#[derive(Debug)]
pub struct SessionNavigator {
    pub sessions: Vec<SessionSummary>,
    pub selected_session: usize,
    pub selected_task: usize,
    pub transcript_scroll: usize,
    pub composer: ComposerState,
    pub run: RunStateClock,
}

/// The id of the session at `i`, if there is one.
pub open spec fn session_id_at(sessions: Seq<SessionSummary>, i: int) -> Option<Seq<char>> {
    if 0 <= i < sessions.len() { Some(sessions[i].id.0@) } else { None }
}

/// The drafts after leaving the session at `i` with `text` typed.
pub open spec fn drafts_after_leaving(m: DraftsModel, sessions: Seq<SessionSummary>, i: int, text: Seq<char>) -> DraftsModel {
    match session_id_at(sessions, i) {
        Some(id) => spec_persist(m, id, text),
        None => m,
    }
}

/// The composer text after entering the session at `i`.
pub open spec fn text_on_entering(m: DraftsModel, sessions: Seq<SessionSummary>, i: int) -> Seq<char> {
    match session_id_at(sessions, i) {
        Some(id) => spec_load(m, id),
        None => Seq::empty(),
    }
}

/// The run state a session list opens with: running while a reply streams
/// into the selected session, idle otherwise.
pub fn initial_run_state(sessions: &Vec<SessionSummary>, selected_session: usize) -> (r: SessionRunState)
    ensures
        r == spec_refreshed(
            selected_session < sessions@.len() && sessions@[selected_session as int].live_reply,
            0,
        ).run_state,
{
    if selected_session < sessions.len() && sessions[selected_session].live_reply {
        SessionRunState::InProgress
    } else {
        SessionRunState::Idle
    }
}

/// The selection a session list opens with: the requested session, or the
/// last one when the request is past the end; 0 without sessions.
pub open spec fn opening_selection(len: int, requested: int) -> int {
    if len == 0 { 0 } else if requested < len - 1 { requested } else { len - 1 }
}

impl SessionNavigator {
    /// A session list opened on `selected_session` (see
    /// [`opening_selection`]) at time `now`: first task, latest output,
    /// empty composer, and the run state of the selected session.
    pub fn new(sessions: Vec<SessionSummary>, selected_session: usize, now: u64) -> (r: Self)
        ensures
            r.sessions@ == sessions@,
            r.selected_session == opening_selection(sessions@.len() as int, selected_session as int),
            r.selected_task == 0,
            r.transcript_scroll == 0,
            r.composer.composer@ == Seq::<char>::empty(),
            r.composer.composer_cursor.is_none(),
            r.composer.composer_drafts@.len() == 0,
            r.run == spec_refreshed(
                r.selected_session < sessions@.len() && sessions@[r.selected_session as int].live_reply,
                now,
            ),
    {
        let selected_session = if sessions.len() == 0 {
            0
        } else if selected_session < sessions.len() - 1 {
            selected_session
        } else {
            sessions.len() - 1
        };
        let run_state = initial_run_state(&sessions, selected_session);
        let run_state_started_at = if run_state.is_active() { Some(now) } else { None };
        SessionNavigator {
            sessions,
            selected_session,
            selected_task: 0,
            transcript_scroll: 0,
            composer: ComposerState::new(),
            run: RunStateClock { run_state, run_state_started_at },
        }
    }

    /// The selected session, if the selection is within the list.
    pub fn active_session(&self) -> (r: Option<&SessionSummary>)
        ensures
            match r {
                Some(s) => 0 <= self.selected_session < self.sessions@.len()
                    && *s == self.sessions@[self.selected_session as int],
                None => self.selected_session >= self.sessions@.len(),
            },
    {
        if self.selected_session < self.sessions.len() {
            Some(&self.sessions[self.selected_session])
        } else {
            None
        }
    }

    fn switch_to(&mut self, target: usize, now: u64)
        ensures
            final(self).sessions@ == old(self).sessions@,
            final(self).selected_session == target,
            final(self).selected_task == 0,
            final(self).transcript_scroll == 0,
            drafts_view(final(self).composer.composer_drafts@) == drafts_after_leaving(
                drafts_view(old(self).composer.composer_drafts@),
                old(self).sessions@,
                old(self).selected_session as int,
                old(self).composer.composer@,
            ),
            final(self).composer.composer@ == text_on_entering(
                drafts_view(final(self).composer.composer_drafts@),
                old(self).sessions@,
                target as int,
            ),
            final(self).composer.composer_cursor.is_none(),
            final(self).run == spec_refreshed(
                target < old(self).sessions@.len() && old(self).sessions@[target as int].live_reply,
                now,
            ),
    {
        let leaving = if self.selected_session < self.sessions.len() {
            Some(&self.sessions[self.selected_session].id)
        } else {
            None
        };
        self.composer.persist_composer_draft_for_selected_session(leaving);
        self.selected_session = target;
        self.selected_task = 0;
        self.transcript_scroll = 0;
        let entering = if target < self.sessions.len() { Some(&self.sessions[target].id) } else { None };
        self.composer.load_composer_draft_for_selected_session(entering);
        let live = target < self.sessions.len() && self.sessions[target].live_reply;
        self.run.refresh_run_state_from_selection(live, now);
    }

    /// Select the next session (wrapping), keeping the drafts: the text
    /// being typed is saved for the session left and the draft of the
    /// session entered is loaded. Nothing happens without sessions.
    pub fn select_next_session(&mut self, now: u64)
        requires
            old(self).selected_session < usize::MAX,
        ensures
            old(self).sessions@.len() == 0 ==> final(self).selected_session == old(self).selected_session
                && final(self).selected_task == old(self).selected_task
                && final(self).transcript_scroll == old(self).transcript_scroll
                && final(self).composer == old(self).composer && final(self).run == old(self).run,
            old(self).sessions@.len() > 0 ==> final(self).selected_session == ring_next(
                old(self).selected_session as int,
                old(self).sessions@.len() as int,
            ) && final(self).selected_task == 0 && final(self).transcript_scroll == 0
                && drafts_view(final(self).composer.composer_drafts@) == drafts_after_leaving(
                drafts_view(old(self).composer.composer_drafts@),
                old(self).sessions@,
                old(self).selected_session as int,
                old(self).composer.composer@,
            ) && final(self).composer.composer@ == text_on_entering(
                drafts_view(final(self).composer.composer_drafts@),
                old(self).sessions@,
                final(self).selected_session as int,
            ) && final(self).composer.composer_cursor.is_none()
                && final(self).run == spec_refreshed(
                old(self).sessions@[final(self).selected_session as int].live_reply,
                now,
            ),
            final(self).sessions@ == old(self).sessions@,
    {
        if self.sessions.len() == 0 {
            return;
        }
        let target = ring_step_next(self.selected_session, self.sessions.len());
        self.switch_to(target, now);
    }

    /// Select the previous session (wrapping), keeping the drafts as
    /// [`SessionNavigator::select_next_session`] does.
    pub fn select_prev_session(&mut self, now: u64)
        ensures
            old(self).sessions@.len() == 0 ==> final(self).selected_session == old(self).selected_session
                && final(self).selected_task == old(self).selected_task
                && final(self).transcript_scroll == old(self).transcript_scroll
                && final(self).composer == old(self).composer && final(self).run == old(self).run,
            old(self).sessions@.len() > 0 ==> final(self).selected_session == ring_prev(
                old(self).selected_session as int,
                old(self).sessions@.len() as int,
            ) && final(self).selected_task == 0 && final(self).transcript_scroll == 0
                && drafts_view(final(self).composer.composer_drafts@) == drafts_after_leaving(
                drafts_view(old(self).composer.composer_drafts@),
                old(self).sessions@,
                old(self).selected_session as int,
                old(self).composer.composer@,
            ) && final(self).composer.composer@ == text_on_entering(
                drafts_view(final(self).composer.composer_drafts@),
                old(self).sessions@,
                final(self).selected_session as int,
            ) && final(self).composer.composer_cursor.is_none()
                && final(self).run == spec_refreshed(
                final(self).selected_session < old(self).sessions@.len()
                    && old(self).sessions@[final(self).selected_session as int].live_reply,
                now,
            ),
            final(self).sessions@ == old(self).sessions@,
    {
        if self.sessions.len() == 0 {
            return;
        }
        let target = ring_step_prev(self.selected_session, self.sessions.len());
        self.switch_to(target, now);
    }

    /// Select the next task of the selected session (wrapping); nothing
    /// without a session or tasks.
    pub fn select_next_task(&mut self)
        requires
            old(self).selected_task < usize::MAX,
        ensures
            final(self).selected_task == (if old(self).selected_session < old(self).sessions@.len()
                && old(self).sessions@[old(self).selected_session as int].task_count > 0 {
                ring_next(
                    old(self).selected_task as int,
                    old(self).sessions@[old(self).selected_session as int].task_count as int,
                )
            } else {
                old(self).selected_task as int
            }),
            final(self).selected_session == old(self).selected_session,
            final(self).sessions@ == old(self).sessions@,
    {
        if self.selected_session >= self.sessions.len() {
            return;
        }
        let count = self.sessions[self.selected_session].task_count;
        if count == 0 {
            return;
        }
        self.selected_task = ring_step_next(self.selected_task, count);
    }

    /// Select the previous task of the selected session (wrapping).
    pub fn select_prev_task(&mut self)
        ensures
            final(self).selected_task == (if old(self).selected_session < old(self).sessions@.len()
                && old(self).sessions@[old(self).selected_session as int].task_count > 0 {
                ring_prev(
                    old(self).selected_task as int,
                    old(self).sessions@[old(self).selected_session as int].task_count as int,
                )
            } else {
                old(self).selected_task as int
            }),
            final(self).selected_session == old(self).selected_session,
            final(self).sessions@ == old(self).sessions@,
    {
        if self.selected_session >= self.sessions.len() {
            return;
        }
        let count = self.sessions[self.selected_session].task_count;
        if count == 0 {
            return;
        }
        self.selected_task = ring_step_prev(self.selected_task, count);
    }
}

/// Stepping to the next session and straight back gives back the text
/// that was being typed: it was saved as a draft on leaving and loaded on
/// return.
pub proof fn law_next_then_prev_restores_composer(
    m: DraftsModel,
    sessions: Seq<SessionSummary>,
    selected: int,
    text: Seq<char>,
)
    requires
        0 <= selected < sessions.len(),
        drafts_wf(m),
    ensures
        ({
            let len = sessions.len() as int;
            let next = ring_next(selected, len);
            let d1 = drafts_after_leaving(m, sessions, selected, text);
            let t1 = text_on_entering(d1, sessions, next);
            let d2 = drafts_after_leaving(d1, sessions, next, t1);
            &&& ring_prev(next, len) == selected
            &&& text_on_entering(d2, sessions, ring_prev(next, len)) == text
        }),
{
    let len = sessions.len() as int;
    law_ring_round_trip(selected, len);
    let next = ring_next(selected, len);
    let a = sessions[selected].id.0@;
    let b = sessions[next].id.0@;
    law_switch_away_and_back_restores_draft(m, a, b, text);
}

} // verus!
