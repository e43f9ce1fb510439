//! The full-screen view of one task's output, and where each task's output
//! stream was last read up to, so that reading resumes there.

use vstd::prelude::*;
use crate::json::str_eq;
use crate::model::diff::SessionKey;
use crate::model::autonomy::OutputCursor;
use crate::model::panes::{sat_add, sat_sub};

verus! {

/// The task output view: which task it shows, its title and output, how
/// far the output stream was read, and the scroll.
#[derive(Debug, Clone, PartialEq, Eq)]
pub struct TaskOutputDetailState {
    pub active: bool,
    pub session_id: Option<SessionKey>,
    pub task_id: Option<String>,
    pub title: String,
    pub output: String,
    pub cursor: Option<OutputCursor>,
    pub scroll: usize,
}

/// Whether the view is closed and empty.
pub open spec fn task_output_closed(s: TaskOutputDetailState) -> bool {
    &&& !s.active
    &&& s.session_id is None
    &&& s.task_id is None
    &&& s.title@.len() == 0
    &&& s.output@.len() == 0
    &&& s.cursor is None
    &&& s.scroll == 0
}

impl Default for TaskOutputDetailState {
    fn default() -> (r: Self)
        ensures
            task_output_closed(r),
    {
        TaskOutputDetailState {
            active: false,
            session_id: None,
            task_id: None,
            title: String::new(),
            output: String::new(),
            cursor: None,
            scroll: 0,
        }
    }
}

impl TaskOutputDetailState {
    /// Show `output` of `session_id`'s task `task_id` from the top.
    pub fn open(
        &mut self,
        session_id: SessionKey,
        task_id: String,
        title: String,
        output: String,
        cursor: Option<OutputCursor>,
    )
        ensures
            final(self).active,
            final(self).session_id == Some(session_id),
            final(self).task_id == Some(task_id),
            final(self).title == title,
            final(self).output == output,
            final(self).cursor == cursor,
            final(self).scroll == 0,
    {
        self.active = true;
        self.session_id = Some(session_id);
        self.task_id = Some(task_id);
        self.title = title;
        self.output = output;
        self.cursor = cursor;
        self.scroll = 0;
    }

    /// Close the view and forget what it showed.
    pub fn close(&mut self)
        ensures
            task_output_closed(*final(self)),
    {
        *self = Self::default();
    }

    /// Whether the view is open on `session_id`'s task `task_id`.
    pub fn is_for(&self, session_id: &SessionKey, task_id: &str) -> (r: bool)
        ensures
            r == (self.active && (self.session_id matches Some(s) && s.0@ == session_id.0@)
                && (self.task_id matches Some(t) && t@ == task_id@)),
    {
        if !self.active {
            return false;
        }
        let same_session = match &self.session_id {
            Some(s) => str_eq(s.0.as_str(), session_id.0.as_str()),
            None => false,
        };
        let same_task = match &self.task_id {
            Some(t) => str_eq(t.as_str(), task_id),
            None => false,
        };
        same_session && same_task
    }

    /// Append newly read output, note where the stream now ends, and
    /// scroll back to the latest output.
    pub fn append_output(&mut self, text: &str, cursor: OutputCursor)
        ensures
            final(self).output@ == old(self).output@ + text@,
            final(self).cursor == Some(cursor),
            final(self).scroll == 0,
            final(self).active == old(self).active,
            final(self).session_id == old(self).session_id,
            final(self).task_id == old(self).task_id,
            final(self).title == old(self).title,
    {
        self.output.append(text);
        self.cursor = Some(cursor);
        self.scroll = 0;
    }

    /// Scroll up by `lines`, stopping at 0.
    pub fn scroll_up(&mut self, lines: usize)
        ensures
            final(self).scroll == sat_sub(old(self).scroll as int, lines as int),
            final(self).output == old(self).output,
    {
        self.scroll = self.scroll.saturating_sub(lines);
    }

    /// Scroll down by `lines`, stopping at `usize::MAX`.
    pub fn scroll_down(&mut self, lines: usize)
        ensures
            final(self).scroll == sat_add(old(self).scroll as int, lines as int),
            final(self).output == old(self).output,
    {
        self.scroll = self.scroll.saturating_add(lines);
    }
}

/// Where one task's output stream was last read up to.
#[derive(Debug, Clone, PartialEq, Eq)]
pub struct TaskOutputCursor {
    pub session_id: SessionKey,
    pub task_id: String,
    pub cursor: OutputCursor,
}

/// Index of the first cursor of `session`'s task `task` at or after `j`.
pub open spec fn cursor_index(s: Seq<TaskOutputCursor>, session: Seq<char>, task: Seq<char>, j: int) -> Option<int>
    decreases s.len() - j,
{
    if j < 0 || j >= s.len() {
        None
    } else if s[j].session_id.0@ == session && s[j].task_id@ == task {
        Some(j)
    } else {
        cursor_index(s, session, task, j + 1)
    }
}

/// The cursor recorded for `session`'s task `task`.
pub open spec fn recorded_cursor(s: Seq<TaskOutputCursor>, session: Seq<char>, task: Seq<char>) -> Option<OutputCursor> {
    match cursor_index(s, session, task, 0) {
        Some(i) => Some(s[i].cursor),
        None => None,
    }
}

/// The read positions of the task output streams.
#[derive(Debug)]
pub struct TaskOutputCursors {
    pub task_output_cursors: Vec<TaskOutputCursor>,
}

fn cursor_position(s: &Vec<TaskOutputCursor>, session_id: &SessionKey, task_id: &str) -> (r: usize)
    ensures
        r <= s@.len(),
        r < s@.len() <==> cursor_index(s@, session_id.0@, task_id@, 0) is Some,
        r < s@.len() ==> cursor_index(s@, session_id.0@, task_id@, 0) == Some(r as int),
{
    let mut i: usize = 0;
    while i < s.len()
        invariant
            i <= s@.len(),
            cursor_index(s@, session_id.0@, task_id@, 0) == cursor_index(s@, session_id.0@, task_id@, i as int),
        decreases s@.len() - i,
    {
        if str_eq(s[i].session_id.0.as_str(), session_id.0.as_str()) && str_eq(s[i].task_id.as_str(), task_id) {
            return i;
        }
        i += 1;
    }
    i
}

proof fn lemma_cursor_index_bounds(s: Seq<TaskOutputCursor>, session: Seq<char>, task: Seq<char>, j: int)
    ensures
        cursor_index(s, session, task, j) matches Some(i) ==> 0 <= j <= i < s.len() && s[i].session_id.0@ == session
            && s[i].task_id@ == task && forall|m: int| j <= m < i ==> !(#[trigger] s[m].session_id.0@ == session
                && s[m].task_id@ == task),
        cursor_index(s, session, task, j) is None && 0 <= j ==> forall|m: int| j <= m < s.len() ==> !(
            #[trigger] s[m].session_id.0@ == session && s[m].task_id@ == task),
    decreases s.len() - j,
{
    if 0 <= j < s.len() && !(s[j].session_id.0@ == session && s[j].task_id@ == task) {
        lemma_cursor_index_bounds(s, session, task, j + 1);
    }
}

proof fn lemma_cursor_index_at(s: Seq<TaskOutputCursor>, session: Seq<char>, task: Seq<char>, j: int, i: int)
    requires
        0 <= j <= i < s.len(),
        s[i].session_id.0@ == session && s[i].task_id@ == task,
        forall|m: int| j <= m < i ==> !(#[trigger] s[m].session_id.0@ == session && s[m].task_id@ == task),
    ensures
        cursor_index(s, session, task, j) == Some(i),
    decreases i - j,
{
    if j < i {
        lemma_cursor_index_at(s, session, task, j + 1, i);
    }
}

proof fn lemma_cursor_index_same_keys(s: Seq<TaskOutputCursor>, t: Seq<TaskOutputCursor>, session: Seq<char>, task: Seq<char>, j: int)
    requires
        s.len() <= t.len(),
        forall|m: int| 0 <= m < s.len() ==> (#[trigger] t[m]).session_id == s[m].session_id && t[m].task_id == s[m].task_id,
        forall|m: int| s.len() <= m < t.len() ==> !(#[trigger] t[m].session_id.0@ == session && t[m].task_id@ == task),
    ensures
        cursor_index(s, session, task, j) == cursor_index(t, session, task, j),
    decreases t.len() - j,
{
    if 0 <= j < t.len() {
        lemma_cursor_index_same_keys(s, t, session, task, j + 1);
    }
}

impl TaskOutputCursors {
    /// No stream read yet.
    pub fn new() -> (r: Self)
        ensures
            r.task_output_cursors@.len() == 0,
    {
        TaskOutputCursors { task_output_cursors: Vec::new() }
    }

    /// Record where `session_id`'s task `task_id` was read up to,
    /// replacing an earlier position.
    pub fn set_task_output_cursor(&mut self, session_id: SessionKey, task_id: String, cursor: OutputCursor)
        ensures
            match cursor_index(old(self).task_output_cursors@, session_id.0@, task_id@, 0) {
                Some(i) => final(self).task_output_cursors@ == old(self).task_output_cursors@.update(
                    i,
                    TaskOutputCursor { cursor, ..old(self).task_output_cursors@[i] },
                ),
                None => final(self).task_output_cursors@ == old(self).task_output_cursors@.push(
                    TaskOutputCursor { session_id, task_id, cursor },
                ),
            },
    {
        let i = cursor_position(&self.task_output_cursors, &session_id, task_id.as_str());
        if i < self.task_output_cursors.len() {
            self.task_output_cursors[i].cursor = cursor;
        } else {
            self.task_output_cursors.push(TaskOutputCursor { session_id, task_id, cursor });
        }
    }

    /// Where `session_id`'s task `task_id` was read up to.
    pub fn task_output_cursor(&self, session_id: &SessionKey, task_id: &str) -> (r: Option<OutputCursor>)
        ensures
            r == recorded_cursor(self.task_output_cursors@, session_id.0@, task_id@),
    {
        let i = cursor_position(&self.task_output_cursors, session_id, task_id);
        if i < self.task_output_cursors.len() {
            Some(self.task_output_cursors[i].cursor)
        } else {
            None
        }
    }
}

/// What a read gives back after recording a position: that position for
/// that task, and the earlier answer for every other task.
pub proof fn law_cursor_read_after_write(
    s: Seq<TaskOutputCursor>,
    t: Seq<TaskOutputCursor>,
    session: SessionKey,
    task: String,
    cursor: OutputCursor,
    other_session: Seq<char>,
    other_task: Seq<char>,
)
    requires
        t == (match cursor_index(s, session.0@, task@, 0) {
            Some(i) => s.update(i, TaskOutputCursor { cursor, ..s[i] }),
            None => s.push(TaskOutputCursor { session_id: session, task_id: task, cursor }),
        }),
    ensures
        recorded_cursor(t, session.0@, task@) == Some(cursor),
        !(other_session == session.0@ && other_task == task@) ==> recorded_cursor(t, other_session, other_task)
            == recorded_cursor(s, other_session, other_task),
{
    lemma_cursor_index_bounds(s, session.0@, task@, 0);
    lemma_cursor_index_bounds(s, other_session, other_task, 0);
    match cursor_index(s, session.0@, task@, 0) {
        Some(i) => {
            assert forall|m: int| 0 <= m < i implies !(#[trigger] t[m].session_id.0@ == session.0@ && t[m].task_id@ == task@) by {
                assert(t[m] == s[m]);
            }
            lemma_cursor_index_at(t, session.0@, task@, 0, i);
            lemma_cursor_index_same_keys(s, t, other_session, other_task, 0);
            match cursor_index(s, other_session, other_task, 0) {
                Some(k) => {
                    if !(other_session == session.0@ && other_task == task@) {
                        assert(k != i);
                        assert(t[k] == s[k]);
                    }
                },
                None => {},
            }
        },
        None => {
            let n = s.len() as int;
            assert forall|m: int| 0 <= m < n implies !(#[trigger] t[m].session_id.0@ == session.0@ && t[m].task_id@ == task@) by {
                assert(t[m] == s[m]);
            }
            lemma_cursor_index_at(t, session.0@, task@, 0, n);
            if !(other_session == session.0@ && other_task == task@) {
                lemma_cursor_index_same_keys(s, t, other_session, other_task, 0);
                match cursor_index(s, other_session, other_task, 0) {
                    Some(k) => {
                        assert(t[k] == s[k]);
                    },
                    None => {},
                }
            }
        },
    }
}

/// The label shown for a task's run state, from the state's wire name:
/// `completed` reads `done`, the other known states read as their name,
/// and anything else reads `unknown`.
pub open spec fn spec_task_state_label(wire: Seq<char>) -> Seq<char> {
    if wire == "pending"@ {
        "pending"@
    } else if wire == "running"@ {
        "running"@
    } else if wire == "completed"@ {
        "done"@
    } else if wire == "failed"@ {
        "failed"@
    } else if wire == "cancelled"@ {
        "cancelled"@
    } else {
        "unknown"@
    }
}

/// The label of a task state given by its wire name (see
/// [`spec_task_state_label`]).
pub fn task_state_label(wire: &str) -> (r: &'static str)
    ensures
        r@ == spec_task_state_label(wire@),
{
    if str_eq(wire, "pending") {
        "pending"
    } else if str_eq(wire, "running") {
        "running"
    } else if str_eq(wire, "completed") {
        "done"
    } else if str_eq(wire, "failed") {
        "failed"
    } else if str_eq(wire, "cancelled") {
        "cancelled"
    } else {
        "unknown"
    }
}

} // verus!
