//! The activity log beside the transcript, and the transcript's scroll
//! position. The scroll counts rows up from the latest output: 0 follows
//! new output, anything else pins the view, and appended rows push a
//! pinned view further up so that what the user reads stays in place.

use vstd::prelude::*;
use crate::json::str_eq;
use crate::model::activity::{ActivityItem, estimated_activity_rows, spec_activity_rows};
use crate::model::panes::{sat_add, sat_sub};
use crate::model::diff::{SessionKey, TurnId};

verus! {

/// The activity log keeps this many entries, dropping the oldest.
pub const MAX_ACTIVITY_ITEMS: usize = 80;

/// This many completed turns keep their activity, dropping the oldest.
pub const MAX_TURN_ACTIVITY_LOGS: usize = 32;

/// The activity of one completed turn, with the request that started it
/// and where that request sits in the transcript.
#[derive(Debug)]
pub struct TurnActivityLog {
    pub session_id: SessionKey,
    pub turn_id: TurnId,
    pub request: Option<String>,
    pub anchor_index: Option<usize>,
    pub items: Vec<ActivityItem>,
}

/// Whether an entry belongs to turn `turn`.
pub open spec fn of_turn(item: ActivityItem, turn: Seq<char>) -> bool {
    item.turn_id matches Some(t) && t.0@ == turn
}

/// The entries of turn `turn`, in order.
pub open spec fn turn_items(s: Seq<ActivityItem>, turn: Seq<char>) -> Seq<ActivityItem>
    decreases s.len(),
{
    if s.len() == 0 {
        s
    } else {
        (if of_turn(s[0], turn) { seq![s[0]] } else { Seq::empty() }) + turn_items(s.drop_first(), turn)
    }
}

/// The entries of other turns, in order.
pub open spec fn other_items(s: Seq<ActivityItem>, turn: Seq<char>) -> Seq<ActivityItem>
    decreases s.len(),
{
    if s.len() == 0 {
        s
    } else {
        (if !of_turn(s[0], turn) { seq![s[0]] } else { Seq::empty() }) + other_items(s.drop_first(), turn)
    }
}

/// Index of the first log of `session`'s turn `turn` at or after `j`.
pub open spec fn log_index(logs: Seq<TurnActivityLog>, session: Seq<char>, turn: Seq<char>, j: int) -> Option<int>
    decreases logs.len() - j,
{
    if j < 0 || j >= logs.len() {
        None
    } else if logs[j].session_id.0@ == session && logs[j].turn_id.0@ == turn {
        Some(j)
    } else {
        log_index(logs, session, turn, j + 1)
    }
}

/// The logs with `log` in place of the turn's earlier log, or added.
pub open spec fn placed_logs(logs: Seq<TurnActivityLog>, log: TurnActivityLog) -> Seq<TurnActivityLog> {
    match log_index(logs, log.session_id.0@, log.turn_id.0@, 0) {
        Some(i) => logs.update(i, log),
        None => logs.push(log),
    }
}

/// The newest `MAX_TURN_ACTIVITY_LOGS` logs.
pub open spec fn capped_logs(logs: Seq<TurnActivityLog>) -> Seq<TurnActivityLog> {
    if logs.len() > MAX_TURN_ACTIVITY_LOGS { logs.skip(logs.len() - MAX_TURN_ACTIVITY_LOGS) } else { logs }
}

proof fn lemma_no_turn_items(s: Seq<ActivityItem>, turn: Seq<char>)
    requires
        turn_items(s, turn).len() == 0,
    ensures
        other_items(s, turn) == s,
    decreases s.len(),
{
    if s.len() > 0 {
        lemma_no_turn_items(s.drop_first(), turn);
        assert(seq![s[0]] + s.drop_first() =~= s);
    }
}

/// The scroll after `rows` rows were appended: a pinned view moves up with
/// them, a view that follows the latest output stays there.
pub open spec fn preserved_scroll(scroll: int, rows: int) -> int {
    if scroll > 0 && rows > 0 { sat_add(scroll, rows) } else { scroll }
}

/// The log after appending `item`: the newest `MAX_ACTIVITY_ITEMS` entries.
pub open spec fn appended_log(log: Seq<ActivityItem>, item: ActivityItem) -> Seq<ActivityItem> {
    let all = log.push(item);
    if all.len() > MAX_ACTIVITY_ITEMS { all.skip(all.len() - MAX_ACTIVITY_ITEMS) } else { all }
}

/// Index of the newest entry among the first `k` that belongs to tool call
/// `id`.
pub open spec fn last_call_index(log: Seq<ActivityItem>, id: Seq<char>, k: int) -> Option<int>
    decreases k,
{
    if k <= 0 {
        None
    } else if log[k - 1].tool_call_id matches Some(t) && t@ == id {
        Some(k - 1)
    } else {
        last_call_index(log, id, k - 1)
    }
}

/// A tool entry after an update: the new status, and each other field
/// replaced only when the update carries it.
pub open spec fn updated_item(
    item: ActivityItem,
    status: String,
    detail: Option<String>,
    output_preview: Option<String>,
    success: Option<bool>,
    duration_ms: Option<u64>,
) -> ActivityItem {
    ActivityItem {
        status,
        detail: if detail is Some { detail } else { item.detail },
        output_preview: if output_preview is Some { output_preview } else { item.output_preview },
        success: if success is Some { success } else { item.success },
        duration_ms: if duration_ms is Some { duration_ms } else { item.duration_ms },
        ..item
    }
}

fn belongs_to_call(item: &ActivityItem, id: &str) -> (r: bool)
    ensures
        r == (item.tool_call_id matches Some(t) && t@ == id@),
{
    match &item.tool_call_id {
        Some(t) => str_eq(t.as_str(), id),
        None => false,
    }
}

/// The activity log, the transcript's scroll, whether tool output cards
/// are expanded, and the status line.
#[derive(Debug)]
pub struct TranscriptState {
    pub activity: Vec<ActivityItem>,
    pub turn_activity_logs: Vec<TurnActivityLog>,
    pub transcript_scroll: usize,
    pub expanded_tool_outputs: bool,
    pub status: String,
}

impl TranscriptState {
    /// An empty log following the latest output, cards collapsed.
    pub fn new() -> (r: Self)
        ensures
            r.activity@.len() == 0,
            r.turn_activity_logs@.len() == 0,
            r.transcript_scroll == 0,
            !r.expanded_tool_outputs,
            r.status@ == Seq::<char>::empty(),
    {
        TranscriptState {
            activity: Vec::new(),
            turn_activity_logs: Vec::new(),
            transcript_scroll: 0,
            expanded_tool_outputs: false,
            status: String::new(),
        }
    }

    /// Move the entries of a completed turn out of the activity log into a
    /// log of that turn, replacing an earlier log of the same turn and
    /// keeping the newest `MAX_TURN_ACTIVITY_LOGS`. `request` and
    /// `anchor_index` are the turn's request text and its place in the
    /// transcript. Returns whether the turn had any entries; without any,
    /// nothing changes.
    pub fn capture_completed_turn_activity(
        &mut self,
        session_id: &SessionKey,
        turn_id: &TurnId,
        request: Option<String>,
        anchor_index: Option<usize>,
    ) -> (r: bool)
        ensures
            ({
                let items = turn_items(old(self).activity@, turn_id.0@);
                &&& r == (items.len() > 0)
                &&& !r ==> final(self).activity@ == old(self).activity@
                    && final(self).turn_activity_logs@ == old(self).turn_activity_logs@
                &&& r ==> final(self).activity@ == other_items(old(self).activity@, turn_id.0@)
                    && exists|log: TurnActivityLog|
                    log.session_id == *session_id && log.turn_id == *turn_id && log.request == request
                        && log.anchor_index == anchor_index && log.items@ == items
                        && final(self).turn_activity_logs@ == capped_logs(placed_logs(old(self).turn_activity_logs@, log))
            }),
            final(self).transcript_scroll == old(self).transcript_scroll,
    {
        let ghost orig = self.activity@;
        let ghost t = turn_id.0@;
        let mut rest: Vec<ActivityItem> = Vec::new();
        std::mem::swap(&mut rest, &mut self.activity);
        let mut moved: Vec<ActivityItem> = Vec::new();
        let mut kept: Vec<ActivityItem> = Vec::new();
        proof {
            assert(moved@ + turn_items(rest@, t) =~= turn_items(orig, t));
            assert(kept@ + other_items(rest@, t) =~= other_items(orig, t));
        }
        while rest.len() > 0
            invariant
                moved@ + turn_items(rest@, t) == turn_items(orig, t),
                kept@ + other_items(rest@, t) == other_items(orig, t),
                t == turn_id.0@,
            decreases rest.len(),
        {
            let ghost before = rest@;
            let item = rest.remove(0);
            proof {
                assert(rest@ =~= before.drop_first());
                assert(before[0] == item);
            }
            let hit = match &item.turn_id {
                Some(x) => crate::json::str_eq(x.0.as_str(), turn_id.0.as_str()),
                None => false,
            };
            if hit {
                let ghost m = moved@;
                moved.push(item);
                proof {
                    assert(moved@ + turn_items(rest@, t) =~= m + (seq![item] + turn_items(rest@, t)));
                    assert(kept@ + other_items(rest@, t) =~= kept@ + (Seq::<ActivityItem>::empty() + other_items(rest@, t)));
                }
            } else {
                let ghost k = kept@;
                kept.push(item);
                proof {
                    assert(kept@ + other_items(rest@, t) =~= k + (seq![item] + other_items(rest@, t)));
                    assert(moved@ + turn_items(rest@, t) =~= moved@ + (Seq::<ActivityItem>::empty() + turn_items(rest@, t)));
                }
            }
        }
        proof {
            assert(moved@ + turn_items(rest@, t) =~= moved@);
            assert(kept@ + other_items(rest@, t) =~= kept@);
        }
        if moved.len() == 0 {
            proof { lemma_no_turn_items(orig, t); }
            self.activity = kept;
            return false;
        }
        let log = TurnActivityLog {
            session_id: SessionKey(session_id.0.clone()),
            turn_id: TurnId(turn_id.0.clone()),
            request,
            anchor_index,
            items: moved,
        };
        let ghost lg = log;
        let ghost logs = self.turn_activity_logs@;
        let mut i: usize = 0;
        while i < self.turn_activity_logs.len() && !(crate::json::str_eq(
            self.turn_activity_logs[i].session_id.0.as_str(),
            session_id.0.as_str(),
        ) && crate::json::str_eq(self.turn_activity_logs[i].turn_id.0.as_str(), turn_id.0.as_str()))
            invariant
                i <= logs.len(),
                self.turn_activity_logs@ == logs,
                lg.session_id == *session_id,
                lg.turn_id == *turn_id,
                log_index(logs, lg.session_id.0@, lg.turn_id.0@, 0) == log_index(logs, lg.session_id.0@, lg.turn_id.0@, i as int),
            decreases self.turn_activity_logs.len() - i,
        {
            i += 1;
        }
        if i < self.turn_activity_logs.len() {
            proof {
                assert(log_index(logs, lg.session_id.0@, lg.turn_id.0@, i as int) == Some(i as int));
            }
            let _earlier = self.turn_activity_logs.remove(i);
            self.turn_activity_logs.insert(i, log);
            proof { assert(self.turn_activity_logs@ =~= logs.update(i as int, lg)); }
        } else {
            proof {
                assert(log_index(logs, lg.session_id.0@, lg.turn_id.0@, i as int) == None::<int>);
            }
            self.turn_activity_logs.push(log);
        }
        proof { assert(self.turn_activity_logs@ == placed_logs(logs, lg)); }
        let ghost placed = self.turn_activity_logs@;
        if self.turn_activity_logs.len() > MAX_TURN_ACTIVITY_LOGS {
            let excess = self.turn_activity_logs.len() - MAX_TURN_ACTIVITY_LOGS;
            let newest = self.turn_activity_logs.split_off(excess);
            self.turn_activity_logs = newest;
            proof { assert(self.turn_activity_logs@ =~= placed.skip(placed.len() - MAX_TURN_ACTIVITY_LOGS)); }
        }
        proof {
            assert(self.turn_activity_logs@ == capped_logs(placed_logs(logs, lg)));
            assert(lg.items@ == turn_items(orig, t));
        }
        self.activity = kept;
        proof {
            assert(lg.session_id == *session_id && lg.turn_id == *turn_id && lg.request == request
                && lg.anchor_index == anchor_index && lg.items@ == turn_items(orig, t)
                && self.turn_activity_logs@ == capped_logs(placed_logs(old(self).turn_activity_logs@, lg)));
        }
        true
    }

    /// Expand or collapse the tool output cards, and say so.
    pub fn toggle_tool_output_expansion(&mut self)
        ensures
            final(self).expanded_tool_outputs == !old(self).expanded_tool_outputs,
            final(self).status@ == (if final(self).expanded_tool_outputs {
                "Expanded tool output cards"@
            } else {
                "Collapsed tool output cards"@
            }),
            final(self).activity@ == old(self).activity@,
            final(self).transcript_scroll == old(self).transcript_scroll,
    {
        self.expanded_tool_outputs = !self.expanded_tool_outputs;
        self.status = if self.expanded_tool_outputs {
            String::from_str("Expanded tool output cards")
        } else {
            String::from_str("Collapsed tool output cards")
        };
    }

    /// Scroll up (towards older output) by `lines`.
    pub fn scroll_transcript_up(&mut self, lines: usize)
        ensures
            final(self).transcript_scroll == sat_add(old(self).transcript_scroll as int, lines as int),
            final(self).activity@ == old(self).activity@,
    {
        self.transcript_scroll = self.transcript_scroll.saturating_add(lines);
    }

    /// Scroll down (towards the latest output) by `lines`.
    pub fn scroll_transcript_down(&mut self, lines: usize)
        ensures
            final(self).transcript_scroll == sat_sub(old(self).transcript_scroll as int, lines as int),
            final(self).activity@ == old(self).activity@,
    {
        self.transcript_scroll = self.transcript_scroll.saturating_sub(lines);
    }

    /// Follow the latest output again.
    pub fn scroll_transcript_to_latest(&mut self)
        ensures
            final(self).transcript_scroll == 0,
            final(self).activity@ == old(self).activity@,
    {
        self.transcript_scroll = 0;
    }

    /// Keep a pinned view in place after `estimated_rows` rows were
    /// appended (see [`preserved_scroll`]).
    pub fn preserve_transcript_position_after_append(&mut self, estimated_rows: usize)
        ensures
            final(self).transcript_scroll == preserved_scroll(old(self).transcript_scroll as int, estimated_rows as int),
            final(self).activity@ == old(self).activity@,
    {
        if self.transcript_scroll > 0 && estimated_rows > 0 {
            self.transcript_scroll = self.transcript_scroll.saturating_add(estimated_rows);
        }
    }

    /// Append an entry, keep the newest `MAX_ACTIVITY_ITEMS`, and keep a
    /// pinned view in place.
    pub fn push_activity(&mut self, item: ActivityItem)
        ensures
            final(self).activity@ == appended_log(old(self).activity@, item),
            final(self).transcript_scroll == preserved_scroll(
                old(self).transcript_scroll as int,
                spec_activity_rows(item) as int,
            ),
    {
        let estimated_rows = estimated_activity_rows(&item);
        self.activity.push(item);
        self.preserve_transcript_position_after_append(estimated_rows);
        if self.activity.len() > MAX_ACTIVITY_ITEMS {
            let excess = self.activity.len() - MAX_ACTIVITY_ITEMS;
            let kept = self.activity.split_off(excess);
            self.activity = kept;
        }
    }

    /// Update the newest entry of tool call `tool_call_id` (see
    /// [`updated_item`]); a pinned view moves up one row. Nothing changes
    /// when no entry belongs to that call.
    pub fn update_tool_activity(
        &mut self,
        tool_call_id: &str,
        status: String,
        detail: Option<String>,
        output_preview: Option<String>,
        success: Option<bool>,
        duration_ms: Option<u64>,
    )
        ensures
            match last_call_index(old(self).activity@, tool_call_id@, old(self).activity@.len() as int) {
                None => final(self).activity@ == old(self).activity@
                    && final(self).transcript_scroll == old(self).transcript_scroll,
                Some(k) => final(self).activity@ == old(self).activity@.update(
                    k,
                    updated_item(old(self).activity@[k], status, detail, output_preview, success, duration_ms),
                ) && final(self).transcript_scroll == preserved_scroll(old(self).transcript_scroll as int, 1),
            },
    {
        let ghost log = self.activity@;
        let mut k = self.activity.len();
        while k > 0 && !belongs_to_call(&self.activity[k - 1], tool_call_id)
            invariant
                k <= log.len(),
                self.activity@ == log,
                last_call_index(log, tool_call_id@, log.len() as int) == last_call_index(log, tool_call_id@, k as int),
            decreases k,
        {
            k -= 1;
        }
        if k == 0 {
            return;
        }
        let idx = k - 1;
        let old_item = self.activity.remove(idx);
        let ActivityItem {
            kind,
            title,
            status: _,
            detail: old_detail,
            arguments,
            output_preview: old_output,
            success: old_success,
            duration_ms: old_duration,
            turn_id,
            tool_call_id: call,
        } = old_item;
        let item = ActivityItem {
            kind,
            title,
            status,
            detail: if detail.is_some() { detail } else { old_detail },
            arguments,
            output_preview: if output_preview.is_some() { output_preview } else { old_output },
            success: if success.is_some() { success } else { old_success },
            duration_ms: if duration_ms.is_some() { duration_ms } else { old_duration },
            turn_id,
            tool_call_id: call,
        };
        self.activity.insert(idx, item);
        proof {
            assert(self.activity@ =~= log.update(
                idx as int,
                updated_item(log[idx as int], status, detail, output_preview, success, duration_ms),
            ));
        }
        self.preserve_transcript_position_after_append(1);
    }
}

/// The log never holds more than `MAX_ACTIVITY_ITEMS` entries after an
/// append, and the appended entry is the newest one.
pub proof fn law_activity_log_stays_bounded(log: Seq<ActivityItem>, item: ActivityItem)
    ensures
        log.len() < MAX_ACTIVITY_ITEMS ==> appended_log(log, item).len() == log.len() + 1,
        log.len() >= MAX_ACTIVITY_ITEMS ==> appended_log(log, item).len() == MAX_ACTIVITY_ITEMS,
        appended_log(log, item).last() == item,
{
}

/// A view that follows the latest output keeps following it when entries
/// are appended.
pub proof fn law_following_view_stays_at_latest(rows: int)
    ensures
        preserved_scroll(0, rows) == 0,
{
}

/// Scrolling up and back down by the same amount returns to the same place,
/// unless the top was hit.
pub proof fn law_scroll_up_down_round_trip(scroll: usize, lines: usize)
    requires
        scroll + lines <= usize::MAX,
    ensures
        sat_sub(sat_add(scroll as int, lines as int), lines as int) == scroll,
{
}

} // verus!
