//! Entries of the activity log, and the context-lifecycle line of the
//! status surface.

use vstd::prelude::*;
use crate::text::{str_chars, range_starts_with, u64_decimal, usize_decimal, dec};
use crate::json::{JsonValue, str_eq};
use crate::model::panes::ActivityKind;
use crate::model::diff::{SessionKey, TurnId};
use crate::model::composer::line_count;
use crate::model::protocol_types::{ContextCompactionSummary, ContextNormalizationSummary};

verus! {

/// One entry of the activity log: a tool call, progress, an approval, a
/// warning or an error.
#[derive(Debug)]
pub struct ActivityItem {
    pub kind: ActivityKind,
    pub title: String,
    pub status: String,
    pub detail: Option<String>,
    pub arguments: Option<JsonValue>,
    pub output_preview: Option<String>,
    pub success: Option<bool>,
    pub duration_ms: Option<u64>,
    pub turn_id: Option<TurnId>,
    pub tool_call_id: Option<String>,
}

impl ActivityItem {
    /// An entry with only its kind, title and status.
    pub fn new(kind: ActivityKind, title: String, status: String) -> (r: Self)
        ensures
            r.kind == kind && r.title == title && r.status == status,
            r.detail.is_none() && r.arguments.is_none() && r.output_preview.is_none(),
            r.success.is_none() && r.duration_ms.is_none() && r.turn_id.is_none() && r.tool_call_id.is_none(),
    {
        ActivityItem {
            kind,
            title,
            status,
            detail: None,
            arguments: None,
            output_preview: None,
            success: None,
            duration_ms: None,
            turn_id: None,
            tool_call_id: None,
        }
    }

    pub fn with_detail(self, detail: String) -> (r: Self)
        ensures
            r == (ActivityItem { detail: Some(detail), ..self }),
    {
        let mut s = self;
        s.detail = Some(detail);
        s
    }

    pub fn with_turn(self, turn_id: TurnId) -> (r: Self)
        ensures
            r == (ActivityItem { turn_id: Some(turn_id), ..self }),
    {
        let mut s = self;
        s.turn_id = Some(turn_id);
        s
    }

    pub fn with_tool_call(self, tool_call_id: String) -> (r: Self)
        ensures
            r == (ActivityItem { tool_call_id: Some(tool_call_id), ..self }),
    {
        let mut s = self;
        s.tool_call_id = Some(tool_call_id);
        s
    }

    pub fn with_arguments(self, arguments: JsonValue) -> (r: Self)
        ensures
            r == (ActivityItem { arguments: Some(arguments), ..self }),
    {
        let mut s = self;
        s.arguments = Some(arguments);
        s
    }

    pub fn with_output_preview(self, output_preview: String) -> (r: Self)
        ensures
            r == (ActivityItem { output_preview: Some(output_preview), ..self }),
    {
        let mut s = self;
        s.output_preview = Some(output_preview);
        s
    }

    pub fn with_success(self, success: bool) -> (r: Self)
        ensures
            r == (ActivityItem { success: Some(success), ..self }),
    {
        let mut s = self;
        s.success = Some(success);
        s
    }

    pub fn with_duration_ms(self, duration_ms: u64) -> (r: Self)
        ensures
            r == (ActivityItem { duration_ms: Some(duration_ms), ..self }),
    {
        let mut s = self;
        s.duration_ms = Some(duration_ms);
        s
    }
}

/// Rows an entry takes in the transcript: a tool call takes four plus
/// one to four rows of output preview; a file-mutation progress entry
/// three; anything else two.
pub open spec fn spec_activity_rows(item: ActivityItem) -> nat {
    match item.kind {
        ActivityKind::Tool => {
            let preview = match item.output_preview {
                Some(o) => {
                    let n = line_count(o@);
                    if n < 1 { 1 } else if n > 4 { 4 } else { n }
                },
                None => 1,
            };
            4 + preview
        },
        ActivityKind::Progress => if item.title@ == "file_mutation"@ || "File mutation: "@.is_prefix_of(item.status@) {
            3
        } else {
            2
        },
        _ => 2,
    }
}

fn count_lines(s: &str) -> (r: usize)
    ensures
        r == line_count(s@),
{
    let v = str_chars(s);
    let mut k: usize = 0;
    let mut i: usize = 0;
    while i < v.len()
        invariant
            i <= v.len(),
            v@ == s@,
            k == crate::model::composer::count_char(v@.take(i as int), '\n'),
            k <= i,
        decreases v.len() - i,
    {
        assert(v@.take(i + 1).drop_last() =~= v@.take(i as int));
        if v[i] == '\n' {
            k += 1;
        }
        i += 1;
    }
    assert(v@.take(v.len() as int) =~= v@);
    proof { crate::model::composer::lemma_count_char_le(v@, '\n'); }
    if v.len() > 0 && v[v.len() - 1] != '\n' {
        k + 1
    } else {
        k
    }
}

pub fn estimated_activity_rows(item: &ActivityItem) -> (r: usize)
    ensures
        r == spec_activity_rows(*item),
{
    match item.kind {
        ActivityKind::Tool => {
            let preview = match &item.output_preview {
                Some(o) => {
                    let n = count_lines(o.as_str());
                    if n < 1 { 1 } else if n > 4 { 4 } else { n }
                },
                None => 1,
            };
            4 + preview
        },
        ActivityKind::Progress => {
            let status = str_chars(item.status.as_str());
            proof {
                reveal_strlit("file_mutation");
                reveal_strlit("File mutation: ");
            }
            let prefixed = range_starts_with(&status, 0, status.len(), "File mutation: ");
            proof {
                if "File mutation: "@.is_prefix_of(status@) {
                    assert(status@.subrange(0, 15) =~= "File mutation: "@);
                }
                if prefixed {
                    assert(status@.subrange(0, 15) =~= "File mutation: "@);
                    assert(status@.subrange(0, "File mutation: "@.len() as int) =~= "File mutation: "@);
                }
            }
            if str_eq(item.title.as_str(), "file_mutation") || prefixed {
                3
            } else {
                2
            }
        },
        _ => 2,
    }
}

/// The context the server keeps for a session: counts and hashes only.
#[derive(Debug, Clone, PartialEq, Eq)]
pub struct ContextLifecycleState {
    pub session_id: SessionKey,
    pub thread_id: Option<String>,
    pub generation: u64,
    pub transcript_hash: String,
    pub item_count: usize,
    pub token_estimate: usize,
    pub recovery_state: String,
    pub last_checkpoint_id: Option<String>,
    pub last_compaction_id: Option<String>,
}

/// A session's latest context state and the last compaction and
/// normalisation the server reported.
#[derive(Debug, Clone, PartialEq, Eq)]
pub struct SessionContextLifecycle {
    pub state: Option<ContextLifecycleState>,
    pub last_compaction: Option<ContextCompactionSummary>,
    pub last_normalization: Option<ContextNormalizationSummary>,
}

impl Default for SessionContextLifecycle {
    fn default() -> (r: Self)
        ensures
            r.state.is_none() && r.last_compaction.is_none() && r.last_normalization.is_none(),
    {
        SessionContextLifecycle { state: None, last_compaction: None, last_normalization: None }
    }
}

/// `context gen=G items=N ~T tok`, the recovery state in brackets unless
/// it is empty or healthy, and the last compaction after a bar.
pub open spec fn spec_summary_line(l: SessionContextLifecycle) -> Option<Seq<char>> {
    match l.state {
        None => None,
        Some(st) => {
            let base = "context gen="@ + dec(st.generation as nat) + " items="@ + dec(st.item_count as nat) + " ~"@
                + dec(st.token_estimate as nat) + " tok"@;
            let with_state = if st.recovery_state@.len() > 0 && st.recovery_state@ != "healthy"@ {
                base + " ("@ + st.recovery_state@ + ")"@
            } else {
                base
            };
            Some(match l.last_compaction {
                Some(c) => with_state + " | compacted "@ + dec(c.input_generation as nat) + "->"@ + (match c.output_generation {
                    Some(g) => dec(g as nat),
                    None => "?"@,
                }) + " retained="@ + dec(c.retained_count as nat) + " dropped="@ + dec(c.dropped_count as nat),
                None => with_state,
            })
        },
    }
}

impl SessionContextLifecycle {
    pub fn apply_compaction(&mut self, state: ContextLifecycleState, compaction: ContextCompactionSummary)
        ensures
            final(self).state == Some(state),
            final(self).last_compaction == Some(compaction),
            final(self).last_normalization == old(self).last_normalization,
    {
        self.state = Some(state);
        self.last_compaction = Some(compaction);
    }

    pub fn apply_normalization(&mut self, state: ContextLifecycleState, normalization: ContextNormalizationSummary)
        ensures
            final(self).state == Some(state),
            final(self).last_normalization == Some(normalization),
            final(self).last_compaction == old(self).last_compaction,
    {
        self.state = Some(state);
        self.last_normalization = Some(normalization);
    }

    /// The status-surface line (see [`spec_summary_line`]); nothing before
    /// the server reports a context state.
    pub fn summary_line(&self) -> (r: Option<String>)
        ensures
            match (r, spec_summary_line(*self)) {
                (Some(a), Some(b)) => a@ == b,
                (None, None) => true,
                _ => false,
            },
    {
        let st = match &self.state {
            Some(st) => st,
            None => {
                return None;
            },
        };
        proof {
            reveal_strlit("context gen=");
            reveal_strlit(" items=");
            reveal_strlit(" ~");
            reveal_strlit(" tok");
            reveal_strlit("healthy");
            reveal_strlit(" (");
            reveal_strlit(")");
            reveal_strlit(" | compacted ");
            reveal_strlit("->");
            reveal_strlit("?");
            reveal_strlit(" retained=");
            reveal_strlit(" dropped=");
        }
        let mut line = String::from_str("context gen=");
        line.append(u64_decimal(st.generation).as_str());
        line.append(" items=");
        line.append(usize_decimal(st.item_count).as_str());
        line.append(" ~");
        line.append(usize_decimal(st.token_estimate).as_str());
        line.append(" tok");
        if !st.recovery_state.as_str().is_empty() && !str_eq(st.recovery_state.as_str(), "healthy") {
            line.append(" (");
            line.append(st.recovery_state.as_str());
            line.append(")");
        }
        if let Some(c) = &self.last_compaction {
            line.append(" | compacted ");
            line.append(u64_decimal(c.input_generation).as_str());
            line.append("->");
            match c.output_generation {
                Some(g) => line.append(u64_decimal(g).as_str()),
                None => line.append("?"),
            }
            line.append(" retained=");
            line.append(usize_decimal(c.retained_count).as_str());
            line.append(" dropped=");
            line.append(usize_decimal(c.dropped_count).as_str());
        }
        Some(line)
    }
}

} // verus!
