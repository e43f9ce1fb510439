//! Panes seeded from a bootstrap snapshot before the server sends its own
//! pane data: where the snapshot came from, and the workspace, artifact
//! and git panes it implies.

use vstd::prelude::*;
use crate::text::{str_chars, ascii_lower_seq, lower_range, seq_contains, range_contains, trim, trim_bounds};
use crate::model::panes::{
    GitPaneState, GitStatusItem, GitHistoryItem, WorkspaceEntry, WorkspacePaneState, ArtifactItem, ArtifactPaneState,
};
use crate::text::{usize_decimal, dec};
use crate::model::plan::{first_line, after_first_line, line_bounds};
use crate::model::composer::first_nonblank_line;

verus! {

/// Where a bootstrap snapshot came from.
#[derive(Debug, Clone, Copy, PartialEq, Eq, Structural)]
pub enum SnapshotSource {
    Mock,
    Protocol,
    Unknown,
}

/// A mock source when status or target mention `mock`; a protocol source
/// when the status mentions `protocol` or the target is a WebSocket URL;
/// else unknown. Case is ignored.
pub open spec fn spec_classify(status: Seq<char>, target: Seq<char>) -> SnapshotSource {
    let s = ascii_lower_seq(status);
    let t = ascii_lower_seq(target);
    if seq_contains(s, "mock"@) || seq_contains(t, "mock"@) {
        SnapshotSource::Mock
    } else if seq_contains(s, "protocol"@) || "ws://"@.is_prefix_of(t) || "wss://"@.is_prefix_of(t) {
        SnapshotSource::Protocol
    } else {
        SnapshotSource::Unknown
    }
}

fn lowered(s: &str) -> (r: Vec<char>)
    ensures
        r@ == ascii_lower_seq(s@),
{
    let v = str_chars(s);
    assert(v@.subrange(0, v@.len() as int) =~= v@);
    lower_range(&v, 0, v.len())
}

fn contains_in(v: &Vec<char>, p: &str) -> (r: bool)
    ensures
        r == seq_contains(v@, p@),
{
    assert(v@.subrange(0, v@.len() as int) =~= v@);
    range_contains(v, 0, v.len(), p)
}

fn has_prefix(v: &Vec<char>, p: &str) -> (r: bool)
    ensures
        r == p@.is_prefix_of(v@),
{
    let r = crate::text::range_starts_with(v, 0, v.len(), p);
    proof {
        if p@.len() <= v@.len() {
            assert(v@.subrange(0, p@.len() as int) == v@.subrange(0, 0 + p@.len() as int));
        }
    }
    r
}

impl SnapshotSource {
    /// Classify a snapshot by its status line and target (see
    /// [`spec_classify`]).
    pub fn classify(status: &str, target: Option<&str>) -> (r: Self)
        ensures
            r == spec_classify(status@, match target { Some(t) => t@, None => Seq::empty() }),
    {
        let s = lowered(status);
        let t = match target {
            Some(t) => lowered(t),
            None => {
                let e: Vec<char> = Vec::new();
                assert(ascii_lower_seq(Seq::<char>::empty()) =~= e@);
                e
            },
        };
        if contains_in(&s, "mock") || contains_in(&t, "mock") {
            SnapshotSource::Mock
        } else if contains_in(&s, "protocol") || has_prefix(&t, "ws://") || has_prefix(&t, "wss://") {
            SnapshotSource::Protocol
        } else {
            SnapshotSource::Unknown
        }
    }

    pub open spec fn spec_label(self) -> Seq<char> {
        match self {
            SnapshotSource::Mock => "mock snapshot"@,
            SnapshotSource::Protocol => "protocol snapshot"@,
            SnapshotSource::Unknown => "app-ui snapshot"@,
        }
    }

    pub fn label(self) -> (r: &'static str)
        ensures
            r@ == self.spec_label(),
    {
        match self {
            SnapshotSource::Mock => "mock snapshot",
            SnapshotSource::Protocol => "protocol snapshot",
            SnapshotSource::Unknown => "app-ui snapshot",
        }
    }
}

/// Text whose characters are all free of `m` holds `mock` only where the
/// rest after it does.
proof fn lemma_mock_after_prefix(p: Seq<char>, r: Seq<char>)
    requires
        forall|i: int| 0 <= i < p.len() ==> p[i] != 'm',
    ensures
        seq_contains(p + r, "mock"@) == seq_contains(r, "mock"@),
{
    reveal_strlit("mock");
    let needle = "mock"@;
    let s = p + r;
    if seq_contains(s, needle) {
        let i = choose|i: int| 0 <= i && i + needle.len() <= s.len() && #[trigger] s.subrange(i, i + needle.len()) == needle;
        assert(s.subrange(i, i + 4)[0] == s[i]);
        if i < p.len() {
            assert(s[i] == p[i]);
            assert(false);
        }
        let j = i - p.len();
        assert(r.subrange(j, j + 4) =~= s.subrange(i, i + 4));
    }
    if seq_contains(r, needle) {
        let j = choose|j: int| 0 <= j && j + needle.len() <= r.len() && #[trigger] r.subrange(j, j + needle.len()) == needle;
        let i = j + p.len();
        assert(s.subrange(i, i + 4) =~= r.subrange(j, j + 4));
    }
}

/// A WebSocket target, plain or secure, in any letter case, makes a
/// snapshot a protocol snapshot, unless the status or the target mention
/// `mock`.
pub proof fn law_websocket_target_is_protocol(status: Seq<char>, target: Seq<char>)
    requires
        "ws://"@.is_prefix_of(ascii_lower_seq(target)) || "wss://"@.is_prefix_of(ascii_lower_seq(target)),
        !seq_contains(ascii_lower_seq(status), "mock"@),
        !seq_contains(ascii_lower_seq(target), "mock"@),
    ensures
        spec_classify(status, target) == SnapshotSource::Protocol,
{
}

/// A secure WebSocket target classifies exactly as the same target with
/// `ws://`.
pub proof fn law_secure_websocket_classifies_as_plain(status: Seq<char>, rest: Seq<char>)
    ensures
        spec_classify(status, "wss://"@ + rest) == spec_classify(status, "ws://"@ + rest),
{
    reveal_strlit("wss://");
    reveal_strlit("ws://");
    let a = "wss://"@;
    let b = "ws://"@;
    assert(ascii_lower_seq(a + rest) =~= a + ascii_lower_seq(rest));
    assert(ascii_lower_seq(b + rest) =~= b + ascii_lower_seq(rest));
    lemma_mock_after_prefix(a, ascii_lower_seq(rest));
    lemma_mock_after_prefix(b, ascii_lower_seq(rest));
    assert(a.is_prefix_of(a + ascii_lower_seq(rest))) by {
        assert((a + ascii_lower_seq(rest)).subrange(0, a.len() as int) =~= a);
    }
    assert(b.is_prefix_of(b + ascii_lower_seq(rest))) by {
        assert((b + ascii_lower_seq(rest)).subrange(0, b.len() as int) =~= b);
    }
}

/// The git pane's contents as character sequences.
pub struct GitSeed {
    pub branch: Seq<char>,
    pub head: Option<Seq<char>>,
    pub status: Seq<(Seq<char>, Seq<char>, Seq<char>)>,
    pub history: Seq<(Seq<char>, Seq<char>)>,
}

pub open spec fn git_view(g: GitPaneState) -> GitSeed {
    GitSeed {
        branch: g.branch@,
        head: match g.head {
            Some(h) => Some(h@),
            None => None,
        },
        status: g.status@.map_values(|s: GitStatusItem| (s.code@, s.path@, s.detail@)),
        history: g.history@.map_values(|h: GitHistoryItem| (h.commit@, h.summary@)),
    }
}

/// The placeholder git pane for each snapshot source.
pub open spec fn spec_seed_git(source: SnapshotSource) -> GitSeed {
    match source {
        SnapshotSource::Mock => GitSeed {
            branch: "m9.7/mock-snapshot"@,
            head: Some("mock-head"@),
            status: seq![("M"@, "src/model.rs"@, "pane state contract"@), ("M"@, "src/app.rs"@, "pane rendering surface"@)],
            history: seq![("mock-m97"@, "seed missing pane snapshots"@), ("mock-m9"@, "app-ui protocol TUI scaffold"@)],
        },
        SnapshotSource::Protocol => GitSeed {
            branch: "not supplied"@,
            head: None,
            status: seq![("?"@, "git status"@, "protocol snapshot does not include git state yet"@)],
            history: seq![("pending"@, "waiting for git history snapshot"@)],
        },
        SnapshotSource::Unknown => GitSeed {
            branch: "unknown"@,
            head: None,
            status: seq![("?"@, "git status"@, "snapshot source did not include git state"@)],
            history: seq![("pending"@, "no git history in snapshot"@)],
        },
    }
}

/// The git pane shown until the server sends git state (see
/// [`spec_seed_git`]); nothing is selected or scrolled.
pub fn seed_git(source: SnapshotSource) -> (r: GitPaneState)
    ensures
        git_view(r) == spec_seed_git(source),
        r.selected == 0,
        r.scroll == 0,
{
    let r = match source {
            SnapshotSource::Mock => {
                let mut status: Vec<GitStatusItem> = Vec::new();
                let mut history: Vec<GitHistoryItem> = Vec::new();
                status.push(GitStatusItem { code: String::from_str("M"), path: String::from_str("src/model.rs"), detail: String::from_str("pane state contract") });
                status.push(GitStatusItem { code: String::from_str("M"), path: String::from_str("src/app.rs"), detail: String::from_str("pane rendering surface") });
                history.push(GitHistoryItem { commit: String::from_str("mock-m97"), summary: String::from_str("seed missing pane snapshots") });
                history.push(GitHistoryItem { commit: String::from_str("mock-m9"), summary: String::from_str("app-ui protocol TUI scaffold") });
                proof {
                    reveal_strlit("m9.7/mock-snapshot");
                    reveal_strlit("mock-head");
                    reveal_strlit("M");
                    reveal_strlit("src/model.rs");
                    reveal_strlit("pane state contract");
                    reveal_strlit("src/app.rs");
                    reveal_strlit("pane rendering surface");
                    reveal_strlit("mock-m97");
                    reveal_strlit("seed missing pane snapshots");
                    reveal_strlit("mock-m9");
                    reveal_strlit("app-ui protocol TUI scaffold");
                }
                GitPaneState { branch: String::from_str("m9.7/mock-snapshot"), head: Some(String::from_str("mock-head")), status, history, selected: 0, scroll: 0 }
            },
            SnapshotSource::Protocol => {
                let mut status: Vec<GitStatusItem> = Vec::new();
                let mut history: Vec<GitHistoryItem> = Vec::new();
                status.push(GitStatusItem { code: String::from_str("?"), path: String::from_str("git status"), detail: String::from_str("protocol snapshot does not include git state yet") });
                history.push(GitHistoryItem { commit: String::from_str("pending"), summary: String::from_str("waiting for git history snapshot") });
                proof {
                    reveal_strlit("not supplied");
                    reveal_strlit("?");
                    reveal_strlit("git status");
                    reveal_strlit("protocol snapshot does not include git state yet");
                    reveal_strlit("pending");
                    reveal_strlit("waiting for git history snapshot");
                }
                GitPaneState { branch: String::from_str("not supplied"), head: None, status, history, selected: 0, scroll: 0 }
            },
            SnapshotSource::Unknown => {
                let mut status: Vec<GitStatusItem> = Vec::new();
                let mut history: Vec<GitHistoryItem> = Vec::new();
                status.push(GitStatusItem { code: String::from_str("?"), path: String::from_str("git status"), detail: String::from_str("snapshot source did not include git state") });
                history.push(GitHistoryItem { commit: String::from_str("pending"), summary: String::from_str("no git history in snapshot") });
                proof {
                    reveal_strlit("unknown");
                    reveal_strlit("?");
                    reveal_strlit("git status");
                    reveal_strlit("snapshot source did not include git state");
                    reveal_strlit("pending");
                    reveal_strlit("no git history in snapshot");
                }
                GitPaneState { branch: String::from_str("unknown"), head: None, status, history, selected: 0, scroll: 0 }
            },
    };
    proof {
        let v = git_view(r);
        let s = spec_seed_git(source);
        assert(v.status =~= s.status);
        assert(v.history =~= s.history);
    }
    r
}


/// What the seeded panes read of one task of a bootstrap snapshot: its
/// title, the label of its run state, its output tail, and the diff
/// preview id found in its runtime detail or output, if any.
#[derive(Debug, Clone, PartialEq, Eq)]
pub struct TaskSeed {
    pub title: String,
    pub state_label: String,
    pub output_tail: String,
    pub preview_id: Option<String>,
}

/// What the seeded panes read of one session of a bootstrap snapshot.
#[derive(Debug, Clone, PartialEq, Eq)]
pub struct SessionSeed {
    pub id: String,
    pub title: String,
    pub message_count: usize,
    pub tasks: Vec<TaskSeed>,
}

/// A workspace row as (depth, label, detail).
pub open spec fn entry_view(e: WorkspaceEntry) -> (usize, Seq<char>, Seq<char>) {
    (e.depth, e.label@, e.detail@)
}

pub open spec fn entries_view(v: Seq<WorkspaceEntry>) -> Seq<(usize, Seq<char>, Seq<char>)> {
    v.map_values(|e: WorkspaceEntry| entry_view(e))
}

/// The rows of a session's tasks: one per task with its state, or a single
/// `tasks: none` row.
pub open spec fn task_entries(tasks: Seq<TaskSeed>) -> Seq<(usize, Seq<char>, Seq<char>)> {
    if tasks.len() == 0 {
        seq![(2usize, "tasks"@, "none"@)]
    } else {
        tasks.map_values(|t: TaskSeed| (2usize, t.title@, t.state_label@))
    }
}

/// A session's rows: its title and id, its message count, its tasks.
pub open spec fn session_entries(s: SessionSeed) -> Seq<(usize, Seq<char>, Seq<char>)> {
    seq![(1usize, s.title@, s.id@), (2usize, "messages"@, dec(s.message_count as nat))] + task_entries(s.tasks@)
}

pub open spec fn sessions_entries(ss: Seq<SessionSeed>) -> Seq<(usize, Seq<char>, Seq<char>)>
    decreases ss.len(),
{
    if ss.len() == 0 {
        Seq::empty()
    } else {
        sessions_entries(ss.drop_last()) + session_entries(ss.last())
    }
}

/// The workspace tree: a `sessions` row with their number, then each
/// session's rows.
pub open spec fn spec_workspace_entries(ss: Seq<SessionSeed>) -> Seq<(usize, Seq<char>, Seq<char>)> {
    seq![(0usize, "sessions"@, dec(ss.len()) + " hydrated"@)] + sessions_entries(ss)
}

/// The contract lines: the API version, where each pane's data comes
/// from, what the source adds, and a read-only note.
pub open spec fn spec_workspace_contract(api: Seq<char>, readonly: bool, source: SnapshotSource) -> Seq<Seq<char>> {
    seq![
        "api "@ + api,
        "snapshot.sessions -> Sessions, Tasks, Transcript"@,
        "snapshot task tails -> Artifacts hints"@,
        "snapshot target/status -> Workspace/Git fallback"@,
    ] + match source {
        SnapshotSource::Mock => seq!["mock backend seeds local M9.7 panes"@],
        SnapshotSource::Protocol => seq![
            "pane.snapshots.v1 hydrates panes when negotiated"@,
            "fallback panes render until server snapshot arrives"@,
        ],
        SnapshotSource::Unknown => Seq::empty(),
    } + if readonly { seq!["readonly launch: commands disabled"@] } else { Seq::empty() }
}

/// The pane root: the target, else the source's label.
pub open spec fn spec_seed_root(target: Option<&str>, source: SnapshotSource) -> Seq<char> {
    match target {
        Some(t) => t@,
        None => source.spec_label(),
    }
}

fn push_entry(v: &mut Vec<WorkspaceEntry>, depth: usize, label: String, detail: String)
    ensures
        entries_view(final(v)@) == entries_view(old(v)@).push((depth, label@, detail@)),
{
    let ghost before = v@;
    v.push(WorkspaceEntry { depth, label, detail });
    proof {
        assert(entries_view(v@) =~= entries_view(before).push((depth, label@, detail@)));
    }
}

fn push_line(v: &mut Vec<String>, line: &str)
    ensures
        final(v)@.map_values(|x: String| x@) == old(v)@.map_values(|x: String| x@).push(line@),
{
    let ghost before = v@;
    v.push(String::from_str(line));
    proof {
        assert(v@.map_values(|x: String| x@) =~= before.map_values(|x: String| x@).push(line@));
    }
}

/// The workspace pane a bootstrap snapshot implies (see
/// [`spec_workspace_entries`] and [`spec_workspace_contract`]); `api` is
/// the protocol version the client speaks.
pub fn seed_workspace(
    sessions: &Vec<SessionSeed>,
    target: Option<&str>,
    readonly: bool,
    source: SnapshotSource,
    api: &str,
) -> (r: WorkspacePaneState)
    ensures
        r.root@ == spec_seed_root(target, source),
        r.contract@.map_values(|x: String| x@) == spec_workspace_contract(api@, readonly, source),
        entries_view(r.entries@) == spec_workspace_entries(sessions@),
        r.selected == 0,
        r.scroll == 0,
{
    let mut contract: Vec<String> = Vec::new();
    let mut first = String::from_str("api ");
    first.append(api);
    let ghost f = first@;
    contract.push(first);
    proof { reveal_strlit("api "); assert(contract@.map_values(|x: String| x@) =~= seq![f]); }
    push_line(&mut contract, "snapshot.sessions -> Sessions, Tasks, Transcript");
    push_line(&mut contract, "snapshot task tails -> Artifacts hints");
    push_line(&mut contract, "snapshot target/status -> Workspace/Git fallback");
    match source {
        SnapshotSource::Mock => {
            push_line(&mut contract, "mock backend seeds local M9.7 panes");
        },
        SnapshotSource::Protocol => {
            push_line(&mut contract, "pane.snapshots.v1 hydrates panes when negotiated");
            push_line(&mut contract, "fallback panes render until server snapshot arrives");
        },
        SnapshotSource::Unknown => {},
    }
    if readonly {
        push_line(&mut contract, "readonly launch: commands disabled");
    }
    proof {
        assert(contract@.map_values(|x: String| x@) =~= spec_workspace_contract(api@, readonly, source));
    }

    let mut entries: Vec<WorkspaceEntry> = Vec::new();
    let mut count = usize_decimal(sessions.len());
    count.append(" hydrated");
    proof { reveal_strlit(" hydrated"); reveal_strlit("sessions"); }
    push_entry(&mut entries, 0, String::from_str("sessions"), count);
    let mut i: usize = 0;
    proof {
        assert(sessions@.take(0) =~= Seq::<SessionSeed>::empty());
        assert(entries_view(entries@) =~= seq![(0usize, "sessions"@, dec(sessions@.len()) + " hydrated"@)] + sessions_entries(sessions@.take(0)));
    }
    while i < sessions.len()
        invariant
            i <= sessions@.len(),
            entries_view(entries@) == seq![(0usize, "sessions"@, dec(sessions@.len()) + " hydrated"@)]
                + sessions_entries(sessions@.take(i as int)),
        decreases sessions@.len() - i,
    {
        let session = &sessions[i];
        let ghost head = entries_view(entries@);
        push_entry(&mut entries, 1, session.title.clone(), session.id.clone());
        proof { reveal_strlit("messages"); }
        push_entry(&mut entries, 2, String::from_str("messages"), usize_decimal(session.message_count));
        let ghost mid = entries_view(entries@);
        if session.tasks.len() == 0 {
            proof { reveal_strlit("tasks"); reveal_strlit("none"); }
            push_entry(&mut entries, 2, String::from_str("tasks"), String::from_str("none"));
        } else {
            let mut j: usize = 0;
            proof { assert(session.tasks@.take(0).map_values(|t: TaskSeed| (2usize, t.title@, t.state_label@)) =~= Seq::<(usize, Seq<char>, Seq<char>)>::empty()); }
            while j < session.tasks.len()
                invariant
                    j <= session.tasks@.len(),
                    entries_view(entries@) == mid + session.tasks@.take(j as int).map_values(
                        |t: TaskSeed| (2usize, t.title@, t.state_label@),
                    ),
                decreases session.tasks@.len() - j,
            {
                let task = &session.tasks[j];
                push_entry(&mut entries, 2, task.title.clone(), task.state_label.clone());
                proof {
                    assert(session.tasks@.take(j + 1).map_values(|t: TaskSeed| (2usize, t.title@, t.state_label@))
                        =~= session.tasks@.take(j as int).map_values(|t: TaskSeed| (2usize, t.title@, t.state_label@))
                            .push((2usize, task.title@, task.state_label@)));
                }
                j += 1;
            }
            proof { assert(session.tasks@.take(j as int) =~= session.tasks@); }
        }
        proof {
            let ss = sessions@.take(i + 1);
            assert(ss.drop_last() =~= sessions@.take(i as int));
            assert(ss.last() == sessions@[i as int]);
            assert(entries_view(entries@) =~= head + session_entries(sessions@[i as int]));
        }
        i += 1;
    }
    proof { assert(sessions@.take(i as int) =~= sessions@); }

    let root = match target {
        Some(t) => String::from_str(t),
        None => String::from_str(source.label()),
    };
    WorkspacePaneState { root, contract, entries, selected: 0, scroll: 0 }
}

/// An artifact row as (title, kind, source, status).
pub open spec fn artifact_view(a: ArtifactItem) -> (Seq<char>, Seq<char>, Seq<char>, Seq<char>) {
    (a.title@, a.kind@, a.source@, a.status@)
}

pub open spec fn artifacts_view(v: Seq<ArtifactItem>) -> Seq<(Seq<char>, Seq<char>, Seq<char>, Seq<char>)> {
    v.map_values(|a: ArtifactItem| artifact_view(a))
}

/// A task's artifact hints: the first non-blank line of its output tail,
/// and its diff preview, each where there is one.
pub open spec fn task_artifacts(session: Seq<char>, t: TaskSeed) -> Seq<(Seq<char>, Seq<char>, Seq<char>, Seq<char>)> {
    (match first_nonblank_line(t.output_tail@) {
        Some(line) => seq![(t.title@ + " output tail"@, "task-output"@, session, line)],
        None => Seq::empty(),
    }) + (match t.preview_id {
        Some(p) => seq![(t.title@ + " diff preview"@, "diff-preview"@, session, p@)],
        None => Seq::empty(),
    })
}

pub open spec fn tasks_artifacts(session: Seq<char>, ts: Seq<TaskSeed>) -> Seq<(Seq<char>, Seq<char>, Seq<char>, Seq<char>)>
    decreases ts.len(),
{
    if ts.len() == 0 {
        Seq::empty()
    } else {
        tasks_artifacts(session, ts.drop_last()) + task_artifacts(session, ts.last())
    }
}

pub open spec fn sessions_artifacts(ss: Seq<SessionSeed>) -> Seq<(Seq<char>, Seq<char>, Seq<char>, Seq<char>)>
    decreases ss.len(),
{
    if ss.len() == 0 {
        Seq::empty()
    } else {
        sessions_artifacts(ss.drop_last()) + tasks_artifacts(ss.last().title@, ss.last().tasks@)
    }
}

/// The row a snapshot source adds at the end, if any.
pub open spec fn source_artifacts(source: SnapshotSource) -> Seq<(Seq<char>, Seq<char>, Seq<char>, Seq<char>)> {
    match source {
        SnapshotSource::Mock => seq![("M9.7 mock artifact manifest"@, "mock"@, "mock backend"@, "seeded"@)],
        SnapshotSource::Protocol => seq![
            ("Protocol artifact stream"@, "contract"@, "app-ui protocol"@, "waiting for artifact payloads"@),
        ],
        SnapshotSource::Unknown => Seq::empty(),
    }
}

/// The artifacts pane: the snapshot itself, each task's hints in order,
/// and the source's row.
pub open spec fn spec_seed_artifacts(
    ss: Seq<SessionSeed>,
    status: Seq<char>,
    target: Option<&str>,
    readonly: bool,
    source: SnapshotSource,
) -> Seq<(Seq<char>, Seq<char>, Seq<char>, Seq<char>)> {
    seq![(
        "AppUi bootstrap snapshot"@,
        "snapshot"@,
        spec_seed_root(target, source),
        if readonly { "read-only"@ } else { status },
    )] + sessions_artifacts(ss) + source_artifacts(source)
}

fn push_artifact(v: &mut Vec<ArtifactItem>, title: String, kind: &str, source: String, status: String)
    ensures
        artifacts_view(final(v)@) == artifacts_view(old(v)@).push((title@, kind@, source@, status@)),
{
    let ghost before = v@;
    v.push(ArtifactItem { title, kind: String::from_str(kind), source, status });
    proof {
        assert(artifacts_view(v@) =~= artifacts_view(before).push((title@, kind@, source@, status@)));
    }
}

fn titled(title: &str, suffix: &str) -> (r: String)
    ensures
        r@ == title@ + suffix@,
{
    let mut t = String::from_str(title);
    t.append(suffix);
    t
}

/// The artifacts pane a bootstrap snapshot implies (see
/// [`spec_seed_artifacts`]); the first row is selected.
pub fn seed_artifacts(
    sessions: &Vec<SessionSeed>,
    status: &str,
    target: Option<&str>,
    readonly: bool,
    source: SnapshotSource,
) -> (r: ArtifactPaneState)
    ensures
        artifacts_view(r.items@) == spec_seed_artifacts(sessions@, status@, target, readonly, source),
        r.selected == 0,
{
    let mut items: Vec<ArtifactItem> = Vec::new();
    let origin = match target {
        Some(t) => String::from_str(t),
        None => String::from_str(source.label()),
    };
    let state = if readonly { String::from_str("read-only") } else { String::from_str(status) };
    proof { reveal_strlit("read-only"); reveal_strlit("AppUi bootstrap snapshot"); reveal_strlit("snapshot"); }
    push_artifact(&mut items, String::from_str("AppUi bootstrap snapshot"), "snapshot", origin, state);
    let ghost first = artifacts_view(items@);
    let mut i: usize = 0;
    proof { assert(sessions@.take(0) =~= Seq::<SessionSeed>::empty()); }
    while i < sessions.len()
        invariant
            i <= sessions@.len(),
            artifacts_view(items@) == first + sessions_artifacts(sessions@.take(i as int)),
        decreases sessions@.len() - i,
    {
        let session = &sessions[i];
        let ghost head = artifacts_view(items@);
        let mut j: usize = 0;
        proof { assert(session.tasks@.take(0) =~= Seq::<TaskSeed>::empty()); }
        while j < session.tasks.len()
            invariant
                j <= session.tasks@.len(),
                artifacts_view(items@) == head + tasks_artifacts(session.title@, session.tasks@.take(j as int)),
            decreases session.tasks@.len() - j,
        {
            let task = &session.tasks[j];
            let ghost before = artifacts_view(items@);
            let line = first_non_empty_line(task.output_tail.as_str());
            match line {
                Some(l) => {
                    proof { reveal_strlit(" output tail"); reveal_strlit("task-output"); }
                    push_artifact(
                        &mut items,
                        titled(task.title.as_str(), " output tail"),
                        "task-output",
                        session.title.clone(),
                        String::from_str(l),
                    );
                },
                None => {},
            }
            match &task.preview_id {
                Some(p) => {
                    proof { reveal_strlit(" diff preview"); reveal_strlit("diff-preview"); }
                    push_artifact(
                        &mut items,
                        titled(task.title.as_str(), " diff preview"),
                        "diff-preview",
                        session.title.clone(),
                        p.clone(),
                    );
                },
                None => {},
            }
            proof {
                let ts = session.tasks@.take(j + 1);
                assert(ts.drop_last() =~= session.tasks@.take(j as int));
                assert(ts.last() == session.tasks@[j as int]);
                assert(artifacts_view(items@) =~= before + task_artifacts(session.title@, session.tasks@[j as int]));
            }
            j += 1;
        }
        proof {
            assert(session.tasks@.take(j as int) =~= session.tasks@);
            let ss = sessions@.take(i + 1);
            assert(ss.drop_last() =~= sessions@.take(i as int));
            assert(ss.last() == sessions@[i as int]);
            assert(artifacts_view(items@) =~= first + sessions_artifacts(ss));
        }
        i += 1;
    }
    proof { assert(sessions@.take(i as int) =~= sessions@); }
    let ghost mid = artifacts_view(items@);
    match source {
        SnapshotSource::Mock => {
            proof {
                reveal_strlit("M9.7 mock artifact manifest");
                reveal_strlit("mock");
                reveal_strlit("mock backend");
                reveal_strlit("seeded");
            }
            push_artifact(
                &mut items,
                String::from_str("M9.7 mock artifact manifest"),
                "mock",
                String::from_str("mock backend"),
                String::from_str("seeded"),
            );
        },
        SnapshotSource::Protocol => {
            proof {
                reveal_strlit("Protocol artifact stream");
                reveal_strlit("contract");
                reveal_strlit("app-ui protocol");
                reveal_strlit("waiting for artifact payloads");
            }
            push_artifact(
                &mut items,
                String::from_str("Protocol artifact stream"),
                "contract",
                String::from_str("app-ui protocol"),
                String::from_str("waiting for artifact payloads"),
            );
        },
        SnapshotSource::Unknown => {},
    }
    proof {
        assert(artifacts_view(items@) =~= mid + source_artifacts(source));
    }
    ArtifactPaneState { items, selected: 0 }
}

/// The first line of `text` that is not blank, trimmed.
pub fn first_non_empty_line(text: &str) -> (r: Option<&str>)
    ensures
        match (r, first_nonblank_line(text@)) {
            (Some(a), Some(b)) => a@ == b,
            (None, None) => true,
            _ => false,
        },
{
    let v = str_chars(text);
    let n = v.len();
    let mut pos: usize = 0;
    assert(v@.skip(0) =~= v@);
    while pos < n
        invariant
            n == v.len(),
            v@ == text@,
            pos <= n,
            first_nonblank_line(v@) == first_nonblank_line(v@.skip(pos as int)),
        decreases n - pos,
    {
        let (e, ce) = line_bounds(&v, pos);
        let (a, b) = trim_bounds(&v, pos, ce);
        if a < b {
            return Some(text.substring_char(a, b));
        }
        if e == n {
            return None;
        }
        pos = e + 1;
    }
    assert(v@.skip(n as int).len() == 0);
    None
}

} // verus!
