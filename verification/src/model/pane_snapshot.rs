//! The side panes (artifacts, workspace, git) and how a pane snapshot
//! from the server replaces what they show. A snapshot may carry any of
//! the three panes; a pane it leaves out keeps its contents. Selections
//! are clamped to the new contents.

use vstd::prelude::*;
use crate::model::panes::{
    ArtifactItem, ArtifactPaneState, WorkspaceEntry, WorkspacePaneState, GitPaneState, GitStatusItem, GitHistoryItem,
    sat_sub, ring_next, ring_prev, follow_scroll,
};
use crate::model::snapshot::{artifacts_view, entries_view};

verus! {

/// An artifact as a pane snapshot lists it.
#[derive(Debug, Clone, PartialEq, Eq)]
pub struct ArtifactSnapshotItem {
    pub title: String,
    pub kind: String,
    pub path: Option<String>,
    pub source: Option<String>,
    pub status: String,
}

/// A workspace entry as a pane snapshot lists it.
#[derive(Debug, Clone, PartialEq, Eq)]
pub struct WorkspaceSnapshotEntry {
    pub path: String,
    pub label: String,
    pub depth: usize,
    pub kind: String,
    pub detail: Option<String>,
}

/// The workspace part of a pane snapshot.
#[derive(Debug, Clone, PartialEq, Eq)]
pub struct WorkspaceSnapshot {
    pub root: String,
    pub contract: Vec<String>,
    pub entries: Vec<WorkspaceSnapshotEntry>,
}

/// The git part of a pane snapshot.
#[derive(Debug, Clone, PartialEq, Eq)]
pub struct GitSnapshot {
    pub branch: Option<String>,
    pub head: Option<String>,
    pub status: Vec<GitStatusItem>,
    pub history: Vec<GitHistoryItem>,
}

/// The panes a server snapshot carries.
#[derive(Debug, Clone, PartialEq, Eq)]
pub struct PaneSnapshot {
    pub artifacts: Option<Vec<ArtifactSnapshotItem>>,
    pub workspace: Option<WorkspaceSnapshot>,
    pub git: Option<GitSnapshot>,
}

/// An artifact row from a snapshot item: its source, else its path, else
/// `protocol`.
pub open spec fn artifact_row(i: ArtifactSnapshotItem) -> (Seq<char>, Seq<char>, Seq<char>, Seq<char>) {
    (
        i.title@,
        i.kind@,
        match i.source {
            Some(s) => s@,
            None => match i.path {
                Some(p) => p@,
                None => "protocol"@,
            },
        },
        i.status@,
    )
}

/// A workspace row from a snapshot entry: its detail, else its kind and
/// path.
pub open spec fn workspace_row(e: WorkspaceSnapshotEntry) -> (usize, Seq<char>, Seq<char>) {
    (e.depth, e.label@, match e.detail {
        Some(d) => d@,
        None => e.kind@ + " "@ + e.path@,
    })
}

/// A selection kept within `len` rows: at most the last row, 0 when empty.
pub open spec fn clamped(selected: int, len: int) -> int {
    let last = sat_sub(len, 1);
    if selected < last { selected } else { last }
}

pub open spec fn min_int(a: int, b: int) -> int {
    if a < b { a } else { b }
}

fn artifact_rows(items: &Vec<ArtifactSnapshotItem>) -> (r: Vec<ArtifactItem>)
    ensures
        artifacts_view(r@) == items@.map_values(|i: ArtifactSnapshotItem| artifact_row(i)),
{
    let mut out: Vec<ArtifactItem> = Vec::new();
    let mut k: usize = 0;
    proof { reveal_strlit("protocol"); }
    while k < items.len()
        invariant
            k <= items@.len(),
            artifacts_view(out@) == items@.take(k as int).map_values(|i: ArtifactSnapshotItem| artifact_row(i)),
        decreases items@.len() - k,
    {
        let it = &items[k];
        let source = match &it.source {
            Some(s) => s.clone(),
            None => match &it.path {
                Some(p) => p.clone(),
                None => String::from_str("protocol"),
            },
        };
        let ghost before = out@;
        out.push(ArtifactItem { title: it.title.clone(), kind: it.kind.clone(), source, status: it.status.clone() });
        proof {
            assert(items@.take(k + 1).map_values(|i: ArtifactSnapshotItem| artifact_row(i)) =~= items@.take(
                k as int,
            ).map_values(|i: ArtifactSnapshotItem| artifact_row(i)).push(artifact_row(*it)));
            assert(artifacts_view(out@) =~= artifacts_view(before).push(artifact_row(*it)));
        }
        k += 1;
    }
    proof { assert(items@.take(k as int) =~= items@); }
    out
}

fn workspace_rows(entries: &Vec<WorkspaceSnapshotEntry>) -> (r: Vec<WorkspaceEntry>)
    ensures
        entries_view(r@) == entries@.map_values(|e: WorkspaceSnapshotEntry| workspace_row(e)),
{
    let mut out: Vec<WorkspaceEntry> = Vec::new();
    let mut k: usize = 0;
    proof { reveal_strlit(" "); }
    while k < entries.len()
        invariant
            k <= entries@.len(),
            entries_view(out@) == entries@.take(k as int).map_values(|e: WorkspaceSnapshotEntry| workspace_row(e)),
        decreases entries@.len() - k,
    {
        let e = &entries[k];
        let detail = match &e.detail {
            Some(d) => d.clone(),
            None => {
                let mut d = e.kind.clone();
                d.append(" ");
                d.append(e.path.as_str());
                d
            },
        };
        let ghost before = out@;
        out.push(WorkspaceEntry { depth: e.depth, label: e.label.clone(), detail });
        proof {
            assert(entries@.take(k + 1).map_values(|e: WorkspaceSnapshotEntry| workspace_row(e)) =~= entries@.take(
                k as int,
            ).map_values(|e: WorkspaceSnapshotEntry| workspace_row(e)).push(workspace_row(*e)));
            assert(entries_view(out@) =~= entries_view(before).push(workspace_row(*e)));
        }
        k += 1;
    }
    proof { assert(entries@.take(k as int) =~= entries@); }
    out
}

fn clamp_selection(selected: usize, len: usize) -> (r: usize)
    ensures
        r == clamped(selected as int, len as int),
{
    let last = len.saturating_sub(1);
    if selected < last { selected } else { last }
}

/// The artifacts, workspace and git panes beside the transcript.
#[derive(Debug)]
pub struct SidePanes {
    pub artifacts: ArtifactPaneState,
    pub workspace: WorkspacePaneState,
    pub git: GitPaneState,
}

impl SidePanes {
    /// Show what a pane snapshot carries. Artifacts take their source,
    /// else their path, else `protocol`; workspace entries without detail
    /// show their kind and path; git without a branch reads `not
    /// supplied`. Each replaced pane keeps its selection within its new
    /// rows, and a scrolled pane does not scroll past its selection.
    pub fn apply_pane_snapshot(&mut self, panes: PaneSnapshot)
        requires
            panes.git matches Some(g) ==> g.status@.len() + g.history@.len() <= usize::MAX,
        ensures
            match panes.artifacts {
                Some(items) => artifacts_view(final(self).artifacts.items@) == items@.map_values(
                    |i: ArtifactSnapshotItem| artifact_row(i),
                ) && final(self).artifacts.selected == clamped(
                    old(self).artifacts.selected as int,
                    items@.len() as int,
                ),
                None => final(self).artifacts == old(self).artifacts,
            },
            match panes.workspace {
                Some(w) => {
                    &&& final(self).workspace.root == w.root
                    &&& final(self).workspace.contract == w.contract
                    &&& entries_view(final(self).workspace.entries@) == w.entries@.map_values(
                        |e: WorkspaceSnapshotEntry| workspace_row(e),
                    )
                    &&& final(self).workspace.selected == clamped(
                        old(self).workspace.selected as int,
                        w.entries@.len() as int,
                    )
                    &&& final(self).workspace.scroll == min_int(
                        old(self).workspace.scroll as int,
                        final(self).workspace.selected as int,
                    )
                },
                None => final(self).workspace == old(self).workspace,
            },
            match panes.git {
                Some(g) => {
                    &&& final(self).git.branch@ == (match g.branch {
                        Some(b) => b@,
                        None => "not supplied"@,
                    })
                    &&& final(self).git.head == g.head
                    &&& final(self).git.status == g.status
                    &&& final(self).git.history == g.history
                    &&& final(self).git.selected == clamped(
                        old(self).git.selected as int,
                        (g.status@.len() + g.history@.len()) as int,
                    )
                    &&& final(self).git.scroll == min_int(
                        old(self).git.scroll as int,
                        final(self).git.selected as int,
                    )
                },
                None => final(self).git == old(self).git,
            },
    {
        let PaneSnapshot { artifacts, workspace, git } = panes;
        match artifacts {
            Some(items) => {
                self.artifacts.items = artifact_rows(&items);
                self.artifacts.selected = clamp_selection(self.artifacts.selected, items.len());
            },
            None => {},
        }
        match workspace {
            Some(w) => {
                let WorkspaceSnapshot { root, contract, entries } = w;
                self.workspace.root = root;
                self.workspace.contract = contract;
                self.workspace.entries = workspace_rows(&entries);
                self.workspace.selected = clamp_selection(self.workspace.selected, entries.len());
                if self.workspace.selected < self.workspace.scroll {
                    self.workspace.scroll = self.workspace.selected;
                }
            },
            None => {},
        }
        match git {
            Some(g) => {
                let GitSnapshot { branch, head, status, history } = g;
                proof { reveal_strlit("not supplied"); }
                self.git.branch = match branch {
                    Some(b) => b,
                    None => String::from_str("not supplied"),
                };
                self.git.head = head;
                self.git.status = status;
                self.git.history = history;
                let len = self.git.selectable_len();
                self.git.selected = clamp_selection(self.git.selected, len);
                if self.git.selected < self.git.scroll {
                    self.git.scroll = self.git.selected;
                }
            },
            None => {},
        }
    }

    /// Select the next artifact, wrapping.
    pub fn select_next_artifact(&mut self)
        requires
            old(self).artifacts.items@.len() > 0 ==> old(self).artifacts.selected < usize::MAX,
        ensures
            old(self).artifacts.items@.len() > 0 ==> final(self).artifacts.selected == ring_next(
                old(self).artifacts.selected as int,
                old(self).artifacts.items@.len() as int,
            ),
            old(self).artifacts.items@.len() == 0 ==> final(self).artifacts.selected == old(self).artifacts.selected,
            final(self).artifacts.items@ == old(self).artifacts.items@,
            final(self).workspace == old(self).workspace,
            final(self).git == old(self).git,
    {
        self.artifacts.select_next();
    }

    /// Select the previous artifact, wrapping.
    pub fn select_prev_artifact(&mut self)
        ensures
            old(self).artifacts.items@.len() > 0 ==> final(self).artifacts.selected == ring_prev(
                old(self).artifacts.selected as int,
                old(self).artifacts.items@.len() as int,
            ),
            old(self).artifacts.items@.len() == 0 ==> final(self).artifacts.selected == old(self).artifacts.selected,
            final(self).artifacts.items@ == old(self).artifacts.items@,
            final(self).workspace == old(self).workspace,
            final(self).git == old(self).git,
    {
        self.artifacts.select_prev();
    }

    /// Select the next workspace entry, wrapping and following it.
    pub fn select_next_workspace_entry(&mut self)
        requires
            old(self).workspace.entries@.len() > 0 ==> old(self).workspace.selected < usize::MAX,
        ensures
            old(self).workspace.entries@.len() > 0 ==> final(self).workspace.selected == ring_next(
                old(self).workspace.selected as int,
                old(self).workspace.entries@.len() as int,
            ) && final(self).workspace.scroll == follow_scroll(final(self).workspace.selected as int),
            old(self).workspace.entries@.len() == 0 ==> final(self).workspace.selected == old(self).workspace.selected
                && final(self).workspace.scroll == old(self).workspace.scroll,
            final(self).workspace.entries@ == old(self).workspace.entries@,
            final(self).artifacts == old(self).artifacts,
            final(self).git == old(self).git,
    {
        self.workspace.select_next();
    }

    /// Select the previous workspace entry, wrapping and following it.
    pub fn select_prev_workspace_entry(&mut self)
        ensures
            old(self).workspace.entries@.len() > 0 ==> final(self).workspace.selected == ring_prev(
                old(self).workspace.selected as int,
                old(self).workspace.entries@.len() as int,
            ) && final(self).workspace.scroll == follow_scroll(final(self).workspace.selected as int),
            old(self).workspace.entries@.len() == 0 ==> final(self).workspace.selected == old(self).workspace.selected
                && final(self).workspace.scroll == old(self).workspace.scroll,
            final(self).workspace.entries@ == old(self).workspace.entries@,
            final(self).artifacts == old(self).artifacts,
            final(self).git == old(self).git,
    {
        self.workspace.select_prev();
    }

    /// Select the next git row (status rows, then history), wrapping.
    pub fn select_next_git_entry(&mut self)
        requires
            old(self).git.spec_selectable_len() > 0 ==> old(self).git.selected < usize::MAX,
            old(self).git.spec_selectable_len() <= usize::MAX,
        ensures
            old(self).git.spec_selectable_len() > 0 ==> final(self).git.selected == ring_next(
                old(self).git.selected as int,
                old(self).git.spec_selectable_len(),
            ) && final(self).git.scroll == follow_scroll(final(self).git.selected as int),
            old(self).git.spec_selectable_len() == 0 ==> final(self).git.selected == old(self).git.selected
                && final(self).git.scroll == old(self).git.scroll,
            final(self).git.status@ == old(self).git.status@,
            final(self).git.history@ == old(self).git.history@,
            final(self).artifacts == old(self).artifacts,
            final(self).workspace == old(self).workspace,
    {
        self.git.select_next();
    }

    /// Select the previous git row, wrapping.
    pub fn select_prev_git_entry(&mut self)
        requires
            old(self).git.spec_selectable_len() <= usize::MAX,
        ensures
            old(self).git.spec_selectable_len() > 0 ==> final(self).git.selected == ring_prev(
                old(self).git.selected as int,
                old(self).git.spec_selectable_len(),
            ) && final(self).git.scroll == follow_scroll(final(self).git.selected as int),
            old(self).git.spec_selectable_len() == 0 ==> final(self).git.selected == old(self).git.selected
                && final(self).git.scroll == old(self).git.scroll,
            final(self).git.status@ == old(self).git.status@,
            final(self).git.history@ == old(self).git.history@,
            final(self).artifacts == old(self).artifacts,
            final(self).workspace == old(self).workspace,
    {
        self.git.select_prev();
    }
}

} // verus!
