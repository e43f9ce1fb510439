//! The diff preview pane: a requested preview, its files and hunks, and
//! which hunk is selected.

use vstd::prelude::*;
use crate::json::str_eq;

verus! {

/// Identifies a session.
#[derive(Debug, Clone, PartialEq, Eq, Hash)]
pub struct SessionKey(pub String);

/// Identifies a diff preview.
#[derive(Debug, Clone, PartialEq, Eq, Hash)]
pub struct PreviewId(pub String);

/// Identifies a turn of a session.
#[derive(Debug, Clone, PartialEq, Eq, Hash)]
pub struct TurnId(pub String);

/// One line of a hunk: its kind (`context`, `add`, `remove`, ...), text
/// and line numbers on either side.
#[derive(Debug, Clone, PartialEq, Eq)]
pub struct DiffPreviewLine {
    pub kind: String,
    pub content: String,
    pub old_line: Option<u32>,
    pub new_line: Option<u32>,
}

#[derive(Debug, Clone, PartialEq, Eq)]
pub struct DiffPreviewHunk {
    pub header: String,
    pub lines: Vec<DiffPreviewLine>,
}

#[derive(Debug, Clone, PartialEq, Eq)]
pub struct DiffPreviewFile {
    pub path: String,
    pub old_path: Option<String>,
    pub status: String,
    pub hunks: Vec<DiffPreviewHunk>,
}

/// A proposed change set, file by file.
#[derive(Debug, Clone, PartialEq, Eq)]
pub struct DiffPreview {
    pub session_id: SessionKey,
    pub preview_id: PreviewId,
    pub title: Option<String>,
    pub files: Vec<DiffPreviewFile>,
}

/// The answer to a diff preview request.
#[derive(Debug, Clone, PartialEq, Eq)]
pub struct DiffPreviewGetResult {
    pub status: String,
    pub source: String,
    pub preview: DiffPreview,
}

/// The status of a diff file the server did not describe.
pub fn unknown_label() -> (r: String)
    ensures
        r@ == "unknown"@,
{
    String::from_str("unknown")
}

/// The kind of a diff line the server did not describe.
pub fn context_label() -> (r: String)
    ensures
        r@ == "context"@,
{
    String::from_str("context")
}

/// The selected hunk with the file it belongs to.
#[derive(Debug, Clone, PartialEq, Eq)]
pub struct DiffHunkContext {
    pub path: String,
    pub old_path: Option<String>,
    pub file_status: String,
    pub hunk_header: String,
    pub lines: Vec<DiffPreviewLine>,
}

/// Every hunk as `(file index, hunk index)`, files in order and hunks in
/// order within each file.
pub open spec fn hunk_locations_of(files: Seq<DiffPreviewFile>) -> Seq<(usize, usize)>
    decreases files.len(),
{
    if files.len() == 0 {
        Seq::empty()
    } else {
        let k = (files.len() - 1) as usize;
        hunk_locations_of(files.drop_last()) + Seq::new(
            files.last().hunks@.len(),
            |j: int| (k, j as usize),
        )
    }
}

/// Position of `(file, hunk)` among `locs`, if it is there.
pub open spec fn location_index(locs: Seq<(usize, usize)>, file: usize, hunk: usize) -> Option<int>
    decreases locs.len(),
{
    if locs.len() == 0 {
        None
    } else if locs[0] == (file, hunk) {
        Some(0)
    } else {
        match location_index(locs.drop_first(), file, hunk) {
            Some(i) => Some(i + 1),
            None => None,
        }
    }
}

/// The diff preview pane.
#[derive(Debug, Clone, PartialEq, Eq)]
pub struct DiffPreviewPaneState {
    pub active: bool,
    pub loading: bool,
    pub turn_id: Option<TurnId>,
    pub requested_preview_id: Option<PreviewId>,
    pub status: Option<String>,
    pub source: Option<String>,
    pub preview: Option<DiffPreview>,
    pub error: Option<String>,
    pub scroll: usize,
    pub selected_file: usize,
    pub selected_hunk: usize,
}

impl Default for DiffPreviewPaneState {
    fn default() -> (r: Self)
        ensures
            r.is_closed(),
    {
        DiffPreviewPaneState {
            active: false,
            loading: false,
            turn_id: None,
            requested_preview_id: None,
            status: None,
            source: None,
            preview: None,
            error: None,
            scroll: 0,
            selected_file: 0,
            selected_hunk: 0,
        }
    }
}

fn copy_line(l: &DiffPreviewLine) -> (r: DiffPreviewLine)
    ensures
        r == *l,
{
    DiffPreviewLine { kind: l.kind.clone(), content: l.content.clone(), old_line: l.old_line, new_line: l.new_line }
}

fn copy_opt_string(o: &Option<String>) -> (r: Option<String>)
    ensures
        r == *o,
{
    match o {
        Some(s) => Some(s.clone()),
        None => None,
    }
}

impl DiffPreviewPaneState {
    pub open spec fn is_closed(&self) -> bool {
        !self.active && !self.loading && self.turn_id.is_none() && self.requested_preview_id.is_none()
            && self.status.is_none() && self.source.is_none() && self.preview.is_none() && self.error.is_none()
            && self.scroll == 0 && self.selected_file == 0 && self.selected_hunk == 0
    }

    pub open spec fn locations(&self) -> Seq<(usize, usize)> {
        match self.preview {
            Some(p) => hunk_locations_of(p.files@),
            None => Seq::empty(),
        }
    }

    /// Show a loading pane for `preview_id`.
    pub fn open_loading(&mut self, preview_id: PreviewId)
        ensures
            final(self).active && final(self).loading,
            final(self).turn_id.is_none(),
            final(self).requested_preview_id == Some(preview_id),
            final(self).status matches Some(s) && s@ == "loading"@,
            final(self).preview.is_none() && final(self).error.is_none() && final(self).source.is_none(),
            final(self).scroll == 0 && final(self).selected_file == 0 && final(self).selected_hunk == 0,
    {
        self.open_loading_for_turn(preview_id, None);
    }

    /// Show a loading pane for `preview_id`, remembering the turn it
    /// belongs to.
    pub fn open_loading_for_turn(&mut self, preview_id: PreviewId, turn_id: Option<TurnId>)
        ensures
            final(self).active && final(self).loading,
            final(self).turn_id == turn_id,
            final(self).requested_preview_id == Some(preview_id),
            final(self).status matches Some(s) && s@ == "loading"@,
            final(self).preview.is_none() && final(self).error.is_none() && final(self).source.is_none(),
            final(self).scroll == 0 && final(self).selected_file == 0 && final(self).selected_hunk == 0,
    {
        proof { reveal_strlit("loading"); }
        *self = DiffPreviewPaneState {
            active: true,
            loading: true,
            turn_id,
            requested_preview_id: Some(preview_id),
            status: Some(String::from_str("loading")),
            source: None,
            preview: None,
            error: None,
            scroll: 0,
            selected_file: 0,
            selected_hunk: 0,
        };
    }

    /// Whether the hunk count of `preview` fits in a `usize`.
    pub open spec fn spec_locations_fit(&self, preview: DiffPreview) -> bool {
        hunk_locations_of(preview.files@).len() <= usize::MAX
    }

    /// Show a received preview. The turn is kept only when the preview is
    /// the one that was requested; the first hunk is selected.
    pub fn apply_result(&mut self, result: DiffPreviewGetResult)
        requires
            old(self).spec_locations_fit(result.preview),
        ensures
            final(self).active && !final(self).loading,
            final(self).turn_id == (match old(self).requested_preview_id {
                Some(p) => if p.0@ == result.preview.preview_id.0@ { old(self).turn_id } else { None },
                None => None,
            }),
            final(self).requested_preview_id == Some(result.preview.preview_id),
            final(self).status == Some(result.status),
            final(self).source == Some(result.source),
            final(self).preview == Some(result.preview),
            final(self).error.is_none(),
            final(self).scroll == 0,
            final(self).locations().len() > 0 ==> (final(self).selected_file, final(self).selected_hunk)
                == final(self).locations()[0],
            final(self).locations().len() == 0 ==> final(self).selected_file == 0 && final(self).selected_hunk == 0,
    {
        let same = match &self.requested_preview_id {
            Some(p) => str_eq(p.0.as_str(), result.preview.preview_id.0.as_str()),
            None => false,
        };
        let turn_id = if same { copy_turn(&self.turn_id) } else { None };
        self.active = true;
        self.loading = false;
        self.turn_id = turn_id;
        self.requested_preview_id = Some(PreviewId(result.preview.preview_id.0.clone()));
        self.status = Some(result.status);
        self.source = Some(result.source);
        self.preview = Some(result.preview);
        self.error = None;
        self.scroll = 0;
        self.clamp_selection();
    }

    pub fn close(&mut self)
        ensures
            final(self).is_closed(),
    {
        *self = DiffPreviewPaneState::default();
    }

    /// Scroll towards the top of the diff (the offset grows).
    pub fn scroll_up(&mut self, lines: usize)
        ensures
            final(self).scroll == crate::model::panes::sat_add(old(self).scroll as int, lines as int),
            final(self).selected_file == old(self).selected_file,
            final(self).selected_hunk == old(self).selected_hunk,
            final(self).preview == old(self).preview,
    {
        self.scroll = self.scroll.saturating_add(lines);
    }

    /// Scroll towards the bottom of the diff (the offset shrinks).
    pub fn scroll_down(&mut self, lines: usize)
        ensures
            final(self).scroll == crate::model::panes::sat_sub(old(self).scroll as int, lines as int),
            final(self).selected_file == old(self).selected_file,
            final(self).selected_hunk == old(self).selected_hunk,
            final(self).preview == old(self).preview,
    {
        self.scroll = self.scroll.saturating_sub(lines);
    }

    /// Every hunk's location (see [`hunk_locations_of`]).
    fn hunk_locations(&self) -> (r: Vec<(usize, usize)>)
        requires
            self.locations().len() <= usize::MAX,
        ensures
            r@ == self.locations(),
    {
        let mut out: Vec<(usize, usize)> = Vec::new();
        match &self.preview {
            Some(p) => {
                let n = p.files.len();
                let mut f: usize = 0;
                assert(p.files@.take(0) =~= Seq::<DiffPreviewFile>::empty());
                while f < n
                    invariant
                        n == p.files@.len(),
                        f <= n,
                        out@ == hunk_locations_of(p.files@.take(f as int)),
                        hunk_locations_of(p.files@).len() <= usize::MAX,
                    decreases n - f,
                {
                    proof { lemma_locations_prefix_len(p.files@, f as int + 1); }
                    assert(p.files@.take(f + 1).drop_last() =~= p.files@.take(f as int));
                    let m = p.files[f].hunks.len();
                    let ghost before = out@;
                    let mut h: usize = 0;
                    while h < m
                        invariant
                            m == p.files@[f as int].hunks@.len(),
                            h <= m,
                            out@ == before + Seq::new(h as nat, |j: int| (f, j as usize)),
                        decreases m - h,
                    {
                        out.push((f, h));
                        assert(before + Seq::new((h + 1) as nat, |j: int| (f, j as usize))
                            =~= (before + Seq::new(h as nat, |j: int| (f, j as usize))).push((f, h)));
                        h += 1;
                    }
                    assert(p.files@.take(f + 1).last() == p.files@[f as int]);
                    assert(out@ =~= hunk_locations_of(p.files@.take(f + 1)));
                    f += 1;
                }
                assert(p.files@.take(n as int) =~= p.files@);
            },
            None => {},
        }
        out
    }

    /// The first hunk, or nothing selected.
    fn clamp_selection(&mut self)
        requires
            old(self).locations().len() <= usize::MAX,
        ensures
            final(self).preview == old(self).preview,
            final(self).active == old(self).active && final(self).loading == old(self).loading,
            final(self).turn_id == old(self).turn_id,
            final(self).requested_preview_id == old(self).requested_preview_id,
            final(self).status == old(self).status && final(self).source == old(self).source,
            final(self).error == old(self).error && final(self).scroll == old(self).scroll,
            old(self).locations().len() > 0 ==> (final(self).selected_file, final(self).selected_hunk)
                == old(self).locations()[0],
            old(self).locations().len() == 0 ==> final(self).selected_file == 0 && final(self).selected_hunk == 0,
    {
        let hunks = self.hunk_locations();
        if hunks.len() > 0 {
            let (f, h) = hunks[0];
            self.selected_file = f;
            self.selected_hunk = h;
        } else {
            self.selected_file = 0;
            self.selected_hunk = 0;
        }
    }

    fn selected_location_index(&self, hunks: &Vec<(usize, usize)>) -> (r: Option<usize>)
        ensures
            match (r, location_index(hunks@, self.selected_file, self.selected_hunk)) {
                (Some(a), Some(b)) => a == b,
                (None, None) => true,
                _ => false,
            },
    {
        let n = hunks.len();
        let mut i: usize = 0;
        assert(hunks@.skip(0) =~= hunks@);
        while i < n
            invariant
                n == hunks@.len(),
                i <= n,
                location_index(hunks@, self.selected_file, self.selected_hunk) == match location_index(
                    hunks@.skip(i as int),
                    self.selected_file,
                    self.selected_hunk,
                ) {
                    Some(k) => Some(k + i),
                    None => None,
                },
            decreases n - i,
        {
            assert(hunks@.skip(i as int)[0] == hunks@[i as int]);
            assert(hunks@.skip(i as int).drop_first() =~= hunks@.skip(i + 1));
            let (f, h) = hunks[i];
            if f == self.selected_file && h == self.selected_hunk {
                return Some(i);
            }
            i += 1;
        }
        None
    }

    /// Select the following hunk, wrapping to the first; from a selection
    /// that names no hunk, the second.
    pub fn select_next_hunk(&mut self)
        requires
            old(self).locations().len() <= usize::MAX,
        ensures
            final(self).preview == old(self).preview,
            final(self).scroll == old(self).scroll,
            old(self).locations().len() == 0 ==> final(self).selected_file == old(self).selected_file
                && final(self).selected_hunk == old(self).selected_hunk,
            ({
                let locs = old(self).locations();
                let cur = match location_index(locs, old(self).selected_file, old(self).selected_hunk) {
                    Some(i) => i,
                    None => 0,
                };
                locs.len() > 0 ==> (final(self).selected_file, final(self).selected_hunk) == locs[(cur + 1) % (locs.len() as int)]
            }),
    {
        let hunks = self.hunk_locations();
        if hunks.len() == 0 {
            return;
        }
        proof { lemma_location_index_bound(hunks@, self.selected_file, self.selected_hunk); }
        let current = match self.selected_location_index(&hunks) {
            Some(i) => i,
            None => 0,
        };
        let (f, h) = hunks[(current + 1) % hunks.len()];
        self.selected_file = f;
        self.selected_hunk = h;
    }

    /// Select the preceding hunk, wrapping to the last; from a selection
    /// that names no hunk, the last.
    pub fn select_prev_hunk(&mut self)
        requires
            old(self).locations().len() <= usize::MAX,
        ensures
            final(self).preview == old(self).preview,
            final(self).scroll == old(self).scroll,
            old(self).locations().len() == 0 ==> final(self).selected_file == old(self).selected_file
                && final(self).selected_hunk == old(self).selected_hunk,
            ({
                let locs = old(self).locations();
                let cur = match location_index(locs, old(self).selected_file, old(self).selected_hunk) {
                    Some(i) => i,
                    None => 0,
                };
                locs.len() > 0 ==> (final(self).selected_file, final(self).selected_hunk)
                    == locs[if cur == 0 { locs.len() - 1 } else { cur - 1 }]
            }),
    {
        let hunks = self.hunk_locations();
        if hunks.len() == 0 {
            return;
        }
        proof { lemma_location_index_bound(hunks@, self.selected_file, self.selected_hunk); }
        let current = match self.selected_location_index(&hunks) {
            Some(i) => i,
            None => 0,
        };
        let next = if current == 0 { hunks.len() - 1 } else { current - 1 };
        let (f, h) = hunks[next];
        self.selected_file = f;
        self.selected_hunk = h;
    }

    /// The selected hunk with its file's path and status, when the
    /// selection names one.
    pub fn selected_hunk_context(&self) -> (r: Option<DiffHunkContext>)
        ensures
            match self.preview {
                Some(p) => if self.selected_file < p.files@.len()
                    && self.selected_hunk < p.files@[self.selected_file as int].hunks@.len() {
                    r matches Some(c) && ({
                        let file = p.files@[self.selected_file as int];
                        let hunk = file.hunks@[self.selected_hunk as int];
                        &&& c.path == file.path
                        &&& c.old_path == file.old_path
                        &&& c.file_status == file.status
                        &&& c.hunk_header == hunk.header
                        &&& c.lines@ == hunk.lines@
                    })
                } else {
                    r.is_none()
                },
                None => r.is_none(),
            },
    {
        let p = match &self.preview {
            Some(p) => p,
            None => {
                return None;
            },
        };
        if self.selected_file >= p.files.len() {
            return None;
        }
        let file = &p.files[self.selected_file];
        if self.selected_hunk >= file.hunks.len() {
            return None;
        }
        let hunk = &file.hunks[self.selected_hunk];
        let mut lines: Vec<DiffPreviewLine> = Vec::new();
        let mut i: usize = 0;
        while i < hunk.lines.len()
            invariant
                i <= hunk.lines@.len(),
                lines@ =~= hunk.lines@.take(i as int),
            decreases hunk.lines@.len() - i,
        {
            lines.push(copy_line(&hunk.lines[i]));
            i += 1;
        }
        assert(hunk.lines@.take(hunk.lines@.len() as int) =~= hunk.lines@);
        Some(DiffHunkContext {
            path: file.path.clone(),
            old_path: copy_opt_string(&file.old_path),
            file_status: file.status.clone(),
            hunk_header: hunk.header.clone(),
            lines,
        })
    }
}

fn copy_turn(o: &Option<TurnId>) -> (r: Option<TurnId>)
    ensures
        r == *o,
{
    match o {
        Some(t) => Some(TurnId(t.0.clone())),
        None => None,
    }
}

proof fn lemma_locations_prefix_len(files: Seq<DiffPreviewFile>, k: int)
    requires
        0 <= k <= files.len(),
    ensures
        hunk_locations_of(files.take(k)).len() <= hunk_locations_of(files).len(),
    decreases files.len() - k,
{
    if k < files.len() {
        lemma_locations_prefix_len(files, k + 1);
        assert(files.take(k + 1).drop_last() =~= files.take(k));
    } else {
        assert(files.take(k) =~= files);
    }
}

proof fn lemma_location_index_bound(locs: Seq<(usize, usize)>, file: usize, hunk: usize)
    ensures
        match location_index(locs, file, hunk) {
            Some(i) => 0 <= i < locs.len() && locs[i] == (file, hunk),
            None => true,
        },
    decreases locs.len(),
{
    if locs.len() > 0 && locs[0] != (file, hunk) {
        lemma_location_index_bound(locs.drop_first(), file, hunk);
    }
}


pub open spec fn loc_lt(a: (usize, usize), b: (usize, usize)) -> bool {
    a.0 < b.0 || (a.0 == b.0 && a.1 < b.1)
}

proof fn lemma_locations_sorted(files: Seq<DiffPreviewFile>)
    requires
        files.len() <= usize::MAX,
    ensures
        forall|a: int, b: int| 0 <= a < b < hunk_locations_of(files).len()
            ==> loc_lt(#[trigger] hunk_locations_of(files)[a], #[trigger] hunk_locations_of(files)[b]),
        forall|a: int| 0 <= a < hunk_locations_of(files).len() ==> (#[trigger] hunk_locations_of(files)[a]).0 < files.len(),
    decreases files.len(),
{
    if files.len() > 0 {
        let d = files.drop_last();
        lemma_locations_sorted(d);
        let l = hunk_locations_of(files);
        let pre = hunk_locations_of(d);
        let k = (files.len() - 1) as usize;
        assert forall|a: int| 0 <= a < l.len() implies (#[trigger] l[a]).0 < files.len() by {
            if a < pre.len() {
                assert(l[a] == pre[a]);
            }
        }
        assert forall|a: int, b: int| 0 <= a < b < l.len() implies loc_lt(#[trigger] l[a], #[trigger] l[b]) by {
            if b < pre.len() {
                assert(l[a] == pre[a] && l[b] == pre[b]);
                assert(loc_lt(pre[a], pre[b]));
            } else if a < pre.len() {
                assert(l[a] == pre[a]);
                assert(pre[a].0 < d.len());
                assert(l[b].0 == k);
            } else {
                let m = files.last().hunks@.len();
                vstd::std_specs::vec::axiom_spec_len(&files.last().hunks);
                assert(m <= usize::MAX);
                assert(l[a] == (k, (a - pre.len()) as usize));
                assert(l[b] == (k, (b - pre.len()) as usize));
            }
        }
    }
}

proof fn lemma_location_index_of_sorted(locs: Seq<(usize, usize)>, i: int)
    requires
        forall|a: int, b: int| 0 <= a < b < locs.len() ==> loc_lt(#[trigger] locs[a], #[trigger] locs[b]),
        0 <= i < locs.len(),
    ensures
        location_index(locs, locs[i].0, locs[i].1) == Some(i),
    decreases i,
{
    if i > 0 {
        let t = locs.drop_first();
        assert forall|a: int, b: int| 0 <= a < b < t.len() implies loc_lt(#[trigger] t[a], #[trigger] t[b]) by {
            assert(t[a] == locs[a + 1] && t[b] == locs[b + 1]);
        }
        lemma_location_index_of_sorted(t, i - 1);
        assert(t[i - 1] == locs[i]);
        assert(locs[0] != locs[i]) by {
            assert(loc_lt(locs[0], locs[i]));
        }
    }
}

/// Stepping to the next hunk and back selects the hunk one started from,
/// and so does stepping back then forward: hunk navigation is a cycle
/// through every hunk of the preview.
pub proof fn law_hunk_navigation_round_trip(files: Seq<DiffPreviewFile>, i: int)
    requires
        files.len() <= usize::MAX,
        0 <= i < hunk_locations_of(files).len(),
    ensures
        ({
            let locs = hunk_locations_of(files);
            let n = locs.len() as int;
            let next = (i + 1) % n;
            let prev = if i == 0 { n - 1 } else { i - 1 };
            &&& location_index(locs, locs[i].0, locs[i].1) == Some(i)
            &&& location_index(locs, locs[next].0, locs[next].1) == Some(next)
            &&& (if next == 0 { n - 1 } else { next - 1 }) == i
            &&& location_index(locs, locs[prev].0, locs[prev].1) == Some(prev)
            &&& (prev + 1) % n == i
        }),
{
    let locs = hunk_locations_of(files);
    let n = locs.len() as int;
    lemma_locations_sorted(files);
    crate::model::panes::law_ring_round_trip(i, n);
    let next = (i + 1) % n;
    let prev = if i == 0 { n - 1 } else { i - 1 };
    lemma_location_index_of_sorted(locs, i);
    lemma_location_index_of_sorted(locs, next);
    lemma_location_index_of_sorted(locs, prev);
}

} // verus!
