//! Focus cycling, run-state labels and the navigation state of the side
//! panes (artifacts, workspace, git) and of the detail overlays.

use vstd::prelude::*;

verus! {

/// The pane that receives keyboard input.
#[derive(Debug, Clone, Copy, PartialEq, Eq, Structural)]
pub enum FocusPane {
    Sessions,
    Tasks,
    Artifacts,
    Transcript,
    Workspace,
    Git,
    Composer,
}

/// Position of a pane in the focus cycle.
pub open spec fn focus_index(p: FocusPane) -> int {
    match p {
        FocusPane::Sessions => 0,
        FocusPane::Tasks => 1,
        FocusPane::Artifacts => 2,
        FocusPane::Transcript => 3,
        FocusPane::Workspace => 4,
        FocusPane::Git => 5,
        FocusPane::Composer => 6,
    }
}

pub open spec fn spec_focus_next(p: FocusPane) -> FocusPane {
    match p {
        FocusPane::Sessions => FocusPane::Tasks,
        FocusPane::Tasks => FocusPane::Artifacts,
        FocusPane::Artifacts => FocusPane::Transcript,
        FocusPane::Transcript => FocusPane::Workspace,
        FocusPane::Workspace => FocusPane::Git,
        FocusPane::Git => FocusPane::Composer,
        FocusPane::Composer => FocusPane::Sessions,
    }
}

/// `n` steps of the focus cycle.
pub open spec fn focus_after(p: FocusPane, n: nat) -> FocusPane
    decreases n,
{
    if n == 0 {
        p
    } else {
        focus_after(spec_focus_next(p), (n - 1) as nat)
    }
}

impl FocusPane {
    /// The next pane in the cycle Sessions, Tasks, Artifacts, Transcript,
    /// Workspace, Git, Composer, and back to Sessions.
    pub fn next(self) -> (r: Self)
        ensures
            r == spec_focus_next(self),
            focus_index(r) == (focus_index(self) + 1) % 7,
    {
        match self {
            FocusPane::Sessions => FocusPane::Tasks,
            FocusPane::Tasks => FocusPane::Artifacts,
            FocusPane::Artifacts => FocusPane::Transcript,
            FocusPane::Transcript => FocusPane::Workspace,
            FocusPane::Workspace => FocusPane::Git,
            FocusPane::Git => FocusPane::Composer,
            FocusPane::Composer => FocusPane::Sessions,
        }
    }
}

/// Focus returns to where it started after seven steps, and no earlier:
/// the cycle passes through every pane exactly once.
pub proof fn law_focus_cycle(p: FocusPane, n: nat)
    requires
        0 < n < 7,
    ensures
        focus_after(p, 7) == p,
        focus_after(p, n) != p,
        focus_index(focus_after(p, n)) == (focus_index(p) + n) % 7,
{
    reveal_with_fuel(focus_after, 8);
    assert(focus_index(focus_after(p, n)) == (focus_index(p) + n) % 7) by {
        lemma_focus_after_index(p, n);
    }
}

proof fn lemma_focus_after_index(p: FocusPane, n: nat)
    ensures
        focus_index(focus_after(p, n)) == (focus_index(p) + n) % 7,
    decreases n,
{
    if n > 0 {
        lemma_focus_after_index(spec_focus_next(p), (n - 1) as nat);
    }
}

/// What the selected session is doing.
#[derive(Debug, Clone, PartialEq, Eq)]
pub enum SessionRunState {
    Idle,
    InProgress,
    Blocked { message: String },
    Success,
    Error { message: String },
}

impl SessionRunState {
    pub open spec fn spec_label(&self) -> Seq<char> {
        match self {
            SessionRunState::Idle => "idle"@,
            SessionRunState::InProgress => "running"@,
            SessionRunState::Blocked { .. } => "blocked"@,
            SessionRunState::Success => "done"@,
            SessionRunState::Error { .. } => "error"@,
        }
    }

    /// Short status word shown in the header.
    pub fn label(&self) -> (r: &'static str)
        ensures
            r@ == self.spec_label(),
    {
        match self {
            SessionRunState::Idle => "idle",
            SessionRunState::InProgress => "running",
            SessionRunState::Blocked { .. } => "blocked",
            SessionRunState::Success => "done",
            SessionRunState::Error { .. } => "error",
        }
    }

    /// The message of a blocked or failed state.
    pub fn detail(&self) -> (r: Option<&str>)
        ensures
            match self {
                SessionRunState::Blocked { message } => r is Some && r.unwrap()@ == message@,
                SessionRunState::Error { message } => r is Some && r.unwrap()@ == message@,
                _ => r.is_none(),
            },
    {
        match self {
            SessionRunState::Blocked { message } => Some(message.as_str()),
            SessionRunState::Error { message } => Some(message.as_str()),
            SessionRunState::Idle => None,
            SessionRunState::InProgress => None,
            SessionRunState::Success => None,
        }
    }

    /// Running or waiting on the user.
    pub fn is_active(&self) -> (r: bool)
        ensures
            r <==> (self is InProgress || self is Blocked),
    {
        match self {
            SessionRunState::InProgress => true,
            SessionRunState::Blocked { .. } => true,
            _ => false,
        }
    }
}

impl Default for SessionRunState {
    fn default() -> (r: Self)
        ensures
            r is Idle,
    {
        SessionRunState::Idle
    }
}

/// Kind of an entry in the activity log.
#[derive(Debug, Clone, Copy, PartialEq, Eq, Structural)]
pub enum ActivityKind {
    Tool,
    Progress,
    Approval,
    Warning,
    Error,
}

impl ActivityKind {
    pub open spec fn spec_label(self) -> Seq<char> {
        match self {
            ActivityKind::Tool => "tool"@,
            ActivityKind::Progress => "progress"@,
            ActivityKind::Approval => "approval"@,
            ActivityKind::Warning => "warning"@,
            ActivityKind::Error => "error"@,
        }
    }

    pub fn label(self) -> (r: &'static str)
        ensures
            r@ == self.spec_label(),
    {
        match self {
            ActivityKind::Tool => "tool",
            ActivityKind::Progress => "progress",
            ActivityKind::Approval => "approval",
            ActivityKind::Warning => "warning",
            ActivityKind::Error => "error",
        }
    }
}

/// The answer sent back for an approval request.
#[derive(Debug, Clone, Copy, PartialEq, Eq, Structural)]
pub enum ApprovalDecision {
    Approve,
    Deny,
}

/// The answer chosen in the approval dialog.
#[derive(Debug, Clone, Copy, PartialEq, Eq, Structural)]
pub enum ApprovalModalAction {
    ApproveRequest,
    ApproveSession,
    DenyRequest,
}

impl ApprovalModalAction {
    pub open spec fn spec_status_label(self) -> Seq<char> {
        match self {
            ApprovalModalAction::ApproveRequest => "approved for this request"@,
            ApprovalModalAction::ApproveSession => "approved for this session"@,
            ApprovalModalAction::DenyRequest => "denied"@,
        }
    }

    /// Both approvals grant the request; denying refuses it.
    pub fn decision(self) -> (r: ApprovalDecision)
        ensures
            r == (if self is DenyRequest { ApprovalDecision::Deny } else { ApprovalDecision::Approve }),
    {
        match self {
            ApprovalModalAction::DenyRequest => ApprovalDecision::Deny,
            _ => ApprovalDecision::Approve,
        }
    }

    pub fn status_label(self) -> (r: &'static str)
        ensures
            r@ == self.spec_status_label(),
    {
        match self {
            ApprovalModalAction::ApproveRequest => "approved for this request",
            ApprovalModalAction::ApproveSession => "approved for this session",
            ApprovalModalAction::DenyRequest => "denied",
        }
    }
}

/// `a - b`, or 0 where that is negative.
pub open spec fn sat_sub(a: int, b: int) -> int {
    if a >= b { a - b } else { 0 }
}

/// `a + b`, capped at `usize::MAX`.
pub open spec fn sat_add(a: int, b: int) -> int {
    if a + b > usize::MAX { usize::MAX as int } else { a + b }
}

/// Scroll offset after moving up `lines`: stops at the top.
pub fn scrolled_up(scroll: usize, lines: usize) -> (r: usize)
    ensures
        r == sat_sub(scroll as int, lines as int),
{
    scroll.saturating_sub(lines)
}

/// Scroll offset after moving down `lines`: stops at `usize::MAX`.
pub fn scrolled_down(scroll: usize, lines: usize) -> (r: usize)
    ensures
        r == sat_add(scroll as int, lines as int),
{
    scroll.saturating_add(lines)
}

/// Scrolling down and back up by the same amount returns to the same
/// offset, as long as the first move did not hit the end of the range.
pub proof fn law_scroll_round_trip(scroll: int, lines: int)
    requires
        0 <= scroll,
        0 <= lines,
        scroll + lines <= usize::MAX,
    ensures
        sat_sub(sat_add(scroll, lines), lines) == scroll,
{
}

/// Index after `i` in a ring of `len` entries.
pub open spec fn ring_next(i: int, len: int) -> int {
    (i + 1) % len
}

/// Index before `i` in a ring of `len` entries.
pub open spec fn ring_prev(i: int, len: int) -> int {
    if i == 0 { len - 1 } else { i - 1 }
}

/// Stepping forward then back through a non-empty list returns to the
/// same entry, and so does stepping back then forward.
pub proof fn law_ring_round_trip(i: int, len: int)
    requires
        0 <= i < len,
    ensures
        ring_prev(ring_next(i, len), len) == i,
        ring_next(ring_prev(i, len), len) == i,
        0 <= ring_next(i, len) < len,
        0 <= ring_prev(i, len) < len,
{
    if i + 1 < len {
        assert((i + 1) % len == i + 1) by (nonlinear_arith)
            requires 0 <= i + 1 < len;
    } else {
        assert((i + 1) % len == 0) by (nonlinear_arith)
            requires i + 1 == len, len > 0;
    }
    if i == 0 {
        assert((len - 1 + 1) % len == 0) by (nonlinear_arith)
            requires len > 0;
    } else {
        assert(i % len == i) by (nonlinear_arith)
            requires 0 <= i < len;
    }
}

pub(crate) fn ring_step_next(selected: usize, len: usize) -> (r: usize)
    requires
        len > 0,
        selected < usize::MAX,
    ensures
        r == ring_next(selected as int, len as int),
        r < len,
{
    (selected + 1) % len
}

pub(crate) fn ring_step_prev(selected: usize, len: usize) -> (r: usize)
    requires
        len > 0,
    ensures
        r == ring_prev(selected as int, len as int),
{
    if selected == 0 {
        len - 1
    } else {
        selected - 1
    }
}

/// Full-screen view of one artifact's content.
#[derive(Debug, Clone, PartialEq, Eq)]
pub struct ArtifactDetailState {
    pub active: bool,
    pub title: String,
    pub subtitle: String,
    pub content: String,
    pub scroll: usize,
}

/// Full-screen view of a session's thread graph.
#[derive(Debug, Clone, PartialEq, Eq)]
pub struct ThreadGraphDetailState {
    pub active: bool,
    pub title: String,
    pub subtitle: String,
    pub content: String,
    pub scroll: usize,
}

/// Full-screen view of one turn's state.
#[derive(Debug, Clone, PartialEq, Eq)]
pub struct TurnStateDetailState {
    pub active: bool,
    pub title: String,
    pub subtitle: String,
    pub content: String,
    pub scroll: usize,
}

/// What an artifact view reads of an agent's or a task's artifact.
#[derive(Debug, Clone, PartialEq, Eq)]
pub struct ArtifactRecord {
    pub title: String,
    pub kind: String,
    pub status: String,
    pub content: Option<String>,
}

/// `<owner> <id> | <kind> | <status>`.
pub open spec fn artifact_subtitle(owner: Seq<char>, id: Seq<char>, a: ArtifactRecord) -> Seq<char> {
    owner + " "@ + id + " | "@ + a.kind@ + " | "@ + a.status@
}

/// The text shown: the fetched content, else the record's own, else a
/// note that there is none.
pub open spec fn artifact_content(content: Option<String>, a: ArtifactRecord) -> Seq<char> {
    match content {
        Some(c) => c@,
        None => match a.content {
            Some(c) => c@,
            None => "No content returned for this artifact"@,
        },
    }
}

impl ArtifactDetailState {
    fn open_artifact(&mut self, owner: &str, id: &str, artifact: &ArtifactRecord, content: Option<String>)
        ensures
            final(self).active,
            final(self).title@ == artifact.title@,
            final(self).subtitle@ == artifact_subtitle(owner@, id@, *artifact),
            final(self).content@ == artifact_content(content, *artifact),
            final(self).scroll == 0,
    {
        self.active = true;
        self.title = artifact.title.clone();
        let mut sub = String::from_str(owner);
        sub.append(" ");
        sub.append(id);
        sub.append(" | ");
        sub.append(artifact.kind.as_str());
        sub.append(" | ");
        sub.append(artifact.status.as_str());
        self.subtitle = sub;
        self.content = match content {
            Some(c) => c,
            None => match &artifact.content {
                Some(c) => c.clone(),
                None => String::from_str("No content returned for this artifact"),
            },
        };
        self.scroll = 0;
    }

    /// Open an artifact of agent `agent_id`.
    pub fn open_agent_artifact(&mut self, agent_id: &str, artifact: &ArtifactRecord, content: Option<String>)
        ensures
            final(self).active,
            final(self).title@ == artifact.title@,
            final(self).subtitle@ == artifact_subtitle("agent"@, agent_id@, *artifact),
            final(self).content@ == artifact_content(content, *artifact),
            final(self).scroll == 0,
    {
        self.open_artifact("agent", agent_id, artifact, content);
    }

    /// Open an artifact of task `task_id` (the task id's text).
    pub fn open_task_artifact(&mut self, task_id: &str, artifact: &ArtifactRecord, content: Option<String>)
        ensures
            final(self).active,
            final(self).title@ == artifact.title@,
            final(self).subtitle@ == artifact_subtitle("task"@, task_id@, *artifact),
            final(self).content@ == artifact_content(content, *artifact),
            final(self).scroll == 0,
    {
        self.open_artifact("task", task_id, artifact, content);
    }

    /// Closed and empty.
    pub open spec fn is_closed(&self) -> bool {
        !self.active && self.title@.len() == 0 && self.subtitle@.len() == 0 && self.content@.len() == 0
            && self.scroll == 0
    }

    pub fn close(&mut self)
        ensures
            final(self).is_closed(),
    {
        *self = ArtifactDetailState::default();
    }

    pub fn scroll_up(&mut self, lines: usize)
        ensures
            final(self).scroll == sat_sub(old(self).scroll as int, lines as int),
            final(self).active == old(self).active,
            final(self).title == old(self).title,
            final(self).subtitle == old(self).subtitle,
            final(self).content == old(self).content,
    {
        self.scroll = scrolled_up(self.scroll, lines);
    }

    pub fn scroll_down(&mut self, lines: usize)
        ensures
            final(self).scroll == sat_add(old(self).scroll as int, lines as int),
            final(self).active == old(self).active,
            final(self).title == old(self).title,
            final(self).subtitle == old(self).subtitle,
            final(self).content == old(self).content,
    {
        self.scroll = scrolled_down(self.scroll, lines);
    }
}

impl Default for ArtifactDetailState {
    fn default() -> (r: Self)
        ensures
            r.is_closed(),
    {
        ArtifactDetailState {
            active: false,
            title: String::new(),
            subtitle: String::new(),
            content: String::new(),
            scroll: 0,
        }
    }
}

impl ThreadGraphDetailState {
    pub open spec fn is_closed(&self) -> bool {
        !self.active && self.title@.len() == 0 && self.subtitle@.len() == 0 && self.content@.len() == 0
            && self.scroll == 0
    }

    pub fn close(&mut self)
        ensures
            final(self).is_closed(),
    {
        *self = ThreadGraphDetailState::default();
    }

    pub fn scroll_up(&mut self, lines: usize)
        ensures
            final(self).scroll == sat_sub(old(self).scroll as int, lines as int),
            final(self).active == old(self).active,
            final(self).title == old(self).title,
            final(self).subtitle == old(self).subtitle,
            final(self).content == old(self).content,
    {
        self.scroll = scrolled_up(self.scroll, lines);
    }

    pub fn scroll_down(&mut self, lines: usize)
        ensures
            final(self).scroll == sat_add(old(self).scroll as int, lines as int),
            final(self).active == old(self).active,
            final(self).title == old(self).title,
            final(self).subtitle == old(self).subtitle,
            final(self).content == old(self).content,
    {
        self.scroll = scrolled_down(self.scroll, lines);
    }
}

impl Default for ThreadGraphDetailState {
    fn default() -> (r: Self)
        ensures
            r.is_closed(),
    {
        ThreadGraphDetailState {
            active: false,
            title: String::new(),
            subtitle: String::new(),
            content: String::new(),
            scroll: 0,
        }
    }
}

impl TurnStateDetailState {
    pub open spec fn is_closed(&self) -> bool {
        !self.active && self.title@.len() == 0 && self.subtitle@.len() == 0 && self.content@.len() == 0
            && self.scroll == 0
    }

    pub fn close(&mut self)
        ensures
            final(self).is_closed(),
    {
        *self = TurnStateDetailState::default();
    }

    pub fn scroll_up(&mut self, lines: usize)
        ensures
            final(self).scroll == sat_sub(old(self).scroll as int, lines as int),
            final(self).active == old(self).active,
            final(self).title == old(self).title,
            final(self).subtitle == old(self).subtitle,
            final(self).content == old(self).content,
    {
        self.scroll = scrolled_up(self.scroll, lines);
    }

    pub fn scroll_down(&mut self, lines: usize)
        ensures
            final(self).scroll == sat_add(old(self).scroll as int, lines as int),
            final(self).active == old(self).active,
            final(self).title == old(self).title,
            final(self).subtitle == old(self).subtitle,
            final(self).content == old(self).content,
    {
        self.scroll = scrolled_down(self.scroll, lines);
    }
}

impl Default for TurnStateDetailState {
    fn default() -> (r: Self)
        ensures
            r.is_closed(),
    {
        TurnStateDetailState {
            active: false,
            title: String::new(),
            subtitle: String::new(),
            content: String::new(),
            scroll: 0,
        }
    }
}

/// One row of the artifacts pane.
#[derive(Debug, Clone, PartialEq, Eq)]
pub struct ArtifactItem {
    pub title: String,
    pub kind: String,
    pub source: String,
    pub status: String,
}

/// The artifacts pane: its rows and the selected one.
#[derive(Debug, Clone, PartialEq, Eq)]
pub struct ArtifactPaneState {
    pub items: Vec<ArtifactItem>,
    pub selected: usize,
}

impl Default for ArtifactPaneState {
    fn default() -> (r: Self)
        ensures
            r.items@.len() == 0,
            r.selected == 0,
    {
        ArtifactPaneState { items: Vec::new(), selected: 0 }
    }
}

impl ArtifactPaneState {
    /// Select the following row, wrapping to the first; nothing happens
    /// on an empty pane.
    pub fn select_next(&mut self)
        requires
            old(self).items@.len() > 0 ==> old(self).selected < usize::MAX,
        ensures
            final(self).items@ == old(self).items@,
            old(self).items@.len() == 0 ==> *final(self) == *old(self),
            old(self).items@.len() == 0 ==> final(self).selected == old(self).selected,
            old(self).items@.len() > 0 ==> final(self).selected == ring_next(
                old(self).selected as int,
                old(self).items@.len() as int,
            ),
    {
        if self.items.len() == 0 {
            return;
        }
        self.selected = ring_step_next(self.selected, self.items.len());
    }

    /// Select the preceding row, wrapping to the last; nothing happens on
    /// an empty pane.
    pub fn select_prev(&mut self)
        ensures
            old(self).items@.len() == 0 ==> *final(self) == *old(self),
            final(self).items@ == old(self).items@,
            old(self).items@.len() == 0 ==> final(self).selected == old(self).selected,
            old(self).items@.len() > 0 ==> final(self).selected == ring_prev(
                old(self).selected as int,
                old(self).items@.len() as int,
            ),
    {
        if self.items.len() == 0 {
            return;
        }
        self.selected = ring_step_prev(self.selected, self.items.len());
    }
}

/// One row of the workspace tree.
#[derive(Debug, Clone, PartialEq, Eq)]
pub struct WorkspaceEntry {
    pub depth: usize,
    pub label: String,
    pub detail: String,
}

/// The workspace pane: root, contract lines and the file tree.
#[derive(Debug, Clone, PartialEq, Eq)]
pub struct WorkspacePaneState {
    pub root: String,
    pub contract: Vec<String>,
    pub entries: Vec<WorkspaceEntry>,
    pub selected: usize,
    pub scroll: usize,
}

impl Default for WorkspacePaneState {
    fn default() -> (r: Self)
        ensures
            r.root@.len() == 0,
            r.contract@.len() == 0,
            r.entries@.len() == 0,
            r.selected == 0,
            r.scroll == 0,
    {
        WorkspacePaneState {
            root: String::new(),
            contract: Vec::new(),
            entries: Vec::new(),
            selected: 0,
            scroll: 0,
        }
    }
}

/// Rows kept visible above the selection when a list follows it.
pub open spec fn follow_scroll(selected: int) -> int {
    sat_sub(selected, 4)
}

impl WorkspacePaneState {
    /// Select the following entry, wrapping, and scroll so that the
    /// selection stays in view.
    pub fn select_next(&mut self)
        requires
            old(self).entries@.len() > 0 ==> old(self).selected < usize::MAX,
        ensures
            old(self).entries@.len() == 0 ==> *final(self) == *old(self),
            final(self).entries@ == old(self).entries@,
            final(self).root == old(self).root,
            final(self).contract@ == old(self).contract@,
            old(self).entries@.len() == 0 ==> final(self).selected == old(self).selected
                && final(self).scroll == old(self).scroll,
            old(self).entries@.len() > 0 ==> final(self).selected == ring_next(
                old(self).selected as int,
                old(self).entries@.len() as int,
            ) && final(self).scroll == follow_scroll(final(self).selected as int),
    {
        if self.entries.len() == 0 {
            return;
        }
        self.selected = ring_step_next(self.selected, self.entries.len());
        self.scroll = scrolled_up(self.selected, 4);
    }

    /// Select the preceding entry, wrapping, and scroll so that the
    /// selection stays in view.
    pub fn select_prev(&mut self)
        ensures
            old(self).entries@.len() == 0 ==> *final(self) == *old(self),
            final(self).entries@ == old(self).entries@,
            final(self).root == old(self).root,
            final(self).contract@ == old(self).contract@,
            old(self).entries@.len() == 0 ==> final(self).selected == old(self).selected
                && final(self).scroll == old(self).scroll,
            old(self).entries@.len() > 0 ==> final(self).selected == ring_prev(
                old(self).selected as int,
                old(self).entries@.len() as int,
            ) && final(self).scroll == follow_scroll(final(self).selected as int),
    {
        if self.entries.len() == 0 {
            return;
        }
        self.selected = ring_step_prev(self.selected, self.entries.len());
        self.scroll = scrolled_up(self.selected, 4);
    }

    pub fn scroll_up(&mut self, lines: usize)
        ensures
            final(self).scroll == sat_sub(old(self).scroll as int, lines as int),
            final(self).selected == old(self).selected,
            final(self).entries@ == old(self).entries@,
    {
        self.scroll = scrolled_up(self.scroll, lines);
    }

    pub fn scroll_down(&mut self, lines: usize)
        ensures
            final(self).scroll == sat_add(old(self).scroll as int, lines as int),
            final(self).selected == old(self).selected,
            final(self).entries@ == old(self).entries@,
    {
        self.scroll = scrolled_down(self.scroll, lines);
    }
}

/// One line of `git status`.
#[derive(Debug, Clone, PartialEq, Eq)]
pub struct GitStatusItem {
    pub code: String,
    pub path: String,
    pub detail: String,
}

/// One commit of the recent history.
#[derive(Debug, Clone, PartialEq, Eq)]
pub struct GitHistoryItem {
    pub commit: String,
    pub summary: String,
}

/// The git pane: branch, working-tree status and recent history. The
/// selection runs over the status rows first, then the history rows.
#[derive(Debug, Clone, PartialEq, Eq)]
pub struct GitPaneState {
    pub branch: String,
    pub head: Option<String>,
    pub status: Vec<GitStatusItem>,
    pub history: Vec<GitHistoryItem>,
    pub selected: usize,
    pub scroll: usize,
}

impl Default for GitPaneState {
    fn default() -> (r: Self)
        ensures
            r.branch@.len() == 0,
            r.head.is_none(),
            r.status@.len() == 0,
            r.history@.len() == 0,
            r.selected == 0,
            r.scroll == 0,
    {
        GitPaneState {
            branch: String::new(),
            head: None,
            status: Vec::new(),
            history: Vec::new(),
            selected: 0,
            scroll: 0,
        }
    }
}

impl GitPaneState {
    pub open spec fn spec_selectable_len(&self) -> int {
        self.status@.len() + self.history@.len() as int
    }

    /// Number of selectable rows: status rows plus history rows.
    pub fn selectable_len(&self) -> (r: usize)
        requires
            self.spec_selectable_len() <= usize::MAX,
        ensures
            r == self.spec_selectable_len(),
    {
        self.status.len() + self.history.len()
    }

    pub fn select_next(&mut self)
        requires
            old(self).spec_selectable_len() > 0 ==> old(self).selected < usize::MAX,
            old(self).spec_selectable_len() <= usize::MAX,
        ensures
            old(self).spec_selectable_len() == 0 ==> *final(self) == *old(self),
            final(self).branch == old(self).branch,
            final(self).head == old(self).head,
            final(self).status@ == old(self).status@,
            final(self).history@ == old(self).history@,
            old(self).spec_selectable_len() == 0 ==> final(self).selected == old(self).selected
                && final(self).scroll == old(self).scroll,
            old(self).spec_selectable_len() > 0 ==> final(self).selected == ring_next(
                old(self).selected as int,
                old(self).spec_selectable_len(),
            ) && final(self).scroll == follow_scroll(final(self).selected as int),
    {
        let len = self.selectable_len();
        if len == 0 {
            return;
        }
        self.selected = ring_step_next(self.selected, len);
        self.scroll = scrolled_up(self.selected, 4);
    }

    pub fn select_prev(&mut self)
        requires
            old(self).spec_selectable_len() <= usize::MAX,
        ensures
            old(self).spec_selectable_len() == 0 ==> *final(self) == *old(self),
            final(self).branch == old(self).branch,
            final(self).head == old(self).head,
            final(self).status@ == old(self).status@,
            final(self).history@ == old(self).history@,
            old(self).spec_selectable_len() == 0 ==> final(self).selected == old(self).selected
                && final(self).scroll == old(self).scroll,
            old(self).spec_selectable_len() > 0 ==> final(self).selected == ring_prev(
                old(self).selected as int,
                old(self).spec_selectable_len(),
            ) && final(self).scroll == follow_scroll(final(self).selected as int),
    {
        let len = self.selectable_len();
        if len == 0 {
            return;
        }
        self.selected = ring_step_prev(self.selected, len);
        self.scroll = scrolled_up(self.selected, 4);
    }

    pub fn scroll_up(&mut self, lines: usize)
        ensures
            final(self).scroll == sat_sub(old(self).scroll as int, lines as int),
            final(self).selected == old(self).selected,
            final(self).branch == old(self).branch,
            final(self).head == old(self).head,
            final(self).status@ == old(self).status@,
            final(self).history@ == old(self).history@,
    {
        self.scroll = scrolled_up(self.scroll, lines);
    }

    pub fn scroll_down(&mut self, lines: usize)
        ensures
            final(self).scroll == sat_add(old(self).scroll as int, lines as int),
            final(self).selected == old(self).selected,
            final(self).branch == old(self).branch,
            final(self).head == old(self).head,
            final(self).status@ == old(self).status@,
            final(self).history@ == old(self).history@,
    {
        self.scroll = scrolled_down(self.scroll, lines);
    }
}

} // verus!
