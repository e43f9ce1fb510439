//! The decisions of a frame flush: which cells of the new frame must be
//! written, which attribute changes move the terminal from one cell style
//! to the next, and what happens to the cursor afterwards. The cells and
//! the bytes stay with the caller.

use vstd::prelude::*;

verus! {

/// What the flush needs to know of one cell position: whether the new cell
/// is a continuation the renderer skips, whether it differs from the cell
/// on screen, and the display widths of the new and the old symbol.
#[derive(Debug, Clone, Copy, PartialEq, Eq, Structural)]
pub struct CellChange {
    pub skip: bool,
    pub changed: bool,
    pub width: usize,
    pub old_width: usize,
}

pub open spec fn nat_max(a: int, b: int) -> int {
    if a >= b { a } else { b }
}

pub open spec fn minus_one(a: int) -> int {
    if a >= 1 { a - 1 } else { 0 }
}

/// After the first `k` cells: how many following cells a wide symbol still
/// invalidates, and how many following cells are covered by the last
/// symbol's width.
pub open spec fn diff_state(cells: Seq<CellChange>, k: nat) -> (int, int)
    decreases k,
{
    if k == 0 {
        (0, 0)
    } else {
        let prev = diff_state(cells, (k - 1) as nat);
        let c = cells[k - 1];
        let affected = nat_max(c.width as int, c.old_width as int);
        (minus_one(nat_max(affected, prev.0)), minus_one(c.width as int))
    }
}

/// Cell `i` is written when it is not skipped, when nothing before it
/// covers it, and when it changed or a wide neighbour invalidated it.
pub open spec fn needs_write(cells: Seq<CellChange>, i: nat) -> bool {
    let st = diff_state(cells, i);
    !cells[i as int].skip && (cells[i as int].changed || st.0 > 0) && st.1 == 0
}

/// The indices among the first `k` cells that are written, in order.
pub open spec fn writes_upto(cells: Seq<CellChange>, k: nat) -> Seq<usize>
    decreases k,
{
    if k == 0 {
        Seq::empty()
    } else {
        let before = writes_upto(cells, (k - 1) as nat);
        if needs_write(cells, (k - 1) as nat) {
            before.push((k - 1) as usize)
        } else {
            before
        }
    }
}

proof fn lemma_diff_state_bounded(cells: Seq<CellChange>, k: nat)
    requires
        k <= cells.len(),
    ensures
        0 <= diff_state(cells, k).0 <= usize::MAX,
        0 <= diff_state(cells, k).1 <= usize::MAX,
    decreases k,
{
    if k > 0 {
        lemma_diff_state_bounded(cells, (k - 1) as nat);
    }
}

/// The indices of the cells to write, in increasing order (see
/// [`needs_write`]). An unchanged frame writes nothing.
pub fn cells_to_write(cells: &Vec<CellChange>) -> (r: Vec<usize>)
    ensures
        r@ == writes_upto(cells@, cells@.len()),
{
    let mut out: Vec<usize> = Vec::new();
    let mut invalidated: usize = 0;
    let mut to_skip: usize = 0;
    let mut i: usize = 0;
    while i < cells.len()
        invariant
            i <= cells.len(),
            (invalidated as int, to_skip as int) == diff_state(cells@, i as nat),
            out@ == writes_upto(cells@, i as nat),
        decreases cells.len() - i,
    {
        let c = cells[i];
        if !c.skip && (c.changed || invalidated > 0) && to_skip == 0 {
            out.push(i);
        }
        to_skip = c.width.saturating_sub(1);
        let affected = if c.width >= c.old_width { c.width } else { c.old_width };
        let m = if affected >= invalidated { affected } else { invalidated };
        invalidated = m.saturating_sub(1);
        proof {
            assert(cells@[i as int] == c);
        }
        i += 1;
    }
    out
}

/// No cell is written when nothing changed and every symbol is one cell
/// wide: an idle redraw emits no cell at all.
pub proof fn law_unchanged_frame_writes_nothing(cells: Seq<CellChange>)
    requires
        forall|i: int| 0 <= i < cells.len() ==> !(#[trigger] cells[i]).changed && cells[i].width <= 1
            && cells[i].old_width <= 1,
    ensures
        writes_upto(cells, cells.len()).len() == 0,
{
    lemma_narrow_unchanged(cells, cells.len());
}

proof fn lemma_narrow_unchanged(cells: Seq<CellChange>, k: nat)
    requires
        k <= cells.len(),
        forall|i: int| 0 <= i < cells.len() ==> !(#[trigger] cells[i]).changed && cells[i].width <= 1
            && cells[i].old_width <= 1,
    ensures
        writes_upto(cells, k).len() == 0,
        diff_state(cells, k).0 == 0,
    decreases k,
{
    if k > 0 {
        lemma_narrow_unchanged(cells, (k - 1) as nat);
        let c = cells[k - 1];
        assert(!c.changed && c.width <= 1 && c.old_width <= 1);
    }
}

/// The text attributes a cell can carry.
#[derive(Debug, Clone, Copy, PartialEq, Eq, Structural)]
pub struct ModifierSet {
    pub bold: bool,
    pub dim: bool,
    pub italic: bool,
    pub underlined: bool,
    pub slow_blink: bool,
    pub rapid_blink: bool,
    pub reversed: bool,
    pub crossed_out: bool,
}

/// One SGR attribute change.
#[derive(Debug, Clone, Copy, PartialEq, Eq, Structural)]
pub enum SgrChange {
    NoReverse,
    NormalIntensity,
    Dim,
    NoItalic,
    NoUnderline,
    NotCrossedOut,
    NoBlink,
    Reverse,
    Bold,
    Italic,
    Underlined,
    CrossedOut,
    SlowBlink,
    RapidBlink,
}

pub open spec fn when(b: bool, a: SgrChange) -> Seq<SgrChange> {
    if b { seq![a] } else { Seq::empty() }
}

/// The changes that take the terminal from style `from` to style `to`:
/// first the attributes that go (bold and dim share "normal intensity", so
/// dim is set again when it stays), then the attributes that come.
pub open spec fn spec_modifier_transition(from: ModifierSet, to: ModifierSet) -> Seq<SgrChange> {
    when(from.reversed && !to.reversed, SgrChange::NoReverse)
        + when(from.bold && !to.bold, SgrChange::NormalIntensity)
        + when(from.bold && !to.bold && to.dim, SgrChange::Dim)
        + when(from.italic && !to.italic, SgrChange::NoItalic)
        + when(from.underlined && !to.underlined, SgrChange::NoUnderline)
        + when(from.dim && !to.dim, SgrChange::NormalIntensity)
        + when(from.crossed_out && !to.crossed_out, SgrChange::NotCrossedOut)
        + when((from.slow_blink && !to.slow_blink) || (from.rapid_blink && !to.rapid_blink), SgrChange::NoBlink)
        + when(to.reversed && !from.reversed, SgrChange::Reverse)
        + when(to.bold && !from.bold, SgrChange::Bold)
        + when(to.italic && !from.italic, SgrChange::Italic)
        + when(to.underlined && !from.underlined, SgrChange::Underlined)
        + when(to.dim && !from.dim, SgrChange::Dim)
        + when(to.crossed_out && !from.crossed_out, SgrChange::CrossedOut)
        + when(to.slow_blink && !from.slow_blink, SgrChange::SlowBlink)
        + when(to.rapid_blink && !from.rapid_blink, SgrChange::RapidBlink)
}

fn push_when(out: &mut Vec<SgrChange>, b: bool, a: SgrChange)
    ensures
        final(out)@ == old(out)@ + when(b, a),
{
    if b {
        out.push(a);
    } else {
        assert(old(out)@ + when(b, a) =~= old(out)@);
    }
}

/// The attribute changes from one cell style to the next (see
/// [`spec_modifier_transition`]).
pub fn modifier_transition(from: ModifierSet, to: ModifierSet) -> (r: Vec<SgrChange>)
    ensures
        r@ == spec_modifier_transition(from, to),
{
    let mut out: Vec<SgrChange> = Vec::new();
    push_when(&mut out, from.reversed && !to.reversed, SgrChange::NoReverse);
    push_when(&mut out, from.bold && !to.bold, SgrChange::NormalIntensity);
    push_when(&mut out, from.bold && !to.bold && to.dim, SgrChange::Dim);
    push_when(&mut out, from.italic && !to.italic, SgrChange::NoItalic);
    push_when(&mut out, from.underlined && !to.underlined, SgrChange::NoUnderline);
    push_when(&mut out, from.dim && !to.dim, SgrChange::NormalIntensity);
    push_when(&mut out, from.crossed_out && !to.crossed_out, SgrChange::NotCrossedOut);
    push_when(&mut out, (from.slow_blink && !to.slow_blink) || (from.rapid_blink && !to.rapid_blink), SgrChange::NoBlink);
    push_when(&mut out, to.reversed && !from.reversed, SgrChange::Reverse);
    push_when(&mut out, to.bold && !from.bold, SgrChange::Bold);
    push_when(&mut out, to.italic && !from.italic, SgrChange::Italic);
    push_when(&mut out, to.underlined && !from.underlined, SgrChange::Underlined);
    push_when(&mut out, to.dim && !from.dim, SgrChange::Dim);
    push_when(&mut out, to.crossed_out && !from.crossed_out, SgrChange::CrossedOut);
    push_when(&mut out, to.slow_blink && !from.slow_blink, SgrChange::SlowBlink);
    push_when(&mut out, to.rapid_blink && !from.rapid_blink, SgrChange::RapidBlink);
    out
}

/// A style transition to itself changes nothing.
pub proof fn law_same_style_no_changes(m: ModifierSet)
    ensures
        spec_modifier_transition(m, m).len() == 0,
{
    assert(spec_modifier_transition(m, m) =~= Seq::<SgrChange>::empty());
}

/// Whether a cell at `(x, y)` needs an explicit cursor move: unless it sits
/// right after the last cell written on the same row.
pub fn needs_cursor_move(last: Option<(u16, u16)>, x: u16, y: u16) -> (r: bool)
    ensures
        r == !(match last {
            Some((px, py)) => x == px + 1 && y == py,
            None => false,
        }),
{
    match last {
        Some((px, py)) => !(px < u16::MAX && x == px + 1 && y == py),
        None => true,
    }
}

/// What to do with the cursor after a flush.
#[derive(Debug, Clone, Copy, PartialEq, Eq)]
pub struct CursorPlan {
    pub hide: bool,
    pub show: bool,
    pub move_to: Option<(u16, u16)>,
}

impl CursorPlan {
    /// Whether the plan touches the terminal at all.
    pub open spec fn spec_changes(self) -> bool {
        self.hide || self.show || self.move_to.is_some()
    }

    pub fn changes(&self) -> (r: bool)
        ensures
            r == self.spec_changes(),
    {
        self.hide || self.show || self.move_to.is_some()
    }
}

/// The cursor after a frame: hidden when the frame placed none (unless it
/// already is), else shown if hidden and moved when cells were written or
/// the place differs from the last one.
pub open spec fn spec_plan_cursor(requested: Option<(u16, u16)>, hidden: bool, wrote_cells: bool, last: (u16, u16)) -> CursorPlan {
    match requested {
        None => CursorPlan { hide: !hidden, show: false, move_to: None },
        Some(p) => CursorPlan {
            hide: false,
            show: hidden,
            move_to: if wrote_cells || last != p { Some(p) } else { None },
        },
    }
}

pub fn plan_cursor(requested: Option<(u16, u16)>, hidden: bool, wrote_cells: bool, last: (u16, u16)) -> (r: CursorPlan)
    ensures
        r == spec_plan_cursor(requested, hidden, wrote_cells, last),
{
    match requested {
        None => CursorPlan { hide: !hidden, show: false, move_to: None },
        Some(p) => {
            let differs = !(last.0 == p.0 && last.1 == p.1);
            CursorPlan { hide: false, show: hidden, move_to: if wrote_cells || differs { Some(p) } else { None } }
        },
    }
}

/// An idle frame (no cells written, cursor where it was, visibility
/// unchanged) touches the terminal in no way.
pub proof fn law_idle_frame_is_silent(requested: Option<(u16, u16)>, hidden: bool, last: (u16, u16))
    requires
        match requested {
            None => hidden,
            Some(p) => !hidden && p == last,
        },
    ensures
        !spec_plan_cursor(requested, hidden, false, last).spec_changes(),
{
}

} // verus!
