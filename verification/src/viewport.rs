//! Bookkeeping of the inline viewport: the rectangle at the bottom of the
//! screen that the interface redraws, and the rows of history above it.
//! The functions decide; the terminal writes are left to the caller.

use vstd::prelude::*;
use crate::text::{u64_decimal, dec};

verus! {

/// A screen rectangle in cells.
#[derive(Debug, Clone, Copy, PartialEq, Eq, Structural)]
pub struct ViewportRect {
    pub x: u16,
    pub y: u16,
    pub width: u16,
    pub height: u16,
}

/// The screen's size in cells.
#[derive(Debug, Clone, Copy, PartialEq, Eq, Structural)]
pub struct ScreenSize {
    pub width: u16,
    pub height: u16,
}

pub open spec fn min_u16(a: u16, b: u16) -> u16 {
    if a <= b { a } else { b }
}

pub open spec fn sat_sub_u16(a: u16, b: u16) -> u16 {
    if a >= b { (a - b) as u16 } else { 0 }
}

impl ViewportRect {
    /// First row below the rectangle, capped at `u16::MAX`.
    pub open spec fn spec_bottom(self) -> u16 {
        if self.y + self.height > u16::MAX { u16::MAX } else { (self.y + self.height) as u16 }
    }

    pub fn bottom(self) -> (r: u16)
        ensures
            r == self.spec_bottom(),
    {
        self.y.saturating_add(self.height)
    }

    pub fn is_empty(self) -> (r: bool)
        ensures
            r == (self.width == 0 || self.height == 0),
    {
        self.width == 0 || self.height == 0
    }
}

/// What a viewport resize asks of the terminal, in order: scroll the rows
/// above `region_bottom` up by `scroll_by`, then clear from a position to
/// the end of the screen.
#[derive(Debug, Clone, Copy, PartialEq, Eq)]
pub struct ResizeActions {
    pub scroll: Option<(u16, u16)>,
    pub clear_from: Option<(u16, u16)>,
}

/// The viewport's place on the screen and the history rows above it.
#[derive(Debug, Clone, Copy, PartialEq, Eq)]
pub struct InlineViewport {
    pub viewport_area: ViewportRect,
    pub last_known_screen_size: ScreenSize,
    pub visible_history_rows: u16,
    pub visible_history_bottom: u16,
}

/// The area a resize to `height` rows on a `size` screen aims for, before
/// any reanchoring: the old position, clamped height, full width.
pub open spec fn requested_area(old: ViewportRect, height: u16, size: ScreenSize) -> ViewportRect {
    let h = min_u16(height, size.height);
    ViewportRect { x: old.x, y: old.y, width: size.width, height: if h == 0 { 1 } else { h } }
}

impl InlineViewport {
    pub open spec fn history_rows(&self) -> u16 {
        self.visible_history_rows
    }

    pub open spec fn history_bottom(&self) -> u16 {
        self.visible_history_bottom
    }

    /// History sits above the viewport: its rows end at `history_bottom`,
    /// which is no lower than the viewport's top.
    pub open spec fn wf(&self) -> bool {
        self.visible_history_rows <= self.visible_history_bottom <= self.viewport_area.y
    }

    /// A zero-sized viewport on the cursor's row, with no history.
    pub fn new(cursor_y: u16, screen: ScreenSize) -> (r: Self)
        ensures
            r.wf(),
            r.viewport_area == (ViewportRect { x: 0, y: cursor_y, width: 0, height: 0 }),
            r.last_known_screen_size == screen,
            r.history_rows() == 0,
            r.history_bottom() == 0,
    {
        InlineViewport {
            viewport_area: ViewportRect { x: 0, y: cursor_y, width: 0, height: 0 },
            last_known_screen_size: screen,
            visible_history_rows: 0,
            visible_history_bottom: 0,
        }
    }

    pub fn visible_history_rows(&self) -> (r: u16)
        ensures
            r == self.history_rows(),
    {
        self.visible_history_rows
    }

    pub fn visible_history_bottom(&self) -> (r: u16)
        ensures
            r == self.history_bottom(),
    {
        self.visible_history_bottom
    }

    /// Move the viewport; history is cut back to end at its new top.
    pub fn set_viewport_area(&mut self, area: ViewportRect)
        ensures
            final(self).wf(),
            final(self).viewport_area == area,
            final(self).last_known_screen_size == old(self).last_known_screen_size,
            final(self).history_bottom() == min_u16(old(self).history_bottom(), area.y),
            final(self).history_rows() == min_u16(
                min_u16(old(self).history_rows(), area.y),
                final(self).history_bottom(),
            ),
    {
        self.viewport_area = area;
        let top = area.y;
        let rows = if self.visible_history_rows <= top { self.visible_history_rows } else { top };
        self.visible_history_bottom = if self.visible_history_bottom <= top { self.visible_history_bottom } else { top };
        self.visible_history_rows = if rows <= self.visible_history_bottom { rows } else { self.visible_history_bottom };
    }

    /// Record where history sits, clamped to lie above the viewport.
    pub fn set_visible_history_extent(&mut self, rows: u16, bottom: u16)
        ensures
            final(self).wf(),
            final(self).viewport_area == old(self).viewport_area,
            final(self).last_known_screen_size == old(self).last_known_screen_size,
            final(self).history_bottom() == min_u16(bottom, old(self).viewport_area.y),
            final(self).history_rows() == min_u16(min_u16(rows, old(self).viewport_area.y), final(self).history_bottom()),
    {
        let top = self.viewport_area.y;
        self.visible_history_bottom = if bottom <= top { bottom } else { top };
        let r = if rows <= top { rows } else { top };
        self.visible_history_rows = if r <= self.visible_history_bottom { r } else { self.visible_history_bottom };
    }

    /// Whether a resize to `height` rows on a `size` screen would write to
    /// the terminal: it scrolls when the viewport would overflow the
    /// screen, and clears when its size changes.
    pub fn viewport_resize_needed(&self, height: u16, size: ScreenSize) -> (r: bool)
        ensures
            r == (requested_area(self.viewport_area, height, size).spec_bottom() > size.height
                || requested_area(self.viewport_area, height, size) != self.viewport_area),
    {
        let h = if height <= size.height { height } else { size.height };
        let area = ViewportRect { x: self.viewport_area.x, y: self.viewport_area.y, width: size.width, height: if h == 0 { 1 } else { h } };
        if area.bottom() > size.height {
            return true;
        }
        area != self.viewport_area
    }

    /// The screen was cleared from `y` down: history below that row is gone
    /// when `y` is at or above the viewport's top.
    pub fn clear_after_row(&mut self, y: u16)
        ensures
            old(self).wf() ==> final(self).wf(),
            final(self).viewport_area == old(self).viewport_area,
            final(self).last_known_screen_size == old(self).last_known_screen_size,
            y <= old(self).viewport_area.y ==> final(self).history_bottom() == min_u16(old(self).history_bottom(), y)
                && final(self).history_rows() == min_u16(min_u16(old(self).history_rows(), y), final(self).history_bottom()),
            y > old(self).viewport_area.y ==> final(self).history_bottom() == old(self).history_bottom()
                && final(self).history_rows() == old(self).history_rows(),
    {
        if y <= self.viewport_area.y {
            let rows = if self.visible_history_rows <= y { self.visible_history_rows } else { y };
            self.visible_history_bottom = if self.visible_history_bottom <= y { self.visible_history_bottom } else { y };
            self.visible_history_rows = if rows <= self.visible_history_bottom { rows } else { self.visible_history_bottom };
        }
    }

    /// The whole screen was cleared: no history is visible.
    pub fn clear_visible_screen(&mut self)
        ensures
            final(self).wf(),
            final(self).viewport_area == old(self).viewport_area,
            final(self).history_rows() == 0,
            final(self).history_bottom() == 0,
    {
        self.visible_history_rows = 0;
        self.visible_history_bottom = 0;
    }

    /// Resize the viewport to `height` rows on a `size` screen. When it
    /// would overflow the bottom, the rows above it scroll up into the
    /// scrollback and it is reanchored at the screen's bottom; when its
    /// rectangle changes, the screen is cleared from the old top (from the
    /// new top on the first draw). Returns the writes to perform.
    pub fn resize_viewport_to_size(&mut self, height: u16, size: ScreenSize) -> (r: ResizeActions)
        ensures
            old(self).wf() ==> final(self).wf(),
            final(self).last_known_screen_size == size,
            ({
                let req = requested_area(old(self).viewport_area, height, size);
                let overflow = req.spec_bottom() > size.height;
                let target = if overflow {
                    ViewportRect { y: sat_sub_u16(size.height, req.height), ..req }
                } else {
                    req
                };
                &&& final(self).viewport_area == target
                &&& r.scroll == (if overflow {
                    Some((req.y, (req.spec_bottom() - size.height) as u16))
                } else {
                    None
                })
                &&& r.clear_from == (if target != old(self).viewport_area {
                    Some(if old(self).viewport_area.width == 0 || old(self).viewport_area.height == 0 {
                        (target.x, target.y)
                    } else {
                        (old(self).viewport_area.x, old(self).viewport_area.y)
                    })
                } else {
                    None
                })
            }),
    {
        let h = if height <= size.height { height } else { size.height };
        let mut area = ViewportRect { x: self.viewport_area.x, y: self.viewport_area.y, width: size.width, height: if h == 0 { 1 } else { h } };
        let mut scroll: Option<(u16, u16)> = None;
        let b = area.bottom();
        if b > size.height {
            let scroll_by = b - size.height;
            scroll = Some((area.y, scroll_by));
            self.visible_history_bottom = self.visible_history_bottom.saturating_sub(scroll_by);
            if self.visible_history_rows > self.visible_history_bottom {
                self.visible_history_rows = self.visible_history_bottom;
            }
            area.y = size.height.saturating_sub(area.height);
        }
        let mut clear_from: Option<(u16, u16)> = None;
        if area != self.viewport_area {
            let pos = if self.viewport_area.is_empty() {
                (area.x, area.y)
            } else {
                (self.viewport_area.x, self.viewport_area.y)
            };
            self.clear_after_row(pos.1);
            self.set_viewport_area(area);
            clear_from = Some(pos);
        }
        self.last_known_screen_size = size;
        ResizeActions { scroll, clear_from }
    }
}

/// The bytes that scroll screen rows `1..=region_bottom` up by `scroll_by`:
/// set a scroll region, move to its last row, index `scroll_by` times,
/// reset the region. Nothing when either count is zero.
pub open spec fn spec_scroll_region_up(region_bottom: u16, scroll_by: u16) -> Seq<char> {
    if scroll_by == 0 || region_bottom == 0 {
        Seq::empty()
    } else {
        "\x1b[1;"@ + dec(region_bottom as nat) + "r"@ + "\x1b["@ + dec(region_bottom as nat) + ";1H"@
            + index_repeat(scroll_by as nat) + "\x1b[r"@
    }
}

/// `ESC D`, `n` times.
pub open spec fn index_repeat(n: nat) -> Seq<char>
    decreases n,
{
    if n == 0 {
        Seq::empty()
    } else {
        index_repeat((n - 1) as nat) + "\x1bD"@
    }
}

pub fn scroll_region_up(region_bottom: u16, scroll_by: u16) -> (r: String)
    ensures
        r@ == spec_scroll_region_up(region_bottom, scroll_by),
{
    if scroll_by == 0 || region_bottom == 0 {
        return String::new();
    }
    let rb = u64_decimal(region_bottom as u64);
    let mut out = String::from_str("\x1b[1;");
    out.append(rb.as_str());
    out.append("r");
    out.append("\x1b[");
    out.append(rb.as_str());
    out.append(";1H");
    let ghost head = out@;
    let mut i: u16 = 0;
    while i < scroll_by
        invariant
            i <= scroll_by,
            out@ == head + index_repeat(i as nat),
        decreases scroll_by - i,
    {
        out.append("\x1bD");
        i += 1;
    }
    out.append("\x1b[r");
    proof {
        reveal_strlit("\x1b[1;");
        reveal_strlit("r");
        reveal_strlit("\x1b[");
        reveal_strlit(";1H");
        reveal_strlit("\x1bD");
        reveal_strlit("\x1b[r");
    }
    out
}

} // verus!
