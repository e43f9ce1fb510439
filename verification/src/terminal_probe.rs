//! Terminal colour capability and default-colour decisions. The probing
//! itself (environment, `/dev/tty`) happens outside the library; the
//! parsing of what the terminal answers and the colour arithmetic happen
//! here.

use vstd::prelude::*;
use crate::text::{str_chars, range_starts_with, range_contains, find_char_in, first_index_of, lemma_first_index_of_bound, seq_contains};


verus! {

#[derive(Clone, Copy, Debug, Eq, PartialEq, Structural)]
pub enum StdoutColorLevel {
    TrueColor,
    Ansi256,
    Ansi16,
    Unknown,
}

/// Default foreground and background colours reported by the terminal.
#[derive(Debug, Clone, Copy)]
pub struct DefaultColors {
    pub fg: (u8, u8, u8),
    pub bg: (u8, u8, u8),
}

/// Cached terminal state, probed once at startup.
pub struct TerminalInfo {
    pub color_level: StdoutColorLevel,
    pub default_colors: Option<DefaultColors>,
}

/// A colour as the renderer should emit it.
#[derive(Debug, Clone, Copy, PartialEq, Eq, Structural)]
pub enum TermColor {
    Rgb(u8, u8, u8),
    Indexed(u8),
    Default,
}

/// Relative luminance test: `0.299 r + 0.587 g + 0.114 b > 128`, in exact
/// arithmetic (scaled by 1000).
pub open spec fn spec_is_light(bg: (u8, u8, u8)) -> bool {
    299 * bg.0 + 587 * bg.1 + 114 * bg.2 > 128000
}

pub fn is_light(bg: (u8, u8, u8)) -> (r: bool)
    ensures
        r == spec_is_light(bg),
{
    let (r, g, b) = bg;
    let y: u32 = 299 * (r as u32) + 587 * (g as u32) + 114 * (b as u32);
    y > 128000
}

impl TerminalInfo {
    pub fn is_light_bg(&self) -> (r: bool)
        ensures
            r == match self.default_colors {
                Some(c) => spec_is_light(c.bg),
                None => false,
            },
    {
        match self.default_colors {
            Some(c) => is_light(c.bg),
            None => false,
        }
    }
}

pub open spec fn cube_scale(v: int) -> int {
    if v == 0 { 0 } else { 55 + v * 40 }
}

/// The standard xterm-256 palette: 16 system colours, the 6x6x6 cube and
/// the grayscale ramp.
pub open spec fn spec_xterm_color(idx: u8) -> (int, int, int) {
    if idx < 16 {
        if idx == 0 { (0, 0, 0) }
        else if idx == 1 { (128, 0, 0) }
        else if idx == 2 { (0, 128, 0) }
        else if idx == 3 { (128, 128, 0) }
        else if idx == 4 { (0, 0, 128) }
        else if idx == 5 { (128, 0, 128) }
        else if idx == 6 { (0, 128, 128) }
        else if idx == 7 { (192, 192, 192) }
        else if idx == 8 { (128, 128, 128) }
        else if idx == 9 { (255, 0, 0) }
        else if idx == 10 { (0, 255, 0) }
        else if idx == 11 { (255, 255, 0) }
        else if idx == 12 { (0, 0, 255) }
        else if idx == 13 { (255, 0, 255) }
        else if idx == 14 { (0, 255, 255) }
        else { (255, 255, 255) }
    } else if idx < 232 {
        let n = idx - 16;
        (cube_scale(n / 36), cube_scale((n % 36) / 6), cube_scale(n % 6))
    } else {
        let v = 8 + (idx - 232) * 10;
        (v, v, v)
    }
}

pub fn xterm_color(idx: u8) -> (r: (u8, u8, u8))
    ensures
        (r.0 as int, r.1 as int, r.2 as int) == spec_xterm_color(idx),
{
    if idx < 16 {
        match idx {
            0 => (0, 0, 0),
            1 => (128, 0, 0),
            2 => (0, 128, 0),
            3 => (128, 128, 0),
            4 => (0, 0, 128),
            5 => (128, 0, 128),
            6 => (0, 128, 128),
            7 => (192, 192, 192),
            8 => (128, 128, 128),
            9 => (255, 0, 0),
            10 => (0, 255, 0),
            11 => (255, 255, 0),
            12 => (0, 0, 255),
            13 => (255, 0, 255),
            14 => (0, 255, 255),
            _ => (255, 255, 255),
        }
    } else if idx < 232 {
        let n = idx - 16;
        let r = n / 36;
        let g = (n % 36) / 6;
        let b = n % 6;
        (scale(r), scale(g), scale(b))
    } else {
        let v = 8 + (idx - 232) * 10;
        (v, v, v)
    }
}

fn scale(v: u8) -> (r: u8)
    requires
        v < 6,
    ensures
        r as int == cube_scale(v as int),
{
    if v == 0 { 0 } else { 55 + v * 40 }
}

/// Squared RGB distance between a target and palette entry `idx`.
pub open spec fn spec_dist(target: (u8, u8, u8), idx: u8) -> int {
    let c = spec_xterm_color(idx);
    (target.0 - c.0) * (target.0 - c.0) + (target.1 - c.1) * (target.1 - c.1)
        + (target.2 - c.2) * (target.2 - c.2)
}

fn dist(target: (u8, u8, u8), idx: u8) -> (d: u32)
    ensures
        d as int == spec_dist(target, idx),
{
    let c = xterm_color(idx);
    let dr: i32 = target.0 as i32 - c.0 as i32;
    let dg: i32 = target.1 as i32 - c.1 as i32;
    let db: i32 = target.2 as i32 - c.2 as i32;
    assert(0 <= dr * dr <= 65025) by (nonlinear_arith)
        requires -255 <= dr <= 255;
    assert(0 <= dg * dg <= 65025) by (nonlinear_arith)
        requires -255 <= dg <= 255;
    assert(0 <= db * db <= 65025) by (nonlinear_arith)
        requires -255 <= db <= 255;
    (dr * dr + dg * dg + db * db) as u32
}

/// The first palette index in 16..=255 that is nearest to `target`
/// (indices 0..15 vary by terminal theme and are skipped).
pub fn nearest_xterm_256(target: (u8, u8, u8)) -> (r: u8)
    ensures
        16 <= r,
        forall|j: u8| 16 <= j ==> spec_dist(target, r) <= #[trigger] spec_dist(target, j),
        forall|j: u8| 16 <= j < r ==> spec_dist(target, r) < #[trigger] spec_dist(target, j),
{
    let mut best_idx: u8 = 16;
    let mut best_dist: u32 = dist(target, 16);
    let mut i: u16 = 17;
    while i <= 255
        invariant
            17 <= i <= 256,
            16 <= best_idx < i,
            best_dist as int == spec_dist(target, best_idx),
            forall|j: u8| 16 <= j < i ==> spec_dist(target, best_idx) <= #[trigger] spec_dist(target, j),
            forall|j: u8| 16 <= j < best_idx ==> spec_dist(target, best_idx) < #[trigger] spec_dist(target, j),
        decreases 256 - i,
    {
        let d = dist(target, i as u8);
        if d < best_dist {
            best_dist = d;
            best_idx = i as u8;
        }
        i += 1;
    }
    best_idx
}

/// The colour to emit for `rgb` at a given terminal capability:
/// passthrough for truecolor, nearest palette entry for 256 colours, and
/// the terminal default otherwise.
pub fn best_color_for_level(level: StdoutColorLevel, rgb: (u8, u8, u8)) -> (r: TermColor)
    ensures
        level == StdoutColorLevel::TrueColor ==> r == TermColor::Rgb(rgb.0, rgb.1, rgb.2),
        level == StdoutColorLevel::Ansi256 ==> (r matches TermColor::Indexed(i) && 16 <= i
            && forall|j: u8| 16 <= j ==> spec_dist(rgb, i) <= #[trigger] spec_dist(rgb, j)),
        (level == StdoutColorLevel::Ansi16 || level == StdoutColorLevel::Unknown) ==> r == TermColor::Default,
{
    match level {
        StdoutColorLevel::TrueColor => TermColor::Rgb(rgb.0, rgb.1, rgb.2),
        StdoutColorLevel::Ansi256 => TermColor::Indexed(nearest_xterm_256(rgb)),
        StdoutColorLevel::Ansi16 | StdoutColorLevel::Unknown => TermColor::Default,
    }
}


pub open spec fn is_hex(c: char) -> bool {
    ('0' <= c && c <= '9') || ('a' <= c && c <= 'f') || ('A' <= c && c <= 'F')
}

pub open spec fn hex_val(c: char) -> int {
    if '0' <= c && c <= '9' {
        c as int - '0' as int
    } else if 'a' <= c && c <= 'f' {
        c as int - 'a' as int + 10
    } else {
        c as int - 'A' as int + 10
    }
}

/// `u8::from_str_radix(&part[..2], 16)`: the first two characters are two
/// hex digits, or `+` and one hex digit.
pub open spec fn hex_pair(p: Seq<char>) -> Option<u8> {
    if p.len() >= 2 && is_hex(p[1]) && is_hex(p[0]) {
        Some((16 * hex_val(p[0]) + hex_val(p[1])) as u8)
    } else if p.len() >= 2 && is_hex(p[1]) && p[0] == '+' {
        Some(hex_val(p[1]) as u8)
    } else {
        None
    }
}

/// Characters stripped from the end of an OSC colour value.
pub open spec fn is_osc_trailer(c: char) -> bool {
    c == '\u{1b}' || c == '\u{07}' || c == '\\'
}

pub open spec fn trim_osc_trailer(s: Seq<char>) -> Seq<char>
    decreases s.len(),
{
    if s.len() > 0 && is_osc_trailer(s.last()) {
        trim_osc_trailer(s.drop_last())
    } else {
        s
    }
}

pub open spec fn strip_prefix(s: Seq<char>, p: Seq<char>) -> Option<Seq<char>> {
    if p.len() <= s.len() && s.take(p.len() as int) == p {
        Some(s.skip(p.len() as int))
    } else {
        None
    }
}

/// The `/`-separated fields after the `rgb:`/`rgba:` prefix.
pub open spec fn rgb_body(s: Seq<char>) -> Option<Seq<char>> {
    let t = trim_osc_trailer(s);
    match strip_prefix(t, "rgb:"@) {
        Some(b) => Some(b),
        None => strip_prefix(t, "rgba:"@),
    }
}

/// First field of `b` and what follows its `/` separator, if any.
pub open spec fn field(b: Seq<char>) -> (Seq<char>, Option<Seq<char>>) {
    let e = first_index_of(b, '/');
    if e < b.len() {
        (b.take(e as int), Some(b.skip(e as int + 1)))
    } else {
        (b, None)
    }
}

/// `"rgb:RR/GG/BB"` or `"rgba:RR/GG/BB/AA"` (with optional OSC trailers)
/// as an `(r, g, b)` triplet.
pub open spec fn spec_parse_rgb(s: Seq<char>) -> Option<(u8, u8, u8)> {
    match rgb_body(s) {
        None => None,
        Some(b) => {
            let (p1, rest1) = field(b);
            match (hex_pair(p1), rest1) {
                (Some(r), Some(rest1)) => {
                    let (p2, rest2) = field(rest1);
                    match (hex_pair(p2), rest2) {
                        (Some(g), Some(rest2)) => {
                            let (p3, _) = field(rest2);
                            match hex_pair(p3) {
                                Some(bl) => Some((r, g, bl)),
                                None => None,
                            }
                        },
                        _ => None,
                    }
                },
                _ => None,
            }
        },
    }
}

fn hex_digit(c: char) -> (r: Option<u8>)
    ensures
        r is Some <==> is_hex(c),
        r matches Some(d) ==> d as int == hex_val(c) && d < 16,
{
    if '0' <= c && c <= '9' {
        Some((c as u32 - '0' as u32) as u8)
    } else if 'a' <= c && c <= 'f' {
        Some((c as u32 - 'a' as u32 + 10) as u8)
    } else if 'A' <= c && c <= 'F' {
        Some((c as u32 - 'A' as u32 + 10) as u8)
    } else {
        None
    }
}

fn parse_hex_pair(v: &Vec<char>, lo: usize, hi: usize) -> (r: Option<u8>)
    requires
        lo <= hi <= v.len(),
    ensures
        r == hex_pair(v@.subrange(lo as int, hi as int)),
{
    let ghost p = v@.subrange(lo as int, hi as int);
    if hi - lo < 2 {
        return None;
    }
    assert(p[0] == v@[lo as int] && p[1] == v@[lo + 1]);
    let d1 = hex_digit(v[lo + 1]);
    match d1 {
        None => None,
        Some(b) => {
            let c0 = v[lo];
            match hex_digit(c0) {
                Some(a) => Some(16 * a + b),
                None => if c0 == '+' { Some(b) } else { None },
            }
        },
    }
}

/// Exec form of [`field`] on `v[lo..hi]`: end of the first field, and the
/// start of the next one when a separator follows.
fn next_field(v: &Vec<char>, lo: usize, hi: usize) -> (r: (usize, Option<usize>))
    requires
        lo <= hi <= v.len(),
    ensures
        lo <= r.0 <= hi,
        field(v@.subrange(lo as int, hi as int)).0 == v@.subrange(lo as int, r.0 as int),
        match (field(v@.subrange(lo as int, hi as int)).1, r.1) {
            (Some(rest), Some(start)) => start <= hi && rest == v@.subrange(start as int, hi as int),
            (None, None) => true,
            _ => false,
        },
{
    let ghost b = v@.subrange(lo as int, hi as int);
    let e = find_char_in(v, lo, hi, '/');
    if e < hi {
        assert(b.take(e - lo) =~= v@.subrange(lo as int, e as int));
        assert(b.skip(e - lo + 1) =~= v@.subrange(e + 1, hi as int));
        (e, Some(e + 1))
    } else {
        (e, None)
    }
}

fn parse_rgb_range(v: &Vec<char>, lo: usize, hi: usize) -> (r: Option<(u8, u8, u8)>)
    requires
        lo <= hi <= v.len(),
    ensures
        r == spec_parse_rgb(v@.subrange(lo as int, hi as int)),
{
    let ghost s = v@.subrange(lo as int, hi as int);
    let mut end = hi;
    while end > lo && (v[end - 1] == '\u{1b}' || v[end - 1] == '\u{07}' || v[end - 1] == '\\')
        invariant
            lo <= end <= hi <= v.len(),
            trim_osc_trailer(s) == trim_osc_trailer(v@.subrange(lo as int, end as int)),
        decreases end - lo,
    {
        assert(v@.subrange(lo as int, end as int).drop_last() =~= v@.subrange(lo as int, end - 1));
        end -= 1;
    }
    let ghost t = v@.subrange(lo as int, end as int);
    assert(trim_osc_trailer(t) == t);
    let start: usize;
    if range_starts_with(v, lo, end, "rgb:") {
        proof { reveal_strlit("rgb:"); }
        assert(t.take(4) =~= v@.subrange(lo as int, lo + 4));
        assert(t.skip(4) =~= v@.subrange(lo + 4, end as int));
        start = lo + 4;
    } else if range_starts_with(v, lo, end, "rgba:") {
        proof { reveal_strlit("rgb:"); reveal_strlit("rgba:"); }
        assert(t.take(5) =~= v@.subrange(lo as int, lo + 5));
        assert(t.skip(5) =~= v@.subrange(lo + 5, end as int));
        assert(!(t.take(4) == "rgb:"@)) by {
            if t.take(4) == "rgb:"@ {
                assert(t.take(4)[3] == t.take(5)[3]);
            }
        }
        start = lo + 5;
    } else {
        proof { reveal_strlit("rgb:"); reveal_strlit("rgba:"); }
        assert(!(t.len() >= 4 && t.take(4) == "rgb:"@)) by {
            if t.len() >= 4 && t.take(4) == "rgb:"@ {
                assert(v@.subrange(lo as int, lo + 4) =~= t.take(4));
            }
        }
        assert(!(t.len() >= 5 && t.take(5) == "rgba:"@)) by {
            if t.len() >= 5 && t.take(5) == "rgba:"@ {
                assert(v@.subrange(lo as int, lo + 5) =~= t.take(5));
            }
        }
        return None;
    }
    let (e1, n1) = next_field(v, start, end);
    let r = match parse_hex_pair(v, start, e1) {
        Some(r) => r,
        None => return None,
    };
    let s2 = match n1 {
        Some(s2) => s2,
        None => return None,
    };
    let (e2, n2) = next_field(v, s2, end);
    let g = match parse_hex_pair(v, s2, e2) {
        Some(g) => g,
        None => return None,
    };
    let s3 = match n2 {
        Some(s3) => s3,
        None => return None,
    };
    let (e3, _) = next_field(v, s3, end);
    match parse_hex_pair(v, s3, e3) {
        Some(b) => Some((r, g, b)),
        None => None,
    }
}

/// Parse `"rgb:RR/GG/BB"` or `"rgba:RR/GG/BB/AA"` into `(r, g, b)`.
pub fn parse_rgb_triplet(s: &str) -> (r: Option<(u8, u8, u8)>)
    ensures
        r == spec_parse_rgb(s@),
{
    let v = str_chars(s);
    assert(v@.subrange(0, v@.len() as int) =~= s@);
    parse_rgb_range(&v, 0, v.len())
}


/// Text that `String::from_utf8_lossy` decodes from `bytes`.
pub uninterp spec fn lossy_text(bytes: Seq<u8>) -> Seq<char>;

/// `String::from_utf8_lossy`: invalid sequences become U+FFFD; valid UTF-8
/// decodes to exactly its characters. How invalid bytes are replaced is
/// left to the name `lossy_text`.
#[verifier::external_body]
fn utf8_lossy_chars(buf: &[u8]) -> (r: Vec<char>)
    ensures
        r@ == lossy_text(buf@),
        vstd::utf8::valid_utf8(buf@) ==> r@ == vstd::utf8::decode_utf8(buf@),
{
    String::from_utf8_lossy(buf).chars().collect()
}

/// Index of the first `ESC \` (string terminator) in `t`, or `t.len()`.
pub open spec fn st_index(t: Seq<char>) -> nat
    decreases t.len(),
{
    if t.len() < 2 {
        t.len()
    } else if t[0] == '\u{1b}' && t[1] == '\\' {
        0
    } else {
        1 + st_index(t.drop_first())
    }
}

proof fn lemma_st_index(t: Seq<char>)
    ensures
        st_index(t) <= t.len(),
        st_index(t) < t.len() ==> st_index(t) + 2 <= t.len() && t[st_index(t) as int] == '\u{1b}'
            && t[st_index(t) as int + 1] == '\\',
    decreases t.len(),
{
    if t.len() >= 2 && !(t[0] == '\u{1b}' && t[1] == '\\') {
        lemma_st_index(t.drop_first());
    }
}

pub open spec fn trim_start_esc(s: Seq<char>) -> Seq<char>
    decreases s.len(),
{
    if s.len() > 0 && s[0] == '\u{1b}' {
        trim_start_esc(s.drop_first())
    } else {
        s
    }
}

/// Effect of one `ESC \`-separated part on the colours seen so far: an
/// OSC 10 reply sets the foreground, an OSC 11 reply the background.
pub open spec fn osc_part(p: Seq<char>, fg: Option<(u8, u8, u8)>, bg: Option<(u8, u8, u8)>) -> (Option<(u8, u8, u8)>, Option<(u8, u8, u8)>) {
    let q = trim_start_esc(p);
    match strip_prefix(q, "]10;"@) {
        Some(rest) => (spec_parse_rgb(rest), bg),
        None => match strip_prefix(q, "]11;"@) {
            Some(rest) => (fg, spec_parse_rgb(rest)),
            None => (fg, bg),
        },
    }
}

/// Colours after scanning every part of `t` in order.
pub open spec fn osc_scan(t: Seq<char>, fg: Option<(u8, u8, u8)>, bg: Option<(u8, u8, u8)>) -> (Option<(u8, u8, u8)>, Option<(u8, u8, u8)>)
    decreases t.len(),
{
    let i = st_index(t);
    let (f2, b2) = osc_part(t.take(i as int), fg, bg);
    if i + 2 <= t.len() {
        osc_scan(t.skip(i as int + 2), f2, b2)
    } else {
        (f2, b2)
    }
}

/// Default colours from an OSC 10 + OSC 11 reply, when both are present.
pub open spec fn spec_osc_colors(t: Seq<char>) -> Option<((u8, u8, u8), (u8, u8, u8))> {
    match osc_scan(t, None, None) {
        (Some(f), Some(b)) => Some((f, b)),
        _ => None,
    }
}

fn osc_part_exec(v: &Vec<char>, lo: usize, hi: usize, fg: Option<(u8, u8, u8)>, bg: Option<(u8, u8, u8)>) -> (r: (Option<(u8, u8, u8)>, Option<(u8, u8, u8)>))
    requires
        lo <= hi <= v.len(),
    ensures
        r == osc_part(v@.subrange(lo as int, hi as int), fg, bg),
{
    let ghost p = v@.subrange(lo as int, hi as int);
    let mut a = lo;
    while a < hi && v[a] == '\u{1b}'
        invariant
            lo <= a <= hi <= v.len(),
            trim_start_esc(p) == trim_start_esc(v@.subrange(a as int, hi as int)),
        decreases hi - a,
    {
        assert(v@.subrange(a as int, hi as int).drop_first() =~= v@.subrange(a + 1, hi as int));
        a += 1;
    }
    let ghost q = v@.subrange(a as int, hi as int);
    assert(trim_start_esc(q) == q);
    proof { reveal_strlit("]10;"); reveal_strlit("]11;"); }
    if range_starts_with(v, a, hi, "]10;") {
        assert(q.take(4) =~= v@.subrange(a as int, a + 4));
        assert(q.skip(4) =~= v@.subrange(a + 4, hi as int));
        (parse_rgb_range(v, a + 4, hi), bg)
    } else if range_starts_with(v, a, hi, "]11;") {
        assert(q.take(4) =~= v@.subrange(a as int, a + 4));
        assert(q.skip(4) =~= v@.subrange(a + 4, hi as int));
        assert(!(q.take(4) == "]10;"@)) by {
            if q.take(4) == "]10;"@ {
                assert(q.take(4)[2] == '0');
            }
        }
        (fg, parse_rgb_range(v, a + 4, hi))
    } else {
        assert(!(4 <= q.len() && q.take(4) == "]10;"@)) by {
            if 4 <= q.len() && q.take(4) == "]10;"@ {
                assert(q.take(4) =~= v@.subrange(a as int, a + 4));
            }
        }
        assert(!(4 <= q.len() && q.take(4) == "]11;"@)) by {
            if 4 <= q.len() && q.take(4) == "]11;"@ {
                assert(q.take(4) =~= v@.subrange(a as int, a + 4));
            }
        }
        (fg, bg)
    }
}

/// Parse an OSC 10/11 reply (`ESC ] 1 0 ; rgb:RR/GG/BB ESC \` ...).
/// `None` until both the foreground and the background reply are present.
pub fn parse_osc_color_response(buf: &[u8]) -> (r: Option<DefaultColors>)
    ensures
        match (r, spec_osc_colors(lossy_text(buf@))) {
            (Some(c), Some((f, b))) => c.fg == f && c.bg == b,
            (None, None) => true,
            _ => false,
        },
{
    let v = utf8_lossy_chars(buf);
    let n = v.len();
    let mut pos: usize = 0;
    let mut fg: Option<(u8, u8, u8)> = None;
    let mut bg: Option<(u8, u8, u8)> = None;
    assert(v@.skip(0) =~= v@);
    loop
        invariant_except_break
            n == v.len(),
            pos <= n,
            osc_scan(v@, None, None) == osc_scan(v@.skip(pos as int), fg, bg),
        ensures
            osc_scan(v@, None, None) == (fg, bg),
        decreases n - pos,
    {
        let ghost t = v@.skip(pos as int);
        proof { lemma_st_index(t); }
        let mut i = pos;
        while n >= 2 && i < n - 1 && !(v[i] == '\u{1b}' && v[i + 1] == '\\')
            invariant
                pos <= i <= n,
                n == v.len(),
                t == v@.skip(pos as int),
                st_index(t) == (i - pos) + st_index(v@.skip(i as int)),
            decreases n - i,
        {
            assert(v@.skip(i as int).drop_first() =~= v@.skip(i + 1));
            i += 1;
        }
        let found = n >= 2 && i < n - 1;
        let sep: usize = if found { i } else { n };
        assert(sep - pos == st_index(t)) by {
            if !found {
                assert(v@.skip(i as int).len() < 2);
            } else {
                assert(v@.skip(i as int)[0] == v@[i as int]);
                assert(v@.skip(i as int)[1] == v@[i + 1]);
            }
        }
        assert(t.take(sep - pos) =~= v@.subrange(pos as int, sep as int));
        let (f2, b2) = osc_part_exec(&v, pos, sep, fg, bg);
        fg = f2;
        bg = b2;
        if found {
            assert(t.skip(sep - pos + 2) =~= v@.skip(sep + 2));
            pos = sep + 2;
        } else {
            break;
        }
    }
    match (fg, bg) {
        (Some(f), Some(b)) => Some(DefaultColors { fg: f, bg: b }),
        _ => None,
    }
}

/// Lowercase form of a string (`str::to_lowercase`, Unicode lowercase
/// mapping).
pub uninterp spec fn lowercase(s: Seq<char>) -> Seq<char>;

/// `str::to_lowercase`. What the Unicode mapping does to each character is
/// left to the name `lowercase`.
#[verifier::external_body]
fn to_lowercase(s: &str) -> (r: String)
    ensures
        r@ == lowercase(s@),
{
    s.to_lowercase()
}

fn mentions(s: &str, needle: &str) -> (r: bool)
    ensures
        r == seq_contains(lowercase(s@), needle@),
{
    let lower = to_lowercase(s);
    let v = str_chars(lower.as_str());
    assert(v@.subrange(0, v@.len() as int) =~= v@);
    range_contains(&v, 0, v.len(), needle)
}

/// Colour level advertised by `COLORTERM` / `TERM` values (already read
/// from the environment).
pub open spec fn spec_color_level(colorterm: Option<Seq<char>>, term: Option<Seq<char>>) -> StdoutColorLevel {
    let truecolor = |v: Seq<char>| seq_contains(lowercase(v), "truecolor"@) || seq_contains(lowercase(v), "24bit"@);
    if colorterm matches Some(ct) && truecolor(ct) {
        StdoutColorLevel::TrueColor
    } else {
        match term {
            Some(t) => if truecolor(t) {
                StdoutColorLevel::TrueColor
            } else if seq_contains(lowercase(t), "256"@) {
                StdoutColorLevel::Ansi256
            } else {
                StdoutColorLevel::Ansi16
            },
            None => StdoutColorLevel::Unknown,
        }
    }
}

/// A `COLORTERM` that mentions `truecolor` or `24bit` (after lowercasing)
/// means true colour, whatever `TERM` says or whether it is set.
pub proof fn law_colorterm_truecolor_wins(colorterm: Seq<char>, term: Option<Seq<char>>)
    requires
        seq_contains(lowercase(colorterm), "truecolor"@) || seq_contains(lowercase(colorterm), "24bit"@),
    ensures
        spec_color_level(Some(colorterm), term) == StdoutColorLevel::TrueColor,
{
}

pub fn color_level_from_env(colorterm: Option<&str>, term: Option<&str>) -> (r: StdoutColorLevel)
    ensures
        r == spec_color_level(
            match colorterm { Some(c) => Some(c@), None => None },
            match term { Some(t) => Some(t@), None => None },
        ),
{
    if let Some(ct) = colorterm {
        if mentions(ct, "truecolor") || mentions(ct, "24bit") {
            return StdoutColorLevel::TrueColor;
        }
    }
    match term {
        Some(t) => {
            if mentions(t, "truecolor") || mentions(t, "24bit") {
                StdoutColorLevel::TrueColor
            } else if mentions(t, "256") {
                StdoutColorLevel::Ansi256
            } else {
                StdoutColorLevel::Ansi16
            }
        },
        None => StdoutColorLevel::Unknown,
    }
}

} // verus!
