//! How the prompt composer shows its text: inline, or collapsed to a
//! one-line summary once a paste grows long.

use vstd::prelude::*;
use crate::text::{str_chars, string_from_range, trim, usize_decimal, dec, first_index_of};
use crate::model::plan::{first_line, after_first_line, line_bounds};
use crate::text::trim_bounds;

verus! {

/// Columns that `s` takes on a terminal, as `unicode-width` measures it.
pub uninterp spec fn display_width(s: Seq<char>) -> usize;

/// `UnicodeWidthStr::width`: the displayed width of `s` in columns.
#[verifier::external_body]
fn str_width(s: &str) -> (r: usize)
    ensures
        r == display_width(s@),
{
    unicode_width::UnicodeWidthStr::width(s)
}

/// The text after the last line break of `s` (all of `s` without one).
pub open spec fn last_line(s: Seq<char>) -> Seq<char>
    decreases s.len(),
{
    if s.len() == 0 {
        s
    } else if s.last() == '\n' {
        Seq::empty()
    } else {
        last_line(s.drop_last()).push(s.last())
    }
}

/// A collapsed composer: a summary of the paste and its first line.
#[derive(Debug, Clone, PartialEq, Eq)]
pub struct ComposerCollapse {
    pub summary: String,
    pub preview: String,
}

/// What the composer line shows.
#[derive(Debug, Clone, PartialEq, Eq)]
pub enum ComposerPresentation {
    Empty,
    Inline(String),
    Collapsed(ComposerCollapse),
}

/// Label in front of a collapsed paste's summary.
pub open spec fn paste_label() -> Seq<char> {
    "[paste] "@
}

impl ComposerPresentation {
    /// Column of the cursor after the shown text.
    pub open spec fn spec_cursor_width(&self) -> int {
        match self {
            ComposerPresentation::Empty => 0,
            ComposerPresentation::Inline(text) => display_width(last_line(text@)) as int,
            ComposerPresentation::Collapsed(c) => display_width(paste_label()) + display_width(c.summary@),
        }
    }

    /// Cursor column: the width of the last line of inline text, or of the
    /// paste label and summary of a collapsed paste.
    pub fn cursor_width(&self) -> (r: usize)
        requires
            self.spec_cursor_width() <= usize::MAX,
        ensures
            r == self.spec_cursor_width(),
    {
        match self {
            ComposerPresentation::Empty => 0,
            ComposerPresentation::Inline(text) => {
                let last = last_line_of(text.as_str());
                str_width(last.as_str())
            },
            ComposerPresentation::Collapsed(c) => {
                let label = "[paste] ";
                let w = str_width(label);
                w + str_width(c.summary.as_str())
            },
        }
    }

    /// The cursor column where it fits in a `usize`, else `None`.
    pub fn checked_cursor_width(&self) -> (r: Option<usize>)
        ensures
            r == (if self.spec_cursor_width() <= usize::MAX {
                Some(self.spec_cursor_width() as usize)
            } else {
                None
            }),
    {
        match self {
            ComposerPresentation::Collapsed(c) => {
                let w = str_width("[paste] ");
                let s = str_width(c.summary.as_str());
                if w as u128 + s as u128 > usize::MAX as u128 {
                    return None;
                }
            },
            _ => {},
        }
        Some(self.cursor_width())
    }
}

/// The last line of `text` as a new string.
fn last_line_of(text: &str) -> (r: String)
    ensures
        r@ == last_line(text@),
{
    let v = str_chars(text);
    let n = v.len();
    let mut j = n;
    assert(v@.take(n as int) =~= v@);
    assert(v@.subrange(n as int, n as int) =~= Seq::<char>::empty());
    while j > 0 && v[j - 1] != '\n'
        invariant
            j <= n == v.len(),
            v@ == text@,
            last_line(v@) == last_line(v@.take(j as int)) + v@.subrange(j as int, n as int),
        decreases j,
    {
        let ghost t = v@.take(j as int);
        assert(t.drop_last() =~= v@.take(j - 1));
        assert(v@.subrange(j - 1, n as int) =~= seq![v@[j - 1]] + v@.subrange(j as int, n as int));
        assert(last_line(t) + v@.subrange(j as int, n as int)
            =~= last_line(v@.take(j - 1)) + v@.subrange(j - 1, n as int));
        j -= 1;
    }
    assert(last_line(v@.take(j as int)) =~= Seq::<char>::empty());
    assert(last_line(v@) =~= v@.subrange(j as int, n as int));
    string_from_range(&v, j, n)
}

/// Number of `c` in `s`.
pub open spec fn count_char(s: Seq<char>, c: char) -> nat
    decreases s.len(),
{
    if s.len() == 0 {
        0
    } else {
        count_char(s.drop_last(), c) + if s.last() == c { 1nat } else { 0nat }
    }
}

pub(crate) proof fn lemma_count_char_le(s: Seq<char>, c: char)
    ensures
        count_char(s, c) <= s.len(),
        s.len() > 0 && s.last() != c ==> count_char(s, c) < s.len(),
    decreases s.len(),
{
    if s.len() > 0 {
        lemma_count_char_le(s.drop_last(), c);
    }
}

/// Number of lines `str::lines` yields for `s`.
pub open spec fn line_count(s: Seq<char>) -> nat {
    count_char(s, '\n') + if s.len() > 0 && s.last() != '\n' { 1nat } else { 0nat }
}

/// The first line of `s` that is not blank, trimmed.
pub open spec fn first_nonblank_line(s: Seq<char>) -> Option<Seq<char>>
    decreases s.len(),
{
    if s.len() == 0 {
        None
    } else {
        let (line, more) = first_line(s);
        if trim(line).len() > 0 {
            Some(trim(line))
        } else if !more || first_index_of(s, '\n') >= s.len() {
            None
        } else {
            first_nonblank_line(after_first_line(s))
        }
    }
}

/// `text` cut to `max` characters: kept whole when it fits, else its
/// first `max - 4` characters followed by ` ...`.
pub open spec fn spec_truncate_chars(text: Seq<char>, max: nat) -> Seq<char> {
    if text.len() <= max {
        text
    } else {
        let keep = if max >= 4 { max - 4 } else { 0 };
        text.take(keep as int) + " ..."@
    }
}

/// Lines at which a paste collapses.
pub open spec fn collapse_line_threshold() -> nat {
    32
}

/// Characters at which a paste collapses.
pub open spec fn collapse_char_threshold() -> nat {
    4000
}

/// Characters of the first line kept in a collapsed preview.
pub open spec fn preview_chars() -> nat {
    88
}

pub open spec fn collapse_summary(text: Seq<char>) -> Seq<char> {
    let lines = if line_count(text) == 0 { 1 } else { line_count(text) };
    if lines >= collapse_line_threshold() {
        "Pasted block: "@ + dec(lines) + " lines, "@ + dec(text.len()) + " chars"@
    } else {
        "Long prompt: "@ + dec(text.len()) + " chars"@
    }
}

pub open spec fn collapse_preview(text: Seq<char>) -> Seq<char> {
    match first_nonblank_line(text) {
        Some(l) => spec_truncate_chars(l, preview_chars()),
        None => spec_truncate_chars("<blank paste>"@, preview_chars()),
    }
}

/// Whether `text` is long enough to collapse.
pub open spec fn should_collapse(text: Seq<char>) -> bool {
    let lines = if line_count(text) == 0 { 1 } else { line_count(text) };
    lines >= collapse_line_threshold() || text.len() >= collapse_char_threshold()
}

/// Count of `\n` in `v`.
fn count_newlines(v: &Vec<char>) -> (r: usize)
    ensures
        r == count_char(v@, '\n'),
        r <= v.len(),
{
    let mut k: usize = 0;
    let mut i: usize = 0;
    while i < v.len()
        invariant
            i <= v.len(),
            k == count_char(v@.take(i as int), '\n'),
            k <= i,
        decreases v.len() - i,
    {
        assert(v@.take(i + 1).drop_last() =~= v@.take(i as int));
        if v[i] == '\n' {
            k += 1;
        }
        i += 1;
    }
    assert(v@.take(v.len() as int) =~= v@);
    k
}

/// Truncate `text` to `max_chars` characters (see [`spec_truncate_chars`]).
pub fn truncate_chars(text: &str, max_chars: usize) -> (r: String)
    ensures
        r@ == spec_truncate_chars(text@, max_chars as nat),
{
    let v = str_chars(text);
    if v.len() <= max_chars {
        return String::from_str(text);
    }
    let keep = max_chars.saturating_sub(4);
    let mut preview = string_from_range(&v, 0, keep);
    preview.append(" ...");
    proof {
        reveal_strlit(" ...");
    }
    preview
}

/// The first non-blank line of `v`, trimmed, as a new string.
fn first_nonblank_line_of(v: &Vec<char>) -> (r: Option<String>)
    ensures
        match (r, first_nonblank_line(v@)) {
            (Some(s), Some(l)) => s@ == l,
            (None, None) => true,
            _ => false,
        },
{
    let n = v.len();
    let mut pos: usize = 0;
    assert(v@.skip(0) =~= v@);
    while pos < n
        invariant
            n == v.len(),
            pos <= n,
            first_nonblank_line(v@) == first_nonblank_line(v@.skip(pos as int)),
        decreases n - pos,
    {
        let (e, ce) = line_bounds(v, pos);
        let (a, b) = trim_bounds(v, pos, ce);
        if a < b {
            return Some(string_from_range(v, a, b));
        }
        if e == n {
            return None;
        }
        pos = e + 1;
    }
    assert(v@.skip(n as int).len() == 0);
    None
}

/// How the composer shows `text`: nothing for empty text, the text itself
/// below 32 lines and 4000 characters, else a summary of its size and a
/// preview of its first non-blank line.
pub fn composer_presentation_for_text(text: &str) -> (r: ComposerPresentation)
    ensures
        text@.len() == 0 ==> r is Empty,
        text@.len() > 0 && !should_collapse(text@) ==> r is Inline && r->Inline_0@ == text@,
        text@.len() > 0 && should_collapse(text@) ==> r is Collapsed
            && r->Collapsed_0.summary@ == collapse_summary(text@)
            && r->Collapsed_0.preview@ == collapse_preview(text@),
{
    let v = str_chars(text);
    let n = v.len();
    if n == 0 {
        return ComposerPresentation::Empty;
    }
    let newlines = count_newlines(&v);
    proof { lemma_count_char_le(v@, '\n'); }
    let counted = if v[n - 1] != '\n' { newlines + 1 } else { newlines };
    let lines = if counted == 0 { 1 } else { counted };
    let collapse = lines >= 32 || n >= 4000;
    if !collapse {
        return ComposerPresentation::Inline(String::from_str(text));
    }
    let summary = if lines >= 32 {
        let mut s = String::from_str("Pasted block: ");
        s.append(usize_decimal(lines).as_str());
        s.append(" lines, ");
        s.append(usize_decimal(n).as_str());
        s.append(" chars");
        s
    } else {
        let mut s = String::from_str("Long prompt: ");
        s.append(usize_decimal(n).as_str());
        s.append(" chars");
        s
    };
    let preview = match first_nonblank_line_of(&v) {
        Some(line) => truncate_chars(line.as_str(), 88),
        None => truncate_chars("<blank paste>", 88),
    };
    proof {
        reveal_strlit("Pasted block: ");
        reveal_strlit(" lines, ");
        reveal_strlit(" chars");
        reveal_strlit("Long prompt: ");
    }
    ComposerPresentation::Collapsed(ComposerCollapse { summary, preview })
}

} // verus!
