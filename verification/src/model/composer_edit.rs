//! Editing the prompt being composed: a UTF-8 text and a cursor held as a
//! byte offset into it. Every edit first clamps the cursor onto a character
//! boundary, then works character by character; the model speaks of the
//! text as characters and of the cursor as the index of the character it
//! stands before.

use vstd::prelude::*;
use vstd::utf8::{encode_utf8, encode_scalar};
use crate::text::{str_chars, is_ws, char_is_whitespace, push_char, string_from_range};
use crate::model::drafts::ComposerDraft;
use crate::model::composer::{ComposerPresentation, composer_presentation_for_text, should_collapse, collapse_summary, collapse_preview};

verus! {

/// Bytes of one character in UTF-8 (1 to 4).
pub open spec fn char_bytes(c: char) -> nat {
    encode_scalar(c as u32).len()
}

/// Bytes of a text in UTF-8, as `str::len` reports them.
pub open spec fn utf8_len(s: Seq<char>) -> nat {
    encode_utf8(s).len()
}

/// Byte offset at which character `k` starts (the text's length for
/// `k == s.len()`).
pub open spec fn offset(s: Seq<char>, k: int) -> nat {
    utf8_len(s.take(k))
}

/// The largest character index `j <= k` whose offset is at most `c`.
pub open spec fn floor_char(s: Seq<char>, c: int, k: int) -> int
    decreases k,
{
    if k <= 0 {
        0
    } else if offset(s, k) <= c {
        k
    } else {
        floor_char(s, c, k - 1)
    }
}

/// The character the cursor stands before. A missing cursor or one past
/// the end stands at the end; one on a boundary stands there; one inside a
/// character falls back one further character (to the start of the text
/// at the least), as `str` boundary search does.
pub open spec fn spec_cursor_char(s: Seq<char>, cursor: Option<usize>) -> int {
    let len = utf8_len(s) as int;
    let c = match cursor {
        Some(x) => if x < len { x as int } else { len },
        None => len,
    };
    let j = floor_char(s, c, s.len() as int);
    if offset(s, j) == c {
        j
    } else if j == 0 {
        0
    } else {
        j - 1
    }
}

/// Start of the line the cursor is on: just after the last line break
/// before it.
pub open spec fn spec_line_start(s: Seq<char>, i: int) -> int
    decreases i,
{
    if i <= 0 {
        0
    } else if s[i - 1] == '\n' {
        i
    } else {
        spec_line_start(s, i - 1)
    }
}

/// End of the line the cursor is on: the next line break, or the end.
pub open spec fn spec_line_end(s: Seq<char>, i: int) -> int
    decreases s.len() - i,
{
    if i >= s.len() {
        s.len() as int
    } else if s[i] == '\n' {
        i
    } else {
        spec_line_end(s, i + 1)
    }
}

pub open spec fn skip_back_ws(s: Seq<char>, i: int) -> int
    decreases i,
{
    if i > 0 && is_ws(s[i - 1]) {
        skip_back_ws(s, i - 1)
    } else {
        i
    }
}

pub open spec fn skip_back_word(s: Seq<char>, i: int) -> int
    decreases i,
{
    if i > 0 && !is_ws(s[i - 1]) {
        skip_back_word(s, i - 1)
    } else {
        i
    }
}

pub open spec fn skip_fwd_ws(s: Seq<char>, i: int) -> int
    decreases s.len() - i,
{
    if 0 <= i < s.len() && is_ws(s[i]) {
        skip_fwd_ws(s, i + 1)
    } else {
        i
    }
}

pub open spec fn skip_fwd_word(s: Seq<char>, i: int) -> int
    decreases s.len() - i,
{
    if 0 <= i < s.len() && !is_ws(s[i]) {
        skip_fwd_word(s, i + 1)
    } else {
        i
    }
}

/// Start of the word before the cursor: back over whitespace, then back
/// over the word.
pub open spec fn spec_prev_word(s: Seq<char>, i: int) -> int {
    skip_back_word(s, skip_back_ws(s, i))
}

/// End of the word after the cursor: over whitespace, then over the word.
pub open spec fn spec_next_word(s: Seq<char>, i: int) -> int {
    skip_fwd_word(s, skip_fwd_ws(s, i))
}

/// Text `s` with a character inserted before character `i`; the cursor
/// after it.
pub open spec fn model_insert_char(s: Seq<char>, i: int, c: char) -> (Seq<char>, int) {
    (s.take(i).push(c) + s.skip(i), i + 1)
}

/// Backspace at character `i`.
pub open spec fn model_delete_prev(s: Seq<char>, i: int) -> (Seq<char>, int) {
    if i <= 0 {
        (s, 0)
    } else {
        (s.take(i - 1) + s.skip(i), i - 1)
    }
}

/// Delete at character `i`.
pub open spec fn model_delete_next(s: Seq<char>, i: int) -> (Seq<char>, int) {
    if i >= s.len() {
        (s, s.len() as int)
    } else {
        (s.take(i) + s.skip(i + 1), i)
    }
}

pub open spec fn model_left(s: Seq<char>, i: int) -> int {
    if i > 0 { i - 1 } else { 0 }
}

pub open spec fn model_right(s: Seq<char>, i: int) -> int {
    if i < s.len() { i + 1 } else { s.len() as int }
}

// ---------------------------------------------------------------------
// UTF-8 offsets.

proof fn lemma_encode_concat(a: Seq<char>, b: Seq<char>)
    ensures
        encode_utf8(a + b) == encode_utf8(a) + encode_utf8(b),
    decreases a.len(),
{
    if a.len() == 0 {
        assert(a + b =~= b);
        assert(encode_utf8(a) =~= Seq::<u8>::empty());
        assert(encode_utf8(a) + encode_utf8(b) =~= encode_utf8(b));
    } else {
        lemma_encode_concat(a.drop_first(), b);
        assert((a + b).drop_first() =~= a.drop_first() + b);
        assert((a + b)[0] == a[0]);
        assert(encode_utf8(a + b) =~= encode_utf8(a) + encode_utf8(b));
    }
}

pub proof fn lemma_utf8_len_concat(a: Seq<char>, b: Seq<char>)
    ensures
        utf8_len(a + b) == utf8_len(a) + utf8_len(b),
{
    lemma_encode_concat(a, b);
}

proof fn lemma_utf8_len_one(c: char)
    ensures
        utf8_len(seq![c]) == char_bytes(c),
        1 <= char_bytes(c) <= 4,
{
    assert(seq![c].drop_first() =~= Seq::<char>::empty());
    assert(encode_utf8(Seq::<char>::empty()) =~= Seq::<u8>::empty());
    assert(encode_utf8(seq![c]) =~= encode_scalar(c as u32) + encode_utf8(Seq::<char>::empty()));
}

proof fn lemma_offset_zero(s: Seq<char>)
    ensures
        offset(s, 0) == 0,
{
    assert(s.take(0) =~= Seq::<char>::empty());
    assert(encode_utf8(Seq::<char>::empty()) =~= Seq::<u8>::empty());
}

proof fn lemma_offset_step(s: Seq<char>, k: int)
    requires
        0 <= k < s.len(),
    ensures
        offset(s, k + 1) == offset(s, k) + char_bytes(s[k]),
        offset(s, k) < offset(s, k + 1),
{
    assert(s.take(k + 1) =~= s.take(k) + seq![s[k]]);
    lemma_utf8_len_concat(s.take(k), seq![s[k]]);
    lemma_utf8_len_one(s[k]);
}

proof fn lemma_offset_total(s: Seq<char>, k: int)
    requires
        0 <= k <= s.len(),
    ensures
        offset(s, k) <= utf8_len(s),
        offset(s, s.len() as int) == utf8_len(s),
{
    assert(s =~= s.take(k) + s.skip(k));
    lemma_utf8_len_concat(s.take(k), s.skip(k));
    assert(s.take(s.len() as int) =~= s);
}

proof fn lemma_offset_strict(s: Seq<char>, j: int, k: int)
    requires
        0 <= j < k <= s.len(),
    ensures
        offset(s, j) < offset(s, k),
    decreases k - j,
{
    lemma_offset_step(s, k - 1);
    if j < k - 1 {
        lemma_offset_strict(s, j, k - 1);
    }
}

proof fn lemma_floor_char_bounds(s: Seq<char>, c: int, k: int)
    requires
        0 <= k <= s.len(),
        c >= 0,
    ensures
        0 <= floor_char(s, c, k) <= k,
        offset(s, floor_char(s, c, k)) <= c,
    decreases k,
{
    lemma_offset_zero(s);
    if k > 0 && offset(s, k) > c {
        lemma_floor_char_bounds(s, c, k - 1);
    }
}

proof fn lemma_floor_char_at(s: Seq<char>, k: int, m: int)
    requires
        0 <= k <= m <= s.len(),
    ensures
        floor_char(s, offset(s, k) as int, m) == k,
    decreases m,
{
    if m > k {
        lemma_offset_strict(s, k, m);
        lemma_floor_char_at(s, k, m - 1);
    } else if k > 0 {
    }
}

/// A cursor placed on a character boundary stands before that character:
/// clamping changes nothing.
pub proof fn law_boundary_cursor_is_kept(s: Seq<char>, k: int)
    requires
        0 <= k <= s.len(),
        utf8_len(s) <= usize::MAX,
    ensures
        spec_cursor_char(s, Some(offset(s, k) as usize)) == k,
{
    lemma_offset_total(s, k);
    lemma_floor_char_at(s, k, s.len() as int);
}

/// The clamped cursor lies within the text.
pub proof fn lemma_cursor_char_bounds(s: Seq<char>, cursor: Option<usize>)
    ensures
        0 <= spec_cursor_char(s, cursor) <= s.len(),
{
    let len = utf8_len(s) as int;
    let c = match cursor {
        Some(x) => if x < len { x as int } else { len },
        None => len,
    };
    lemma_floor_char_bounds(s, c, s.len() as int);
}

// ---------------------------------------------------------------------
// Executable helpers.

/// `char::len_utf8`.
pub fn char_len_utf8(c: char) -> (r: usize)
    ensures
        r == char_bytes(c),
        1 <= r <= 4,
{
    let u = c as u32;
    proof { vstd::utf8::char_is_scalar(c); }
    if u < 0x80 {
        1
    } else if u < 0x800 {
        2
    } else if u < 0x10000 {
        3
    } else {
        4
    }
}

/// Byte offsets of every character boundary of `v`.
fn char_offsets(v: &Vec<char>) -> (r: Vec<usize>)
    requires
        utf8_len(v@) <= usize::MAX,
    ensures
        r@.len() == v@.len() + 1,
        forall|k: int| 0 <= k <= v@.len() ==> #[trigger] r@[k] as int == offset(v@, k),
{
    let mut r: Vec<usize> = Vec::new();
    proof { lemma_offset_zero(v@); }
    r.push(0);
    let mut acc: usize = 0;
    let mut k: usize = 0;
    while k < v.len()
        invariant
            k <= v.len(),
            r@.len() == k + 1,
            acc as int == offset(v@, k as int),
            utf8_len(v@) <= usize::MAX,
            forall|j: int| 0 <= j <= k ==> #[trigger] r@[j] as int == offset(v@, j),
        decreases v.len() - k,
    {
        proof {
            lemma_offset_step(v@, k as int);
            lemma_offset_total(v@, k + 1);
        }
        acc = acc + char_len_utf8(v[k]);
        r.push(acc);
        k += 1;
    }
    r
}

/// The character index the cursor stands before (see [`spec_cursor_char`]).
fn cursor_char(v: &Vec<char>, offs: &Vec<usize>, cursor: Option<usize>) -> (r: usize)
    requires
        offs@.len() == v@.len() + 1,
        forall|k: int| 0 <= k <= v@.len() ==> #[trigger] offs@[k] as int == offset(v@, k),
    ensures
        r as int == spec_cursor_char(v@, cursor),
        r <= v.len(),
{
    let n = v.len();
    let len = offs[n];
    proof { lemma_offset_total(v@, n as int); }
    let c = match cursor {
        Some(x) => if x < len { x } else { len },
        None => len,
    };
    let mut k = n;
    while k > 0 && offs[k] > c
        invariant
            k <= n,
            n == v.len(),
            offs@.len() == n + 1,
            forall|j: int| 0 <= j <= n ==> #[trigger] offs@[j] as int == offset(v@, j),
            floor_char(v@, c as int, n as int) == floor_char(v@, c as int, k as int),
        decreases k,
    {
        k -= 1;
    }
    if offs[k] == c {
        k
    } else if k == 0 {
        0
    } else {
        k - 1
    }
}

/// Index of the first line break at or after `i`, or the end.
fn line_end_index(v: &Vec<char>, i: usize) -> (r: usize)
    requires
        i <= v.len(),
    ensures
        r as int == spec_line_end(v@, i as int),
        i <= r <= v.len(),
{
    let mut k = i;
    while k < v.len() && v[k] != '\n'
        invariant
            i <= k <= v.len(),
            spec_line_end(v@, i as int) == spec_line_end(v@, k as int),
        decreases v.len() - k,
    {
        k += 1;
    }
    k
}

/// Index just after the last line break before `i`, or 0.
fn line_start_index(v: &Vec<char>, i: usize) -> (r: usize)
    requires
        i <= v.len(),
    ensures
        r as int == spec_line_start(v@, i as int),
        r <= i,
{
    let mut k = i;
    while k > 0 && v[k - 1] != '\n'
        invariant
            k <= i <= v.len(),
            spec_line_start(v@, i as int) == spec_line_start(v@, k as int),
        decreases k,
    {
        k -= 1;
    }
    k
}

fn prev_word_index(v: &Vec<char>, i: usize) -> (r: usize)
    requires
        i <= v.len(),
    ensures
        r as int == spec_prev_word(v@, i as int),
        r <= i,
{
    let mut k = i;
    while k > 0 && char_is_whitespace(v[k - 1])
        invariant
            k <= i <= v.len(),
            skip_back_ws(v@, i as int) == skip_back_ws(v@, k as int),
        decreases k,
    {
        k -= 1;
    }
    let ghost mid = k as int;
    while k > 0 && !char_is_whitespace(v[k - 1])
        invariant
            k <= mid <= i <= v.len(),
            skip_back_word(v@, mid) == skip_back_word(v@, k as int),
        decreases k,
    {
        k -= 1;
    }
    k
}

fn next_word_index(v: &Vec<char>, i: usize) -> (r: usize)
    requires
        i <= v.len(),
    ensures
        r as int == spec_next_word(v@, i as int),
        i <= r <= v.len(),
{
    let mut k = i;
    while k < v.len() && char_is_whitespace(v[k])
        invariant
            i <= k <= v.len(),
            skip_fwd_ws(v@, i as int) == skip_fwd_ws(v@, k as int),
        decreases v.len() - k,
    {
        k += 1;
    }
    let ghost mid = k as int;
    while k < v.len() && !char_is_whitespace(v[k])
        invariant
            i <= mid <= k <= v.len(),
            skip_fwd_word(v@, mid) == skip_fwd_word(v@, k as int),
        decreases v.len() - k,
    {
        k += 1;
    }
    k
}

/// `v[..a]`, then `mid`, then `v[b..]`.
fn splice(v: &Vec<char>, a: usize, b: usize, mid: &str) -> (r: String)
    requires
        a <= b <= v.len(),
    ensures
        r@ == v@.take(a as int) + mid@ + v@.skip(b as int),
{
    let mut r = string_from_range(v, 0, a);
    r.append(mid);
    let tail = string_from_range(v, b, v.len());
    r.append(tail.as_str());
    assert(v@.subrange(0, a as int) =~= v@.take(a as int));
    assert(v@.subrange(b as int, v@.len() as int) =~= v@.skip(b as int));
    r
}

// ---------------------------------------------------------------------
// Boundary search on byte offsets.

/// The smallest character index `k >= j` whose offset is at least `c`
/// (the character count when there is none).
pub open spec fn ceil_char(s: Seq<char>, c: int, j: int) -> int
    decreases s.len() - j,
{
    if j >= s.len() {
        s.len() as int
    } else if offset(s, j) >= c {
        j
    } else {
        ceil_char(s, c, j + 1)
    }
}

/// `cursor`, capped at the text's byte length.
pub open spec fn capped(s: Seq<char>, cursor: usize) -> int {
    if cursor < utf8_len(s) { cursor as int } else { utf8_len(s) as int }
}

/// The boundary before the one at or below `cursor`: from inside a
/// character or on a boundary, the start of the previous character;
/// nothing at the first character.
pub open spec fn spec_prev_char_boundary(s: Seq<char>, cursor: usize) -> Option<int> {
    let j = floor_char(s, capped(s, cursor), s.len() as int);
    if j == 0 { None } else { Some(offset(s, j - 1) as int) }
}

/// The boundary after the one at or above `cursor`: the end of the
/// character starting there; nothing at the end.
pub open spec fn spec_next_char_boundary(s: Seq<char>, cursor: usize) -> Option<int> {
    let j = ceil_char(s, capped(s, cursor), 0);
    if j < s.len() { Some(offset(s, j + 1) as int) } else { None }
}

/// Index of the character boundary at or below `cursor`.
pub open spec fn boundary_below(s: Seq<char>, cursor: usize) -> int {
    floor_char(s, capped(s, cursor), s.len() as int)
}

/// Whether `cursor` (capped at the length) falls on a character boundary.
pub open spec fn on_boundary(s: Seq<char>, cursor: usize) -> bool {
    offset(s, boundary_below(s, cursor)) == capped(s, cursor)
}

/// Start of the word before `cursor` (see [`spec_prev_word`]); a cursor
/// inside the first character stays where it is.
pub open spec fn spec_prev_word_boundary(s: Seq<char>, cursor: usize) -> int {
    if on_boundary(s, cursor) {
        offset(s, spec_prev_word(s, boundary_below(s, cursor))) as int
    } else {
        capped(s, cursor)
    }
}

/// End of the word after `cursor` (see [`spec_next_word`]); a cursor
/// inside the last character stays where it is.
pub open spec fn spec_next_word_boundary(s: Seq<char>, cursor: usize) -> int {
    if on_boundary(s, cursor) {
        offset(s, spec_next_word(s, boundary_below(s, cursor))) as int
    } else {
        capped(s, cursor)
    }
}

fn floor_index(offs: &Vec<usize>, c: usize, Ghost(s): Ghost<Seq<char>>) -> (r: usize)
    requires
        offs@.len() == s.len() + 1,
        forall|k: int| 0 <= k <= s.len() ==> #[trigger] offs@[k] as int == offset(s, k),
    ensures
        r as int == floor_char(s, c as int, s.len() as int),
        r <= s.len(),
{
    let n = offs.len() - 1;
    let mut k = n;
    while k > 0 && offs[k] > c
        invariant
            k <= n,
            n == s.len(),
            offs@.len() == n + 1,
            forall|j: int| 0 <= j <= n ==> #[trigger] offs@[j] as int == offset(s, j),
            floor_char(s, c as int, n as int) == floor_char(s, c as int, k as int),
        decreases k,
    {
        k -= 1;
    }
    k
}

/// The previous character boundary (see [`spec_prev_char_boundary`]).
pub fn prev_char_boundary(text: &str, cursor: usize) -> (r: Option<usize>)
    requires
        utf8_len(text@) <= usize::MAX,
    ensures
        match (r, spec_prev_char_boundary(text@, cursor)) {
            (Some(a), Some(b)) => a as int == b,
            (None, None) => true,
            _ => false,
        },
{
    let v = str_chars(text);
    let offs = char_offsets(&v);
    let len = offs[v.len()];
    proof { lemma_offset_total(v@, v@.len() as int); }
    let c = if cursor < len { cursor } else { len };
    let j = floor_index(&offs, c, Ghost(v@));
    if j == 0 { None } else { Some(offs[j - 1]) }
}

/// The next character boundary (see [`spec_next_char_boundary`]).
pub fn next_char_boundary(text: &str, cursor: usize) -> (r: Option<usize>)
    requires
        utf8_len(text@) <= usize::MAX,
    ensures
        match (r, spec_next_char_boundary(text@, cursor)) {
            (Some(a), Some(b)) => a as int == b,
            (None, None) => true,
            _ => false,
        },
{
    let v = str_chars(text);
    let offs = char_offsets(&v);
    let n = v.len();
    let len = offs[n];
    proof { lemma_offset_total(v@, n as int); }
    let c = if cursor < len { cursor } else { len };
    let mut j: usize = 0;
    while j < n && offs[j] < c
        invariant
            j <= n,
            n == v@.len(),
            offs@.len() == n + 1,
            forall|k: int| 0 <= k <= n ==> #[trigger] offs@[k] as int == offset(v@, k),
            ceil_char(v@, c as int, 0) == ceil_char(v@, c as int, j as int),
        decreases n - j,
    {
        j += 1;
    }
    if j < n { Some(offs[j + 1]) } else { None }
}

/// Start of the word before `cursor` (see [`spec_prev_word_boundary`]).
/// A cursor inside a character other than the first is refused: the
/// search would cut that character.
pub fn prev_word_boundary(text: &str, cursor: usize) -> (r: usize)
    requires
        utf8_len(text@) <= usize::MAX,
        on_boundary(text@, cursor) || boundary_below(text@, cursor) == 0,
    ensures
        r as int == spec_prev_word_boundary(text@, cursor),
{
    let v = str_chars(text);
    let offs = char_offsets(&v);
    let len = offs[v.len()];
    proof { lemma_offset_total(v@, v@.len() as int); }
    let c = if cursor < len { cursor } else { len };
    let i = floor_index(&offs, c, Ghost(v@));
    if offs[i] != c {
        return c;
    }
    let w = prev_word_index(&v, i);
    offs[w]
}

/// End of the word after `cursor` (see [`spec_next_word_boundary`]). A
/// cursor inside a character other than the last is refused: the search
/// would cut that character.
pub fn next_word_boundary(text: &str, cursor: usize) -> (r: usize)
    requires
        utf8_len(text@) <= usize::MAX,
        on_boundary(text@, cursor) || boundary_below(text@, cursor) + 1 == text@.len(),
    ensures
        r as int == spec_next_word_boundary(text@, cursor),
{
    let v = str_chars(text);
    let offs = char_offsets(&v);
    let len = offs[v.len()];
    proof { lemma_offset_total(v@, v@.len() as int); }
    let c = if cursor < len { cursor } else { len };
    let i = floor_index(&offs, c, Ghost(v@));
    if offs[i] != c {
        return c;
    }
    let e = next_word_index(&v, i);
    offs[e]
}

// ---------------------------------------------------------------------
// The composer.

/// The prompt being composed, the cursor in it as a byte offset (`None`:
/// at the end), and the unsent drafts of other sessions.
#[derive(Debug, Clone, PartialEq, Eq)]
pub struct ComposerState {
    pub composer: String,
    pub composer_cursor: Option<usize>,
    pub composer_drafts: Vec<ComposerDraft>,
}

impl ComposerState {
    /// The text, as characters.
    pub open spec fn text(&self) -> Seq<char> {
        self.composer@
    }

    /// The character the cursor stands before.
    pub open spec fn cursor_char(&self) -> int {
        spec_cursor_char(self.composer@, self.composer_cursor)
    }

    /// Whether the text's byte length fits the machine's offsets.
    pub open spec fn fits(&self) -> bool {
        utf8_len(self.composer@) <= usize::MAX
    }

    /// Whether the cursor is `Some(offset(text, k))`.
    pub open spec fn cursor_at(&self, k: int) -> bool {
        self.composer_cursor matches Some(c) && c as int == offset(self.composer@, k)
    }

    /// An empty composer without drafts.
    pub fn new() -> (r: Self)
        ensures
            r.composer@ == Seq::<char>::empty(),
            r.composer_cursor.is_none(),
            r.composer_drafts@.len() == 0,
    {
        ComposerState { composer: String::new(), composer_cursor: None, composer_drafts: Vec::new() }
    }

    fn locate(&self) -> (r: (Vec<char>, Vec<usize>, usize))
        requires
            self.fits(),
        ensures
            r.0@ == self.composer@,
            r.1@.len() == r.0@.len() + 1,
            forall|k: int| 0 <= k <= r.0@.len() ==> #[trigger] r.1@[k] as int == offset(r.0@, k),
            r.2 as int == self.cursor_char(),
            r.2 <= r.0@.len(),
    {
        let v = str_chars(self.composer.as_str());
        let offs = char_offsets(&v);
        let i = cursor_char(&v, &offs, self.composer_cursor);
        (v, offs, i)
    }

    /// Replace the text; the cursor goes to its end.
    pub fn set_composer_text(&mut self, text: String)
        ensures
            final(self).composer_drafts@ == old(self).composer_drafts@,
            final(self).composer == text,
            final(self).composer_cursor.is_none(),
    {
        self.composer = text;
        self.composer_cursor = None;
    }

    /// `cursor` clamped onto a character boundary of the text (see
    /// [`spec_cursor_char`]).
    pub fn clamp_composer_cursor(&self, cursor: usize) -> (r: usize)
        requires
            self.fits(),
        ensures
            r as int == offset(self.composer@, spec_cursor_char(self.composer@, Some(cursor))),
    {
        let v = str_chars(self.composer.as_str());
        let offs = char_offsets(&v);
        let i = cursor_char(&v, &offs, Some(cursor));
        offs[i]
    }

    /// The cursor's byte offset, clamped onto a character boundary (see
    /// [`spec_cursor_char`]).
    pub fn composer_cursor_index(&self) -> (r: usize)
        requires
            self.fits(),
        ensures
            r as int == offset(self.composer@, self.cursor_char()),
            0 <= self.cursor_char() <= self.composer@.len(),
    {
        let (_v, offs, i) = self.locate();
        offs[i]
    }

    /// Insert `text` at the cursor and move the cursor after it; nothing
    /// happens for an empty text.
    pub fn insert_composer_text(&mut self, text: &str)
        requires
            utf8_len(old(self).composer@) + utf8_len(text@) <= usize::MAX,
        ensures
            final(self).composer_drafts@ == old(self).composer_drafts@,
            text@.len() == 0 ==> *final(self) == *old(self),
            text@.len() > 0 ==> final(self).composer@ == old(self).composer@.take(old(self).cursor_char()) + text@
                + old(self).composer@.skip(old(self).cursor_char())
                && final(self).cursor_at(old(self).cursor_char() + text@.len()),
    {
        if text.is_empty() {
            return;
        }
        let ghost s = self.composer@;
        let (v, offs, i) = self.locate();
        let added = text.len();
        let t = splice(&v, i, i, text);
        proof {
            lemma_offset_total(v@, i as int);
            let ins = text@;
            let tt = t@;
            assert(tt.take(i + ins.len()) =~= v@.take(i as int) + ins);
            lemma_utf8_len_concat(v@.take(i as int), ins);
        }
        self.composer = t;
        self.composer_cursor = Some(offs[i] + added);
    }

    /// Insert `ch` at the cursor and move the cursor after it.
    pub fn insert_composer_char(&mut self, ch: char)
        requires
            utf8_len(old(self).composer@) + 4 <= usize::MAX,
        ensures
            final(self).composer_drafts@ == old(self).composer_drafts@,
            final(self).composer@ == model_insert_char(old(self).composer@, old(self).cursor_char(), ch).0,
            final(self).cursor_at(model_insert_char(old(self).composer@, old(self).cursor_char(), ch).1),
    {
        let (v, offs, i) = self.locate();
        let mut t = string_from_range(&v, 0, i);
        push_char(&mut t, ch);
        let tail = string_from_range(&v, i, v.len());
        t.append(tail.as_str());
        proof {
            lemma_offset_total(v@, i as int);
            assert(v@.subrange(0, i as int) =~= v@.take(i as int));
            assert(v@.subrange(i as int, v@.len() as int) =~= v@.skip(i as int));
            let tt = t@;
            assert(tt.take(i + 1) =~= v@.take(i as int) + seq![ch]);
            lemma_utf8_len_concat(v@.take(i as int), seq![ch]);
            lemma_utf8_len_one(ch);
        }
        self.composer = t;
        self.composer_cursor = Some(offs[i] + char_len_utf8(ch));
    }

    /// Backspace: delete the character before the cursor (see
    /// [`model_delete_prev`]).
    pub fn delete_composer_prev_char(&mut self)
        requires
            old(self).fits(),
        ensures
            final(self).composer_drafts@ == old(self).composer_drafts@,
            final(self).composer@ == model_delete_prev(old(self).composer@, old(self).cursor_char()).0,
            final(self).cursor_at(model_delete_prev(old(self).composer@, old(self).cursor_char()).1),
    {
        let (v, offs, i) = self.locate();
        if i == 0 {
            proof { lemma_offset_zero(v@); }
            self.composer_cursor = Some(0);
            return;
        }
        let t = splice(&v, i - 1, i, "");
        proof {
            reveal_strlit("");
            assert(""@ =~= Seq::<char>::empty());
            let tt = t@;
            assert(tt.take(i - 1) =~= v@.take(i - 1));
        }
        self.composer = t;
        self.composer_cursor = Some(offs[i - 1]);
    }

    /// Delete the character after the cursor (see [`model_delete_next`]).
    pub fn delete_composer_next_char(&mut self)
        requires
            old(self).fits(),
        ensures
            final(self).composer_drafts@ == old(self).composer_drafts@,
            final(self).composer@ == model_delete_next(old(self).composer@, old(self).cursor_char()).0,
            final(self).cursor_at(model_delete_next(old(self).composer@, old(self).cursor_char()).1),
    {
        let (v, offs, i) = self.locate();
        if i == v.len() {
            self.composer_cursor = Some(offs[i]);
            return;
        }
        let t = splice(&v, i, i + 1, "");
        proof {
            reveal_strlit("");
            assert(""@ =~= Seq::<char>::empty());
            let tt = t@;
            assert(tt.take(i as int) =~= v@.take(i as int));
        }
        self.composer = t;
        self.composer_cursor = Some(offs[i]);
    }

    /// One character left (stays at the start).
    pub fn move_composer_cursor_left(&mut self)
        requires
            old(self).fits(),
        ensures
            final(self).composer_drafts@ == old(self).composer_drafts@,
            final(self).composer == old(self).composer,
            final(self).cursor_at(model_left(old(self).composer@, old(self).cursor_char())),
    {
        let (_v, offs, i) = self.locate();
        let k = if i > 0 { i - 1 } else { 0 };
        self.composer_cursor = Some(offs[k]);
    }

    /// One character right (stays at the end).
    pub fn move_composer_cursor_right(&mut self)
        requires
            old(self).fits(),
        ensures
            final(self).composer_drafts@ == old(self).composer_drafts@,
            final(self).composer == old(self).composer,
            final(self).cursor_at(model_right(old(self).composer@, old(self).cursor_char())),
    {
        let (v, offs, i) = self.locate();
        let k = if i < v.len() { i + 1 } else { v.len() };
        self.composer_cursor = Some(offs[k]);
    }

    /// To the start of the cursor's line.
    pub fn move_composer_cursor_line_start(&mut self)
        requires
            old(self).fits(),
        ensures
            final(self).composer_drafts@ == old(self).composer_drafts@,
            final(self).composer == old(self).composer,
            final(self).cursor_at(spec_line_start(old(self).composer@, old(self).cursor_char())),
    {
        let (v, offs, i) = self.locate();
        let k = line_start_index(&v, i);
        self.composer_cursor = Some(offs[k]);
    }

    /// To the end of the cursor's line.
    pub fn move_composer_cursor_line_end(&mut self)
        requires
            old(self).fits(),
        ensures
            final(self).composer_drafts@ == old(self).composer_drafts@,
            final(self).composer == old(self).composer,
            final(self).cursor_at(spec_line_end(old(self).composer@, old(self).cursor_char())),
    {
        let (v, offs, i) = self.locate();
        let k = line_end_index(&v, i);
        self.composer_cursor = Some(offs[k]);
    }

    /// To the start of the word before the cursor.
    pub fn move_composer_cursor_prev_word(&mut self)
        requires
            old(self).fits(),
        ensures
            final(self).composer_drafts@ == old(self).composer_drafts@,
            final(self).composer == old(self).composer,
            final(self).cursor_at(spec_prev_word(old(self).composer@, old(self).cursor_char())),
    {
        let (v, offs, i) = self.locate();
        let k = prev_word_index(&v, i);
        self.composer_cursor = Some(offs[k]);
    }

    /// To the end of the word after the cursor.
    pub fn move_composer_cursor_next_word(&mut self)
        requires
            old(self).fits(),
        ensures
            final(self).composer_drafts@ == old(self).composer_drafts@,
            final(self).composer == old(self).composer,
            final(self).cursor_at(spec_next_word(old(self).composer@, old(self).cursor_char())),
    {
        let (v, offs, i) = self.locate();
        let k = next_word_index(&v, i);
        self.composer_cursor = Some(offs[k]);
    }

    /// Delete from the start of the word before the cursor up to it.
    pub fn delete_composer_prev_word(&mut self)
        requires
            old(self).fits(),
        ensures
            final(self).composer_drafts@ == old(self).composer_drafts@,
            ({
                let s = old(self).composer@;
                let i = old(self).cursor_char();
                let w = spec_prev_word(s, i);
                &&& final(self).composer@ == s.take(w) + s.skip(i)
                &&& final(self).cursor_at(w)
            }),
    {
        let (v, offs, i) = self.locate();
        let w = prev_word_index(&v, i);
        let t = splice(&v, w, i, "");
        proof {
            reveal_strlit("");
            assert(""@ =~= Seq::<char>::empty());
            let tt = t@;
            assert(tt.take(w as int) =~= v@.take(w as int));
        }
        self.composer = t;
        self.composer_cursor = Some(offs[w]);
    }

    /// Delete from the cursor to the end of the word after it.
    pub fn delete_composer_next_word(&mut self)
        requires
            old(self).fits(),
        ensures
            final(self).composer_drafts@ == old(self).composer_drafts@,
            ({
                let s = old(self).composer@;
                let i = old(self).cursor_char();
                let e = spec_next_word(s, i);
                &&& final(self).composer@ == s.take(i) + s.skip(e)
                &&& final(self).cursor_at(i)
            }),
    {
        let (v, offs, i) = self.locate();
        let e = next_word_index(&v, i);
        let t = splice(&v, i, e, "");
        proof {
            reveal_strlit("");
            assert(""@ =~= Seq::<char>::empty());
            let tt = t@;
            assert(tt.take(i as int) =~= v@.take(i as int));
        }
        self.composer = t;
        self.composer_cursor = Some(offs[i]);
    }

    /// Delete from the cursor to the end of its line; the line break stays.
    pub fn kill_composer_to_line_end(&mut self)
        requires
            old(self).fits(),
        ensures
            final(self).composer_drafts@ == old(self).composer_drafts@,
            ({
                let s = old(self).composer@;
                let i = old(self).cursor_char();
                let e = spec_line_end(s, i);
                &&& final(self).composer@ == s.take(i) + s.skip(e)
                &&& final(self).cursor_at(i)
            }),
    {
        let (v, offs, i) = self.locate();
        let e = line_end_index(&v, i);
        let t = splice(&v, i, e, "");
        proof {
            reveal_strlit("");
            assert(""@ =~= Seq::<char>::empty());
            let tt = t@;
            assert(tt.take(i as int) =~= v@.take(i as int));
        }
        self.composer = t;
        self.composer_cursor = Some(offs[i]);
    }

    /// How the composer shows its text (see
    /// [`composer_presentation_for_text`]).
    pub fn composer_presentation(&self) -> (r: ComposerPresentation)
        ensures
            self.composer@.len() == 0 ==> r is Empty,
            self.composer@.len() > 0 && !should_collapse(self.composer@) ==> r is Inline && r->Inline_0@
                == self.composer@,
            self.composer@.len() > 0 && should_collapse(self.composer@) ==> r is Collapsed
                && r->Collapsed_0.summary@ == collapse_summary(self.composer@)
                && r->Collapsed_0.preview@ == collapse_preview(self.composer@),
    {
        composer_presentation_for_text(self.composer.as_str())
    }
}

// ---------------------------------------------------------------------
// Laws.

/// Typing a character and pressing backspace gives back the text and the
/// cursor.
pub proof fn law_insert_then_backspace_restores(s: Seq<char>, cursor: Option<usize>, c: char)
    requires
        utf8_len(s) + 4 <= usize::MAX,
    ensures
        ({
            let i = spec_cursor_char(s, cursor);
            let (t, j) = model_insert_char(s, i, c);
            let back = model_delete_prev(t, spec_cursor_char(t, Some(offset(t, j) as usize)));
            back == (s, i)
        }),
{
    let i = spec_cursor_char(s, cursor);
    lemma_cursor_char_bounds(s, cursor);
    let (t, j) = model_insert_char(s, i, c);
    assert(t =~= s.take(i) + seq![c] + s.skip(i));
    lemma_utf8_len_concat(s.take(i) + seq![c], s.skip(i));
    lemma_utf8_len_concat(s.take(i), seq![c]);
    lemma_utf8_len_one(c);
    assert(s =~= s.take(i) + s.skip(i));
    lemma_utf8_len_concat(s.take(i), s.skip(i));
    law_boundary_cursor_is_kept(t, j);
    assert(t.take(i) + t.skip(i + 1) =~= s);
}

/// Typing a character at the cursor keeps every other character.
pub proof fn law_insert_keeps_the_rest(s: Seq<char>, i: int, c: char)
    requires
        0 <= i <= s.len(),
    ensures
        model_insert_char(s, i, c).0.len() == s.len() + 1,
        model_insert_char(s, i, c).0[i] == c,
        forall|k: int| 0 <= k < i ==> model_insert_char(s, i, c).0[k] == s[k],
        forall|k: int| i <= k < s.len() ==> model_insert_char(s, i, c).0[k + 1] == s[k],
{
}

/// Left then right returns to the same place, away from the start.
pub proof fn law_left_then_right_returns(s: Seq<char>, i: int)
    requires
        0 < i <= s.len(),
    ensures
        model_right(s, model_left(s, i)) == i,
{
}

/// Deleting forward at the cursor, then typing the deleted character,
/// gives back the text.
pub proof fn law_delete_next_then_insert_restores(s: Seq<char>, i: int)
    requires
        0 <= i < s.len(),
    ensures
        model_insert_char(model_delete_next(s, i).0, model_delete_next(s, i).1, s[i]).0 == s,
{
    let t = model_delete_next(s, i).0;
    assert(t.take(i).push(s[i]) + t.skip(i) =~= s);
}

/// Killing to the end of the line keeps the line break that ends it.
pub proof fn law_kill_keeps_line_break(s: Seq<char>, i: int)
    requires
        0 <= i <= s.len(),
    ensures
        spec_line_end(s, i) < s.len() ==> s[spec_line_end(s, i)] == '\n',
        forall|k: int| i <= k < spec_line_end(s, i) ==> s[k] != '\n',
        i <= spec_line_end(s, i) <= s.len(),
    decreases s.len() - i,
{
    if i < s.len() && s[i] != '\n' {
        law_kill_keeps_line_break(s, i + 1);
    }
}

} // verus!
