//! Plan extraction from assistant text: numbered, bulleted and checkbox
//! step lists under a plan heading.

use vstd::prelude::*;
use crate::json::str_eq;
use crate::model::optimistic::{ChatMessage, ChatSession, msgs_view, msg_view};
use crate::text::{ascii_lower, trim_end, is_ws, char_is_whitespace, string_from_chars, push_char, str_chars, lemma_trim_idempotent, first_index_of, trim, trim_start, trim_start_by, trim_end_by, ascii_lower_seq, find_char_in, trim_bounds, skip_ws_forward, string_from_range, lower_range, vec_eq_str};

verus! {

/// One step of an extracted plan.
#[derive(Debug, Clone, PartialEq, Eq)]
pub struct PlanStep {
    pub text: String,
    pub completed: bool,
}

impl PlanStep {
    pub open spec fn view(&self) -> (Seq<char>, bool) {
        (self.text@, self.completed)
    }
}

/// `[x] `, `[X] ` or `[ ] ` at the start of `line`: whether it is
/// checked, and the text after it (leading whitespace dropped).
pub open spec fn spec_strip_checkbox(line: Seq<char>) -> Option<(bool, Seq<char>)> {
    if line.len() > 0 && line[0] == '[' {
        let rest = line.drop_first();
        let j = first_index_of(rest, ']');
        if j < rest.len() {
            let marker = trim(rest.take(j as int));
            let after = trim_start(rest.skip(j as int + 1));
            if marker == seq!['x'] || marker == seq!['X'] {
                Some((true, after))
            } else if marker.len() == 0 {
                Some((false, after))
            } else {
                None
            }
        } else {
            None
        }
    } else {
        None
    }
}

/// `- `, `* ` or `+ ` at the start of `line`, and the text after it.
pub open spec fn spec_strip_bullet(line: Seq<char>) -> Option<Seq<char>> {
    if line.len() >= 2 && (line[0] == '-' || line[0] == '*' || line[0] == '+') && line[1] == ' ' {
        Some(line.skip(2))
    } else {
        None
    }
}

pub open spec fn is_dot_or_paren(c: char) -> bool {
    c == '.' || c == ')'
}

/// Index of the first `.` or `)`, or `s.len()`.
pub open spec fn first_dot_or_paren(s: Seq<char>) -> nat
    decreases s.len(),
{
    if s.len() == 0 {
        0
    } else if is_dot_or_paren(s[0]) {
        0
    } else {
        1 + first_dot_or_paren(s.drop_first())
    }
}

pub open spec fn is_ascii_digit(c: char) -> bool {
    '0' <= c && c <= '9'
}

/// `1.`, `12)` ... (one to three ASCII digits then `.` or `)`) at the
/// start of `line`, and the non-empty text after it.
pub open spec fn spec_strip_number(line: Seq<char>) -> Option<Seq<char>> {
    let k = first_dot_or_paren(line);
    if k < line.len() && 1 <= k <= 3 && (forall|i: int| 0 <= i < k ==> is_ascii_digit(#[trigger] line[i])) {
        let rest = trim_start(line.skip(k as int + 1));
        if rest.len() > 0 {
            Some(rest)
        } else {
            None
        }
    } else {
        None
    }
}

/// Marker flags while scanning a line: completion of the last checkbox,
/// and whether any marker, number, checkbox or plain bullet was seen.
pub struct MarkerFlags {
    pub completed: Option<bool>,
    pub saw_marker: bool,
    pub saw_number: bool,
    pub saw_checkbox: bool,
    pub saw_plain_bullet: bool,
}

pub open spec fn no_flags() -> MarkerFlags {
    MarkerFlags { completed: None, saw_marker: false, saw_number: false, saw_checkbox: false, saw_plain_bullet: false }
}

/// Strips up to `k` leading list markers (checkbox, bullet, number) from
/// `rest`, recording what was seen.
pub open spec fn marker_scan(rest: Seq<char>, k: nat, f: MarkerFlags) -> (Seq<char>, MarkerFlags)
    decreases k,
{
    if k == 0 {
        (rest, f)
    } else {
        let r = trim_start(rest);
        match spec_strip_checkbox(r) {
            Some((c, next)) => marker_scan(next, (k - 1) as nat, MarkerFlags {
                completed: Some(c), saw_marker: true, saw_checkbox: true, ..f }),
            None => match spec_strip_bullet(r) {
                Some(next) => marker_scan(next, (k - 1) as nat, MarkerFlags {
                    saw_marker: true, saw_plain_bullet: true, ..f }),
                None => match spec_strip_number(r) {
                    Some(next) => marker_scan(next, (k - 1) as nat, MarkerFlags {
                        saw_marker: true, saw_number: true, ..f }),
                    None => (r, f),
                },
            },
        }
    }
}

pub open spec fn is_step_punct(c: char) -> bool {
    c == '.' || c == ')' || c == ' '
}

pub open spec fn step_punct() -> spec_fn(char) -> bool {
    |c: char| is_step_punct(c)
}

pub open spec fn hash_char() -> spec_fn(char) -> bool {
    |c: char| c == '#'
}

pub open spec fn colon_char() -> spec_fn(char) -> bool {
    |c: char| c == ':'
}

/// The plan step a single line describes, if any. A plain bullet only
/// counts inside a plan; step text is 1..=160 characters.
pub open spec fn spec_plan_step_from_line(line: Seq<char>, in_plan: bool) -> Option<(Seq<char>, bool)> {
    let (rest, f) = marker_scan(trim(line), 6, no_flags());
    if !f.saw_marker {
        None
    } else if f.saw_plain_bullet && !f.saw_checkbox && !f.saw_number && !in_plan {
        None
    } else {
        let text = trim(trim_start_by(rest, step_punct()));
        if text.len() == 0 || text.len() > 160 {
            None
        } else {
            Some((text, match f.completed { Some(c) => c, None => false }))
        }
    }
}

/// Whether some checkbox follows at most six leading list markers.
pub open spec fn checkbox_scan(rest: Seq<char>, k: nat) -> bool
    decreases k,
{
    if k == 0 {
        false
    } else {
        let r = trim_start(rest);
        if spec_strip_checkbox(r) is Some {
            true
        } else {
            match spec_strip_bullet(r) {
                Some(next) => checkbox_scan(next, (k - 1) as nat),
                None => match spec_strip_number(r) {
                    Some(next) => checkbox_scan(next, (k - 1) as nat),
                    None => false,
                },
            }
        }
    }
}

pub open spec fn spec_line_has_checkbox_marker(line: Seq<char>) -> bool {
    checkbox_scan(trim(line), 6)
}

/// Heading text that opens a plan (`Plan:`, `## Next steps`, ...).
pub open spec fn spec_is_plan_heading(line: Seq<char>) -> bool {
    let h = ascii_lower_seq(trim(trim_end_by(trim(trim_start_by(line, hash_char())), colon_char())));
    h == "plan"@ || h == "steps"@ || h == "next steps"@ || h == "implementation plan"@
        || h == "task plan"@ || h == "todo"@ || h == "checklist"@
}

/// `n` copies of `c`.
pub open spec fn repeated(c: char, n: nat) -> Seq<char> {
    Seq::new(n, |i: int| c)
}

proof fn lemma_drop_repeated_by(c: char, n: nat, x: Seq<char>, f: spec_fn(char) -> bool)
    requires
        f(c),
        x.len() > 0 && !f(x[0]),
    ensures
        trim_start_by(repeated(c, n) + x, f) == x,
    decreases n,
{
    if n > 0 {
        assert((repeated(c, n) + x).drop_first() =~= repeated(c, (n - 1) as nat) + x);
        lemma_drop_repeated_by(c, (n - 1) as nat, x, f);
    } else {
        assert(repeated(c, n) + x =~= x);
    }
}

proof fn lemma_drop_spaces(n: nat, x: Seq<char>)
    requires
        x.len() > 0 && !is_ws(x[0]),
    ensures
        trim_start(repeated(' ', n) + x) == x,
    decreases n,
{
    if n > 0 {
        assert((repeated(' ', n) + x)[0] == ' ');
        assert((repeated(' ', n) + x).drop_first() =~= repeated(' ', (n - 1) as nat) + x);
        lemma_drop_spaces((n - 1) as nat, x);
    } else {
        assert(repeated(' ', n) + x =~= x);
    }
}

/// A character whose ASCII lowercase is a lowercase ASCII letter is an
/// ASCII letter: not whitespace, `#` or `:`.
proof fn lemma_letter(c: char)
    requires
        'a' <= ascii_lower(c) <= 'z',
    ensures
        !is_ws(c) && c != '#' && c != ':',
{
}

/// Each of the headings `plan`, `steps`, `next steps`, `implementation
/// plan`, `task plan`, `todo` and `checklist` opens a plan, in any letter
/// case, after any number of `#` marks and spaces, with or without a
/// trailing colon.
pub proof fn law_plan_headings(hashes: nat, spaces: nat, word: Seq<char>, colon: bool)
    requires
        ascii_lower_seq(word) == "plan"@ || ascii_lower_seq(word) == "steps"@
            || ascii_lower_seq(word) == "next steps"@ || ascii_lower_seq(word) == "implementation plan"@
            || ascii_lower_seq(word) == "task plan"@ || ascii_lower_seq(word) == "todo"@
            || ascii_lower_seq(word) == "checklist"@,
    ensures
        spec_is_plan_heading(repeated('#', hashes) + repeated(' ', spaces) + word + (if colon {
            seq![':']
        } else {
            Seq::empty()
        })),
{
    reveal_strlit("plan");
    reveal_strlit("steps");
    reveal_strlit("next steps");
    reveal_strlit("implementation plan");
    reveal_strlit("task plan");
    reveal_strlit("todo");
    reveal_strlit("checklist");
    let l = ascii_lower_seq(word);
    assert(word.len() == l.len());
    assert(word.len() > 0);
    assert(l[0] == ascii_lower(word[0]));
    assert(l[l.len() - 1] == ascii_lower(word[word.len() - 1]));
    lemma_letter(word[0]);
    lemma_letter(word[word.len() - 1]);
    let c: Seq<char> = if colon { seq![':'] } else { Seq::empty() };
    let wc = word + c;
    let x = repeated(' ', spaces) + wc;
    let line = repeated('#', hashes) + repeated(' ', spaces) + word + c;
    assert(line =~= repeated('#', hashes) + x);
    assert(x.len() > 0 && x[0] != '#') by {
        if spaces > 0 {
            assert(x[0] == ' ');
        } else {
            assert(x[0] == word[0]);
        }
    }
    lemma_drop_repeated_by('#', hashes, x, hash_char());
    assert(wc[0] == word[0]);
    lemma_drop_spaces(spaces, wc);
    assert(trim_start(x) == wc);
    assert(!is_ws(wc.last())) by {
        if colon {
            assert(wc.last() == ':');
        } else {
            assert(wc.last() == word.last());
        }
    }
    assert(trim(x) == wc);
    assert(trim_end_by(wc, colon_char()) == word) by {
        let f = colon_char();
        assert(!f(word.last()));
        assert(trim_end_by(word, f) == word);
        if colon {
            assert(wc.drop_last() =~= word);
            assert(f(wc.last()));
        } else {
            assert(wc =~= word);
        }
    }
    assert(trim_start(word) == word);
    assert(trim_end(word) == word);
    assert(trim(word) == word);
}

/// Inside a plan, a plain bullet `- ` followed by a step text that starts
/// with a letter and ends in no whitespace, at most 160 characters long,
/// is an open step with that text.
pub proof fn law_plan_bullet_is_step(x: Seq<char>)
    requires
        1 <= x.len() <= 160,
        'a' <= ascii_lower(x[0]) <= 'z',
        !is_ws(x.last()),
    ensures
        spec_plan_step_from_line("- "@ + x, true) == Some((x, false)),
{
    reveal_strlit("- ");
    let line = "- "@ + x;
    assert(line[0] == '-' && line[1] == ' ');
    assert(line.last() == x.last());
    assert(trim_start(line) == line);
    assert(trim_end(line) == line);
    assert(trim(line) == line);
    assert(!is_ws(x[0]) && x[0] != '[' && x[0] != '-' && x[0] != '*' && x[0] != '+');
    assert(!is_ascii_digit(x[0]) && !is_step_punct(x[0]));
    assert(spec_strip_checkbox(line) is None);
    assert(line.skip(2) =~= x);
    assert(spec_strip_bullet(line) == Some(x));
    assert(trim_start(x) == x);
    assert(spec_strip_checkbox(x) is None);
    assert(spec_strip_bullet(x) is None);
    assert(spec_strip_number(x) is None) by {
        let k = first_dot_or_paren(x);
        if k < x.len() && 1 <= k <= 3 {
            assert(!is_ascii_digit(x[0]));
        }
    }
    let f = MarkerFlags { saw_marker: true, saw_plain_bullet: true, ..no_flags() };
    assert(marker_scan(x, 5, f) == (x, f));
    assert(marker_scan(line, 6, no_flags()) == (x, f));
    assert(trim_start_by(x, step_punct()) == x) by {
        assert(!step_punct()(x[0]));
    }
    assert(trim_end(x) == x);
    assert(trim(x) == x);
}

fn strip_checkbox(v: &Vec<char>, lo: usize, hi: usize) -> (r: Option<(bool, usize)>)
    requires
        lo <= hi <= v.len(),
    ensures
        match (r, spec_strip_checkbox(v@.subrange(lo as int, hi as int))) {
            (Some((c, start)), Some((c2, after))) => c == c2 && lo <= start <= hi && after == v@.subrange(start as int, hi as int),
            (None, None) => true,
            _ => false,
        },
{
    let ghost line = v@.subrange(lo as int, hi as int);
    if lo == hi || v[lo] != '[' {
        return None;
    }
    let ghost rest = line.drop_first();
    assert(rest =~= v@.subrange(lo + 1, hi as int));
    let j = find_char_in(v, lo + 1, hi, ']');
    if j == hi {
        return None;
    }
    assert(rest.take(j - lo - 1) =~= v@.subrange(lo + 1, j as int));
    assert(rest.skip(j - lo) =~= v@.subrange(j + 1, hi as int));
    let (ma, mb) = trim_bounds(v, lo + 1, j);
    let after = skip_ws_forward(v, j + 1, hi);
    proof { reveal_strlit("x"); reveal_strlit("X"); }
    if mb - ma == 1 && (v[ma] == 'x' || v[ma] == 'X') {
        assert(v@.subrange(ma as int, mb as int) =~= seq![v@[ma as int]]);
        Some((true, after))
    } else if mb == ma {
        assert(v@.subrange(ma as int, mb as int).len() == 0);
        Some((false, after))
    } else {
        let ghost m = v@.subrange(ma as int, mb as int);
        assert(seq!['x'].len() == 1 && seq!['x'][0] == 'x');
        assert(seq!['X'].len() == 1 && seq!['X'][0] == 'X');
        if mb - ma == 1 {
            assert(m[0] == v@[ma as int]);
        }
        assert(m != seq!['x']);
        assert(m != seq!['X']);
        None
    }
}

fn strip_bullet(v: &Vec<char>, lo: usize, hi: usize) -> (r: Option<usize>)
    requires
        lo <= hi <= v.len(),
    ensures
        match (r, spec_strip_bullet(v@.subrange(lo as int, hi as int))) {
            (Some(start), Some(after)) => lo <= start <= hi && after == v@.subrange(start as int, hi as int),
            (None, None) => true,
            _ => false,
        },
{
    if hi - lo >= 2 && (v[lo] == '-' || v[lo] == '*' || v[lo] == '+') && v[lo + 1] == ' ' {
        assert(v@.subrange(lo as int, hi as int).skip(2) =~= v@.subrange(lo + 2, hi as int));
        Some(lo + 2)
    } else {
        None
    }
}

fn strip_number(v: &Vec<char>, lo: usize, hi: usize) -> (r: Option<usize>)
    requires
        lo <= hi <= v.len(),
    ensures
        match (r, spec_strip_number(v@.subrange(lo as int, hi as int))) {
            (Some(start), Some(after)) => lo <= start <= hi && after == v@.subrange(start as int, hi as int),
            (None, None) => true,
            _ => false,
        },
{
    let ghost line = v@.subrange(lo as int, hi as int);
    let mut k = lo;
    while k < hi && !(v[k] == '.' || v[k] == ')')
        invariant
            lo <= k <= hi <= v.len(),
            first_dot_or_paren(line) == (k - lo) + first_dot_or_paren(v@.subrange(k as int, hi as int)),
        decreases hi - k,
    {
        assert(v@.subrange(k as int, hi as int).drop_first() =~= v@.subrange(k + 1, hi as int));
        k += 1;
    }
    if k == hi || k == lo || k - lo > 3 {
        return None;
    }
    let mut d = lo;
    while d < k
        invariant
            lo <= d <= k < hi <= v.len(),
            line == v@.subrange(lo as int, hi as int),
            first_dot_or_paren(line) == k - lo,
            forall|i: int| 0 <= i < d - lo ==> is_ascii_digit(#[trigger] line[i]),
        decreases k - d,
    {
        assert(line[d - lo] == v@[d as int]);
        if !('0' <= v[d] && v[d] <= '9') {
            assert(!is_ascii_digit(line[d - lo]));
            return None;
        }
        d += 1;
    }
    assert(line.skip(k - lo + 1) =~= v@.subrange(k + 1, hi as int));
    let start = skip_ws_forward(v, k + 1, hi);
    if start == hi {
        None
    } else {
        Some(start)
    }
}

fn marker_scan_exec(v: &Vec<char>, lo: usize, hi: usize) -> (r: (usize, Option<bool>, bool, bool, bool, bool))
    requires
        lo <= hi <= v.len(),
    ensures
        lo <= r.0 <= hi,
        ({
            let (rest, f) = marker_scan(v@.subrange(lo as int, hi as int), 6, no_flags());
            &&& rest == v@.subrange(r.0 as int, hi as int)
            &&& f.completed == r.1
            &&& f.saw_marker == r.2
            &&& f.saw_number == r.3
            &&& f.saw_checkbox == r.4
            &&& f.saw_plain_bullet == r.5
        }),
{
    let mut cur = lo;
    let mut completed: Option<bool> = None;
    let mut saw_marker = false;
    let mut saw_number = false;
    let mut saw_checkbox = false;
    let mut saw_plain_bullet = false;
    let mut k: usize = 6;
    while k > 0
        invariant_except_break
            lo <= cur <= hi <= v.len(),
            k <= 6,
            marker_scan(v@.subrange(lo as int, hi as int), 6, no_flags())
                == marker_scan(v@.subrange(cur as int, hi as int), k as nat, MarkerFlags {
                    completed, saw_marker, saw_number, saw_checkbox, saw_plain_bullet }),
        ensures
            lo <= cur <= hi <= v.len(),
            marker_scan(v@.subrange(lo as int, hi as int), 6, no_flags())
                == (v@.subrange(cur as int, hi as int), MarkerFlags {
                    completed, saw_marker, saw_number, saw_checkbox, saw_plain_bullet }),
        decreases k,
    {
        let r = skip_ws_forward(v, cur, hi);
        if let Some((c, next)) = strip_checkbox(v, r, hi) {
            completed = Some(c);
            saw_marker = true;
            saw_checkbox = true;
            cur = next;
            k -= 1;
            continue;
        }
        if let Some(next) = strip_bullet(v, r, hi) {
            saw_marker = true;
            saw_plain_bullet = true;
            cur = next;
            k -= 1;
            continue;
        }
        if let Some(next) = strip_number(v, r, hi) {
            saw_marker = true;
            saw_number = true;
            cur = next;
            k -= 1;
            continue;
        }
        cur = r;
        break;
    }
    (cur, completed, saw_marker, saw_number, saw_checkbox, saw_plain_bullet)
}

/// The plan step described by the line `v[lo..hi]`, if any.
fn plan_step_from_line(v: &Vec<char>, lo: usize, hi: usize, in_plan: bool) -> (r: Option<PlanStep>)
    requires
        lo <= hi <= v.len(),
    ensures
        match (r, spec_plan_step_from_line(v@.subrange(lo as int, hi as int), in_plan)) {
            (Some(step), Some(s)) => step@ == s,
            (None, None) => true,
            _ => false,
        },
{
    let (a, b) = trim_bounds(v, lo, hi);
    let (rest, completed, saw_marker, saw_number, saw_checkbox, saw_plain_bullet) = marker_scan_exec(v, a, b);
    if !saw_marker {
        return None;
    }
    if saw_plain_bullet && !saw_checkbox && !saw_number && !in_plan {
        return None;
    }
    let ghost f = step_punct();
    let mut p = rest;
    while p < b && (v[p] == '.' || v[p] == ')' || v[p] == ' ')
        invariant
            rest <= p <= b <= v.len(),
            f == step_punct(),
            trim_start_by(v@.subrange(rest as int, b as int), f) == trim_start_by(v@.subrange(p as int, b as int), f),
        decreases b - p,
    {
        assert(v@.subrange(p as int, b as int).drop_first() =~= v@.subrange(p + 1, b as int));
        assert(v@.subrange(p as int, b as int)[0] == v@[p as int]);
        assert(f(v@[p as int]));
        p += 1;
    }
    assert(trim_start_by(v@.subrange(p as int, b as int), f) == v@.subrange(p as int, b as int));
    let (ta, tb) = trim_bounds(v, p, b);
    if ta == tb || tb - ta > 160 {
        return None;
    }
    let text = string_from_range(v, ta, tb);
    Some(PlanStep {
        text,
        completed: match completed { Some(c) => c, None => false },
    })
}

fn line_has_checkbox_marker(v: &Vec<char>, lo: usize, hi: usize) -> (r: bool)
    requires
        lo <= hi <= v.len(),
    ensures
        r == spec_line_has_checkbox_marker(v@.subrange(lo as int, hi as int)),
{
    let (a, b) = trim_bounds(v, lo, hi);
    let mut cur = a;
    let mut k: usize = 6;
    while k > 0
        invariant
            a <= cur <= b <= v.len(),
            k <= 6,
            v@.subrange(a as int, b as int) == trim(v@.subrange(lo as int, hi as int)),
            checkbox_scan(v@.subrange(a as int, b as int), 6) == checkbox_scan(v@.subrange(cur as int, b as int), k as nat),
        decreases k,
    {
        let r = skip_ws_forward(v, cur, b);
        if strip_checkbox(v, r, b).is_some() {
            assert(checkbox_scan(v@.subrange(cur as int, b as int), k as nat));
            return true;
        }
        if let Some(next) = strip_bullet(v, r, b) {
            cur = next;
            k -= 1;
            continue;
        }
        if let Some(next) = strip_number(v, r, b) {
            cur = next;
            k -= 1;
            continue;
        }
        assert(!checkbox_scan(v@.subrange(cur as int, b as int), k as nat));
        return false;
    }
    false
}

fn is_plan_heading(v: &Vec<char>, lo: usize, hi: usize) -> (r: bool)
    requires
        lo <= hi <= v.len(),
    ensures
        r == spec_is_plan_heading(v@.subrange(lo as int, hi as int)),
{
    let ghost hash = hash_char();
    let ghost colon = colon_char();
    let mut a = lo;
    while a < hi && v[a] == '#'
        invariant
            lo <= a <= hi <= v.len(),
            hash == hash_char(),
            trim_start_by(v@.subrange(lo as int, hi as int), hash) == trim_start_by(v@.subrange(a as int, hi as int), hash),
        decreases hi - a,
    {
        assert(v@.subrange(a as int, hi as int).drop_first() =~= v@.subrange(a + 1, hi as int));
        assert(v@.subrange(a as int, hi as int)[0] == v@[a as int]);
        assert(hash(v@[a as int]));
        a += 1;
    }
    assert(trim_start_by(v@.subrange(a as int, hi as int), hash) == v@.subrange(a as int, hi as int));
    let (b1, b2) = trim_bounds(v, a, hi);
    let mut e = b2;
    while e > b1 && v[e - 1] == ':'
        invariant
            b1 <= e <= b2 <= v.len(),
            colon == colon_char(),
            trim_end_by(v@.subrange(b1 as int, b2 as int), colon) == trim_end_by(v@.subrange(b1 as int, e as int), colon),
        decreases e - b1,
    {
        assert(v@.subrange(b1 as int, e as int).drop_last() =~= v@.subrange(b1 as int, e - 1));
        assert(v@.subrange(b1 as int, e as int).last() == v@[e - 1]);
        assert(colon(v@[e - 1]));
        e -= 1;
    }
    assert(trim_end_by(v@.subrange(b1 as int, e as int), colon) == v@.subrange(b1 as int, e as int));
    let (c1, c2) = trim_bounds(v, b1, e);
    let h = lower_range(v, c1, c2);
    vec_eq_str(&h, "plan") || vec_eq_str(&h, "steps") || vec_eq_str(&h, "next steps")
        || vec_eq_str(&h, "implementation plan") || vec_eq_str(&h, "task plan")
        || vec_eq_str(&h, "todo") || vec_eq_str(&h, "checklist")
}


pub open spec fn strip_cr(l: Seq<char>) -> Seq<char> {
    if l.len() > 0 && l.last() == '\r' {
        l.drop_last()
    } else {
        l
    }
}

/// The first line of `s` (as `str::lines` yields it) and whether a line
/// break follows it.
pub open spec fn first_line(s: Seq<char>) -> (Seq<char>, bool) {
    let i = first_index_of(s, '\n');
    if i < s.len() {
        (strip_cr(s.take(i as int)), true)
    } else {
        (s, false)
    }
}

pub open spec fn after_first_line(s: Seq<char>) -> Seq<char> {
    s.skip(first_index_of(s, '\n') as int + 1)
}

pub open spec fn starts_with_fence(t: Seq<char>) -> bool {
    t.len() >= 3 && t[0] == '`' && t[1] == '`' && t[2] == '`'
}

/// One line of plan extraction: whether to stop, and the next
/// `(in_plan, in_code_fence, steps)` state.
pub open spec fn plan_line(line: Seq<char>, in_plan: bool, in_fence: bool, steps: Seq<(Seq<char>, bool)>) -> (bool, bool, bool, Seq<(Seq<char>, bool)>) {
    let t = trim(line);
    if starts_with_fence(t) {
        (false, in_plan, !in_fence, steps)
    } else if in_fence {
        (false, in_plan, in_fence, steps)
    } else if t.len() == 0 {
        (in_plan && steps.len() > 0, in_plan, in_fence, steps)
    } else if spec_is_plan_heading(t) {
        (false, true, in_fence, steps)
    } else {
        let cb = spec_line_has_checkbox_marker(t);
        if !in_plan && !cb {
            (false, in_plan, in_fence, steps)
        } else {
            match spec_plan_step_from_line(t, in_plan || cb) {
                Some(step) => (false, true, in_fence, steps.push(step)),
                None => (in_plan && steps.len() > 0, in_plan, in_fence, steps),
            }
        }
    }
}

/// Plan extraction over the remaining text `s`.
pub open spec fn plan_scan(s: Seq<char>, in_plan: bool, in_fence: bool, steps: Seq<(Seq<char>, bool)>) -> Seq<(Seq<char>, bool)>
    decreases s.len(),
{
    if s.len() == 0 {
        steps
    } else {
        let (line, more) = first_line(s);
        let (stop, ip, f, st) = plan_line(line, in_plan, in_fence, steps);
        if stop || !more || first_index_of(s, '\n') >= s.len() {
            st
        } else {
            plan_scan(after_first_line(s), ip, f, st)
        }
    }
}

/// The first plan in `text`: steps under a plan heading, or checkbox
/// items anywhere, outside code fences, up to the first gap.
pub open spec fn spec_plan_steps_from_text(text: Seq<char>) -> Option<Seq<(Seq<char>, bool)>> {
    let st = plan_scan(text, false, false, Seq::empty());
    if st.len() > 0 { Some(st) } else { None }
}

pub open spec fn steps_view(v: Seq<PlanStep>) -> Seq<(Seq<char>, bool)> {
    v.map_values(|p: PlanStep| p@)
}

/// End of the line that starts at `pos` (the next `\n`, or `n`), and the
/// end of its content once a `\r` before the `\n` is dropped.
pub(crate) fn line_bounds(v: &Vec<char>, pos: usize) -> (r: (usize, usize))
    requires
        pos <= v.len(),
    ensures
        pos <= r.1 <= r.0 <= v.len(),
        r.0 - pos == first_index_of(v@.skip(pos as int), '\n'),
        first_line(v@.skip(pos as int)).0 == v@.subrange(pos as int, r.1 as int),
        first_line(v@.skip(pos as int)).1 == (r.0 < v.len()),
        r.0 < v.len() ==> after_first_line(v@.skip(pos as int)) == v@.skip(r.0 + 1),
{
    let n = v.len();
    let e = find_char_in(v, pos, n, '\n');
    assert(v@.subrange(pos as int, n as int) =~= v@.skip(pos as int));
    if e < n {
        assert(v@.skip(pos as int).take(e - pos) =~= v@.subrange(pos as int, e as int));
        assert(v@.skip(pos as int).skip(e - pos + 1) =~= v@.skip(e + 1));
        if e > pos && v[e - 1] == '\r' {
            assert(v@.subrange(pos as int, e as int).drop_last() =~= v@.subrange(pos as int, e - 1));
            (e, e - 1)
        } else {
            (e, e)
        }
    } else {
        (e, e)
    }
}

/// Extract the first plan from `text` (see [`spec_plan_steps_from_text`]).
pub fn plan_steps_from_text(text: &str) -> (r: Option<Vec<PlanStep>>)
    ensures
        match (r, spec_plan_steps_from_text(text@)) {
            (Some(steps), Some(s)) => steps_view(steps@) == s,
            (None, None) => true,
            _ => false,
        },
{
    let v = str_chars(text);
    let n = v.len();
    let mut pos: usize = 0;
    let mut in_plan = false;
    let mut in_fence = false;
    let mut steps: Vec<PlanStep> = Vec::new();
    assert(v@.skip(0) =~= v@);
    assert(steps_view(steps@) =~= Seq::<(Seq<char>, bool)>::empty());
    while pos < n
        invariant_except_break
            n == v.len(),
            v@ == text@,
            pos <= n,
            plan_scan(v@, false, false, Seq::empty())
                == plan_scan(v@.skip(pos as int), in_plan, in_fence, steps_view(steps@)),
        ensures
            plan_scan(v@, false, false, Seq::empty()) == steps_view(steps@),
        decreases n - pos,
    {
        let ghost s = v@.skip(pos as int);
        let ghost old_steps = steps_view(steps@);
        let (e, ce) = line_bounds(&v, pos);
        let (a, b) = trim_bounds(&v, pos, ce);
        let ghost t = v@.subrange(a as int, b as int);
        let mut stop = false;
        if b - a >= 3 && v[a] == '`' && v[a + 1] == '`' && v[a + 2] == '`' {
            in_fence = !in_fence;
        } else if in_fence {
        } else if a == b {
            stop = in_plan && steps.len() > 0;
        } else if is_plan_heading(&v, a, b) {
            in_plan = true;
        } else {
            let cb = line_has_checkbox_marker(&v, a, b);
            assert(v@.subrange(a as int, b as int) == trim(t)) by {
                lemma_trim_idempotent(v@.subrange(pos as int, ce as int));
            }
            if !in_plan && !cb {
            } else {
                match plan_step_from_line(&v, a, b, in_plan || cb) {
                    Some(step) => {
                        let ghost sv = step@;
                        steps.push(step);
                        assert(steps_view(steps@) =~= old_steps.push(sv));
                        in_plan = true;
                    },
                    None => {
                        stop = in_plan && steps.len() > 0;
                    },
                }
            }
        }
        if stop || e == n {
            assert(plan_scan(s, false, false, Seq::empty()) == plan_scan(s, false, false, Seq::empty()));
            break;
        }
        pos = e + 1;
    }
    assert(v@.skip(n as int).len() == 0);
    if steps.len() > 0 {
        Some(steps)
    } else {
        None
    }
}


/// Lines joined with `\n` between them.
pub open spec fn join_lines(ls: Seq<Seq<char>>) -> Seq<char>
    decreases ls.len(),
{
    if ls.len() == 0 {
        Seq::empty()
    } else if ls.len() == 1 {
        ls[0]
    } else {
        join_lines(ls.drop_last()) + seq!['\n'] + ls.last()
    }
}

/// The rewritten line for a completed step: its own indentation, then
/// `- [x] ` and the step text.
pub open spec fn completed_line(line: Seq<char>, text: Seq<char>) -> Seq<char> {
    line.take(line.len() - trim_start(line).len()) + "- [x] "@ + text
}

/// Rewrites the remaining text `s` line by line, marking every plan
/// step as done; returns whether any line changed and the output lines.
pub open spec fn complete_scan(s: Seq<char>, in_plan: bool, completed_any: bool, changed: bool, out: Seq<Seq<char>>) -> (bool, Seq<Seq<char>>)
    decreases s.len(),
{
    if s.len() == 0 {
        (changed, out)
    } else {
        let (line, more) = first_line(s);
        let t = trim(line);
        let (ip, ca, ch, o) = if t.len() == 0 {
            (if completed_any { false } else { in_plan }, completed_any, changed, out.push(line))
        } else if spec_is_plan_heading(t) {
            (true, completed_any, changed, out.push(line))
        } else {
            match spec_plan_step_from_line(t, in_plan) {
                Some(step) => (true, true, true, out.push(completed_line(line, step.0))),
                None => (if completed_any { false } else { in_plan }, completed_any, changed, out.push(line)),
            }
        };
        if !more || first_index_of(s, '\n') >= s.len() {
            (ch, o)
        } else {
            complete_scan(after_first_line(s), ip, ca, ch, o)
        }
    }
}

/// `text` with every recognised plan step rewritten as `- [x] <step>`;
/// unchanged when no line is a plan step.
pub open spec fn spec_complete_plan_steps(text: Seq<char>) -> Seq<char> {
    let (changed, out) = complete_scan(text, false, false, false, Seq::empty());
    if changed {
        join_lines(out) + (if text.len() > 0 && text.last() == '\n' { seq!['\n'] } else { Seq::empty() })
    } else {
        text
    }
}

/// The lines of `s`, as [`complete_scan`] walks them.
pub open spec fn text_lines(s: Seq<char>) -> Seq<Seq<char>>
    decreases s.len(),
{
    if s.len() == 0 {
        Seq::empty()
    } else {
        let (line, more) = first_line(s);
        if !more || first_index_of(s, '\n') >= s.len() {
            seq![line]
        } else {
            seq![line] + text_lines(after_first_line(s))
        }
    }
}

/// A line after completion: the line itself, or the line's indentation
/// followed by `- [x] ` and a step text.
pub open spec fn kept_or_completed(line: Seq<char>, out: Seq<char>) -> bool {
    out == line || exists|t: Seq<char>| out == #[trigger] completed_line(line, t)
}

proof fn lemma_complete_scan_lines(s: Seq<char>, ip: bool, ca: bool, ch: bool, out: Seq<Seq<char>>)
    ensures
        ({
            let r = complete_scan(s, ip, ca, ch, out).1;
            &&& r.len() == out.len() + text_lines(s).len()
            &&& r.take(out.len() as int) == out
            &&& forall|j: int| 0 <= j < text_lines(s).len() ==> kept_or_completed(
                #[trigger] text_lines(s)[j],
                r[out.len() + j],
            )
        }),
    decreases s.len(),
{
    if s.len() > 0 {
        let (line, more) = first_line(s);
        let t = trim(line);
        let (ip2, ca2, ch2, o) = if t.len() == 0 {
            (if ca { false } else { ip }, ca, ch, out.push(line))
        } else if spec_is_plan_heading(t) {
            (true, ca, ch, out.push(line))
        } else {
            match spec_plan_step_from_line(t, ip) {
                Some(step) => (true, true, true, out.push(completed_line(line, step.0))),
                None => (if ca { false } else { ip }, ca, ch, out.push(line)),
            }
        };
        assert(kept_or_completed(line, o.last()));
        if !more || first_index_of(s, '\n') >= s.len() {
            assert(o.take(out.len() as int) =~= out);
        } else {
            let rest = after_first_line(s);
            lemma_complete_scan_lines(rest, ip2, ca2, ch2, o);
            let r = complete_scan(s, ip, ca, ch, out).1;
            assert(r == complete_scan(rest, ip2, ca2, ch2, o).1);
            assert(r.take(o.len() as int) == o);
            assert(r.take(out.len() as int) =~= out) by {
                assert(o.take(out.len() as int) =~= out);
                assert forall|k: int| 0 <= k < out.len() implies r[k] == out[k] by {
                    assert(r.take(o.len() as int)[k] == o[k]);
                }
            }
            assert forall|j: int| 0 <= j < text_lines(s).len() implies kept_or_completed(
                #[trigger] text_lines(s)[j],
                r[out.len() + j],
            ) by {
                if j == 0 {
                    assert(text_lines(s)[0] == line);
                    assert(r[out.len() as int] == r.take(o.len() as int)[out.len() as int]);
                } else {
                    assert(text_lines(s)[j] == text_lines(rest)[j - 1]);
                    assert(out.len() + j == o.len() + (j - 1));
                }
            }
        }
    }
}

/// Completing the plan steps of a text keeps its lines one for one: each
/// line comes back as it was, or as its indentation followed by `- [x] `
/// and a step text; and a text in which no line is a plan step comes back
/// unchanged.
pub proof fn law_completion_keeps_lines(text: Seq<char>)
    ensures
        ({
            let (changed, out) = complete_scan(text, false, false, false, Seq::empty());
            &&& out.len() == text_lines(text).len()
            &&& forall|j: int| 0 <= j < out.len() ==> kept_or_completed(#[trigger] text_lines(text)[j], out[j])
            &&& !changed ==> spec_complete_plan_steps(text) == text
            &&& changed ==> spec_complete_plan_steps(text) == join_lines(out) + (if text.len() > 0
                && text.last() == '\n' { seq!['\n'] } else { Seq::empty() })
        }),
{
    lemma_complete_scan_lines(text, false, false, false, Seq::empty());
    let out = complete_scan(text, false, false, false, Seq::empty()).1;
    assert forall|j: int| 0 <= j < out.len() implies kept_or_completed(#[trigger] text_lines(text)[j], out[j]) by {
        assert(0 + j == j);
    }
}

fn append_range(out: &mut String, v: &Vec<char>, lo: usize, hi: usize)
    requires
        lo <= hi <= v.len(),
    ensures
        final(out)@ == old(out)@ + v@.subrange(lo as int, hi as int),
{
    let mut i = lo;
    while i < hi
        invariant
            lo <= i <= hi <= v.len(),
            out@ == old(out)@ + v@.subrange(lo as int, i as int),
        decreases hi - i,
    {
        push_char(out, v[i]);
        assert(v@.subrange(lo as int, i + 1) =~= v@.subrange(lo as int, i as int).push(v@[i as int]));
        assert(old(out)@ + v@.subrange(lo as int, i + 1) =~= (old(out)@ + v@.subrange(lo as int, i as int)).push(v@[i as int]));
        i += 1;
    }
}

/// Marks every plan step in `text` as completed (`- [x] <step>`), keeping
/// the indentation and every other line as it was.
pub fn complete_plan_steps_in_text(text: &str) -> (r: String)
    ensures
        r@ == spec_complete_plan_steps(text@),
{
    let v = str_chars(text);
    let n = v.len();
    let mut pos: usize = 0;
    let mut in_plan = false;
    let mut completed_any = false;
    let mut changed = false;
    let mut out = String::new();
    let ghost mut lines: Seq<Seq<char>> = Seq::empty();
    assert(v@.skip(0) =~= v@);
    while pos < n
        invariant_except_break
            n == v.len(),
            v@ == text@,
            pos <= n,
            (pos == 0) == (lines.len() == 0),
            out@ == join_lines(lines),
            complete_scan(v@, false, false, false, Seq::empty())
                == complete_scan(v@.skip(pos as int), in_plan, completed_any, changed, lines),
        ensures
            complete_scan(v@, false, false, false, Seq::empty()) == (changed, lines),
            out@ == join_lines(lines),
        decreases n - pos,
    {
        let ghost s = v@.skip(pos as int);
        let (e, ce) = line_bounds(&v, pos);
        let (a, b) = trim_bounds(&v, pos, ce);
        let ghost line = v@.subrange(pos as int, ce as int);
        let ghost old_lines = lines;
        if pos > 0 {
            push_char(&mut out, '\n');
        }
        let mut rewritten = false;
        if a == b {
            if completed_any {
                in_plan = false;
            }
        } else if is_plan_heading(&v, a, b) {
            in_plan = true;
        } else {
            match plan_step_from_line(&v, a, b, in_plan) {
                Some(step) => {
                    let ghost sv = step@;
                    let ind = skip_ws_forward(&v, pos, ce);
                    append_range(&mut out, &v, pos, ind);
                    out.append("- [x] ");
                    out.append(step.text.as_str());
                    proof {
                        assert(v@.subrange(pos as int, ind as int) =~= line.take(line.len() - trim_start(line).len()));
                        lines = lines.push(completed_line(line, sv.0));
                    }
                    changed = true;
                    completed_any = true;
                    in_plan = true;
                    rewritten = true;
                },
                None => {
                    if completed_any {
                        in_plan = false;
                    }
                },
            }
        }
        if !rewritten {
            append_range(&mut out, &v, pos, ce);
            proof { lines = lines.push(line); }
        }
        proof {
            if old_lines.len() > 0 {
                assert(lines.drop_last() =~= old_lines);
            } else {
                assert(lines.len() == 1);
            }
            assert(out@ =~= join_lines(lines));
        }
        if e == n {
            break;
        }
        pos = e + 1;
    }
    if changed {
        if n > 0 && v[n - 1] == '\n' {
            push_char(&mut out, '\n');
            assert(out@ =~= join_lines(lines) + seq!['\n']);
        } else {
            assert(out@ =~= join_lines(lines) + Seq::<char>::empty());
        }
        out
    } else {
        String::from_str(text)
    }
}


/// Index of the first whitespace character of `s`, or `s.len()`.
pub open spec fn first_ws(s: Seq<char>) -> nat
    decreases s.len(),
{
    if s.len() == 0 {
        0
    } else if is_ws(s[0]) {
        0
    } else {
        1 + first_ws(s.drop_first())
    }
}

/// `str::split_whitespace`: the maximal runs of non-whitespace.
pub open spec fn words(s: Seq<char>) -> Seq<Seq<char>>
    decreases s.len(),
{
    if s.len() == 0 {
        Seq::empty()
    } else if is_ws(s[0]) {
        words(s.drop_first())
    } else {
        let k = first_ws(s);
        if 1 <= k <= s.len() {
            seq![s.take(k as int)] + words(s.skip(k as int))
        } else {
            Seq::empty()
        }
    }
}

/// Pieces joined with single spaces.
pub open spec fn join_spaced(ws: Seq<Seq<char>>) -> Seq<char>
    decreases ws.len(),
{
    if ws.len() == 0 {
        Seq::empty()
    } else if ws.len() == 1 {
        ws[0]
    } else {
        ws[0] + seq![' '] + join_spaced(ws.drop_first())
    }
}

/// Whitespace-insensitive, ASCII-case-insensitive form of a step text.
pub open spec fn spec_normalize(s: Seq<char>) -> Seq<char> {
    ascii_lower_seq(join_spaced(words(s)))
}

proof fn lemma_first_ws(s: Seq<char>)
    ensures
        first_ws(s) <= s.len(),
        s.len() > 0 && !is_ws(s[0]) ==> first_ws(s) >= 1,
        forall|i: int| 0 <= i < first_ws(s) ==> !is_ws(s[i]),
        first_ws(s) < s.len() ==> is_ws(s[first_ws(s) as int]),
    decreases s.len(),
{
    if s.len() > 0 && !is_ws(s[0]) {
        lemma_first_ws(s.drop_first());
        assert forall|i: int| 0 <= i < first_ws(s) implies !is_ws(s[i]) by {
            if i > 0 {
                assert(s[i] == s.drop_first()[i - 1]);
            }
        }
    }
}

/// Collapse whitespace runs in `text` to single spaces, trim, and
/// lowercase ASCII letters.
pub fn normalize_plan_text(text: &str) -> (r: String)
    ensures
        r@ == spec_normalize(text@),
{
    let v = str_chars(text);
    let n = v.len();
    let ghost mut ws: Seq<Seq<char>> = Seq::empty();
    assert(v@.skip(n as int) =~= Seq::<char>::empty());
    let mut j: usize = 0;
    let mut out: Vec<char> = Vec::new();
    let mut first = true;
    assert(v@.skip(0) =~= v@);
    while j < n
        invariant
            j <= n == v.len(),
            first == (ws.len() == 0),
            out@ == join_spaced_rev(ws),
            words(v@) == ws + words(v@.skip(j as int)),
        decreases n - j,
    {
        let ghost s = v@.skip(j as int);
        if char_is_whitespace(v[j]) {
            assert(s.drop_first() =~= v@.skip(j + 1));
            j += 1;
        } else {
            let mut k = j;
            while k < n && !char_is_whitespace(v[k])
                invariant
                    j <= k <= n == v.len(),
                    s == v@.skip(j as int),
                    first_ws(s) == (k - j) + first_ws(v@.skip(k as int)),
                decreases n - k,
            {
                assert(v@.skip(k as int).drop_first() =~= v@.skip(k + 1));
                k += 1;
            }
            proof { lemma_first_ws(v@.skip(k as int)); }
            assert(first_ws(s) == k - j);
            assert(s.take(k - j) =~= v@.subrange(j as int, k as int));
            assert(s.skip(k - j) =~= v@.skip(k as int));
            let ghost w = v@.subrange(j as int, k as int);
            if !first {
                out.push(' ');
            }
            let mut t = j;
            let ghost before = out@;
            while t < k
                invariant
                    j <= t <= k <= n == v.len(),
                    out@ == before + v@.subrange(j as int, t as int),
                decreases k - t,
            {
                out.push(v[t]);
                assert(v@.subrange(j as int, t + 1) =~= v@.subrange(j as int, t as int).push(v@[t as int]));
                t += 1;
            }
            proof {
                let old_ws = ws;
                ws = ws.push(w);
                assert(ws.drop_last() =~= old_ws);
                assert(ws + words(v@.skip(k as int)) =~= old_ws + (seq![w] + words(v@.skip(k as int))));
            }
            first = false;
            j = k;
        }
    }
    assert(ws + Seq::<Seq<char>>::empty() =~= ws);
    proof { lemma_join_rev_eq(ws); }
    let lowered = lower_range(&out, 0, out.len());
    assert(out@.subrange(0, out@.len() as int) =~= out@);
    string_from_chars(&lowered)
}

/// The same join, built by appending at the back.
pub open spec fn join_spaced_rev(ws: Seq<Seq<char>>) -> Seq<char>
    decreases ws.len(),
{
    if ws.len() == 0 {
        Seq::empty()
    } else if ws.len() == 1 {
        ws[0]
    } else {
        join_spaced_rev(ws.drop_last()) + seq![' '] + ws.last()
    }
}

proof fn lemma_join_rev_eq(ws: Seq<Seq<char>>)
    ensures
        join_spaced_rev(ws) == join_spaced(ws),
    decreases ws.len(),
{
    if ws.len() >= 2 {
        lemma_join_rev_eq(ws.drop_last());
        lemma_join_rev_eq(ws.drop_first());
        lemma_join_rev_eq(ws.drop_first().drop_last());
        if ws.len() == 2 {
            assert(ws.drop_first().len() == 1);
            assert(ws.drop_last().len() == 1);
        } else {
            assert(ws.drop_last().drop_first() =~= ws.drop_first().drop_last());
            assert(ws.drop_first().last() == ws.last());
            assert(ws.drop_last()[0] == ws[0]);
        }
    }
}


/// Whether some completed step of `source` has the same normalised text
/// as `text`.
pub open spec fn completed_elsewhere(source: Seq<PlanStep>, text: Seq<char>) -> bool {
    exists|j: int| 0 <= j < source.len() && #[trigger] source[j].completed
        && spec_normalize(source[j].text@) == spec_normalize(text)
}

/// Marks each open step of `plan` completed when `completed_source` holds
/// a completed step with the same normalised text.
pub fn merge_completed_plan_steps(plan: &mut Vec<PlanStep>, completed_source: &[PlanStep])
    ensures
        final(plan)@.len() == old(plan)@.len(),
        forall|i: int| 0 <= i < old(plan)@.len() ==> (#[trigger] final(plan)@[i]).text@ == old(plan)@[i].text@
            && final(plan)@[i].completed == (old(plan)@[i].completed
                || completed_elsewhere(completed_source@, old(plan)@[i].text@)),
{
    let n = plan.len();
    let mut i: usize = 0;
    while i < n
        invariant
            n == plan.len() == old(plan)@.len(),
            i <= n,
            forall|k: int| i <= k < n ==> plan@[k] == old(plan)@[k],
            forall|k: int| 0 <= k < i ==> (#[trigger] plan@[k]).text@ == old(plan)@[k].text@
                && plan@[k].completed == (old(plan)@[k].completed
                    || completed_elsewhere(completed_source@, old(plan)@[k].text@)),
        decreases n - i,
    {
        if !plan[i].completed {
            let target = normalize_plan_text(plan[i].text.as_str());
            let m = completed_source.len();
            let mut j: usize = 0;
            let mut found = false;
            while j < m
                invariant_except_break
                    j <= m == completed_source@.len(),
                    !found,
                    i < n == old(plan)@.len(),
                    target@ == spec_normalize(old(plan)@[i as int].text@),
                    forall|k: int| 0 <= k < j ==> !(#[trigger] completed_source@[k].completed
                        && spec_normalize(completed_source@[k].text@) == target@),
                ensures
                    found ==> completed_elsewhere(completed_source@, old(plan)@[i as int].text@),
                    !found ==> forall|k: int| 0 <= k < m ==> !(#[trigger] completed_source@[k].completed
                        && spec_normalize(completed_source@[k].text@) == target@),
                decreases m - j,
            {
                if completed_source[j].completed {
                    let cand = normalize_plan_text(completed_source[j].text.as_str());
                    if cand == target {
                        found = true;
                        assert(completed_source@[j as int].completed);
                        break;
                    }
                }
                j += 1;
            }
            if found {
                let text = plan[i].text.clone();
                plan.set(i, PlanStep { text, completed: true });
            }
        }
        i += 1;
    }
}


/// Whether `source` holds a completed step with the same normalised text
/// as `text`.
pub open spec fn completed_in(source: Seq<(Seq<char>, bool)>, text: Seq<char>) -> bool {
    exists|j: int| 0 <= j < source.len() && #[trigger] source[j].1 && spec_normalize(source[j].0) == spec_normalize(text)
}

/// `plan` with each step also marked completed where `source` completed it.
pub open spec fn merged_steps(plan: Seq<(Seq<char>, bool)>, source: Seq<(Seq<char>, bool)>) -> Seq<(Seq<char>, bool)> {
    plan.map_values(|p: (Seq<char>, bool)| (p.0, p.1 || completed_in(source, p.0)))
}

/// Candidate texts from newest to oldest: the newest text holding a plan
/// gives the steps, and every older plan marks the steps it completed.
pub open spec fn extract_scan(c: Seq<Seq<char>>, acc: Option<Seq<(Seq<char>, bool)>>) -> Option<Seq<(Seq<char>, bool)>>
    decreases c.len(),
{
    if c.len() == 0 {
        acc
    } else {
        let next = match (acc, spec_plan_steps_from_text(c[0])) {
            (None, p) => p,
            (Some(a), Some(o)) => Some(merged_steps(a, o)),
            (Some(a), None) => Some(a),
        };
        extract_scan(c.drop_first(), next)
    }
}

pub open spec fn spec_extract_plan_steps(c: Seq<Seq<char>>) -> Seq<(Seq<char>, bool)> {
    match extract_scan(c, None) {
        Some(p) => p,
        None => Seq::empty(),
    }
}

/// The plan of a conversation, from its candidate texts newest first (see
/// [`plan_candidates`] and [`extract_scan`]).
pub fn plan_from_candidates(candidates: &Vec<String>) -> (r: Vec<PlanStep>)
    ensures
        steps_view(r@) == spec_extract_plan_steps(candidates@.map_values(|s: String| s@)),
{
    let ghost c = candidates@.map_values(|s: String| s@);
    let mut acc: Option<Vec<PlanStep>> = None;
    let n = candidates.len();
    let mut i: usize = 0;
    assert(c.skip(0) =~= c);
    while i < n
        invariant
            n == candidates@.len() == c.len(),
            c == candidates@.map_values(|s: String| s@),
            i <= n,
            extract_scan(c, None) == extract_scan(c.skip(i as int), match acc {
                Some(v) => Some(steps_view(v@)),
                None => None,
            }),
        decreases n - i,
    {
        assert(c.skip(i as int)[0] == candidates@[i as int]@);
        assert(c.skip(i as int).drop_first() =~= c.skip(i + 1));
        let found = plan_steps_from_text(candidates[i].as_str());
        acc = match acc {
            None => found,
            Some(mut plan) => match found {
                Some(older) => {
                    let ghost before = steps_view(plan@);
                    merge_completed_plan_steps(&mut plan, older.as_slice());
                    proof {
                        let o = steps_view(older@);
                        assert forall|k: int| 0 <= k < before.len() implies
                            completed_elsewhere(older@, before[k].0) == completed_in(o, before[k].0) by {
                            if completed_elsewhere(older@, before[k].0) {
                                let j = choose|j: int| 0 <= j < older@.len() && #[trigger] older@[j].completed
                                    && spec_normalize(older@[j].text@) == spec_normalize(before[k].0);
                                assert(o[j] == older@[j]@);
                                assert(o[j].1);
                            }
                            if completed_in(o, before[k].0) {
                                let j = choose|j: int| 0 <= j < o.len() && #[trigger] o[j].1
                                    && spec_normalize(o[j].0) == spec_normalize(before[k].0);
                                assert(o[j] == older@[j]@);
                                assert(older@[j].completed);
                            }
                        }
                        assert(steps_view(plan@) =~= merged_steps(before, o));
                    }
                    Some(plan)
                },
                None => Some(plan),
            },
        };
        i += 1;
    }
    match acc {
        Some(plan) => plan,
        None => {
            let empty: Vec<PlanStep> = Vec::new();
            assert(steps_view(empty@) =~= Seq::<(Seq<char>, bool)>::empty());
            empty
        },
    }
}

/// The assistant messages' contents, newest first.
pub open spec fn assistant_texts_newest_first(ms: Seq<(Seq<char>, Seq<char>)>) -> Seq<Seq<char>>
    decreases ms.len(),
{
    if ms.len() == 0 {
        Seq::empty()
    } else {
        assistant_texts_newest_first(ms.drop_first()) + if ms[0].0 == "assistant"@ {
            seq![ms[0].1]
        } else {
            Seq::empty()
        }
    }
}

/// The texts a session's plan is read from, newest first: the reply still
/// streaming, then the assistant messages from the latest back.
pub open spec fn spec_plan_candidates(live_reply: Option<Seq<char>>, ms: Seq<(Seq<char>, Seq<char>)>) -> Seq<Seq<char>> {
    (match live_reply {
        Some(t) => seq![t],
        None => Seq::empty(),
    }) + assistant_texts_newest_first(ms)
}

/// The candidate texts of a session's plan (see [`spec_plan_candidates`]).
pub fn plan_candidates(live_reply: Option<&str>, messages: &Vec<ChatMessage>) -> (r: Vec<String>)
    ensures
        r@.map_values(|s: String| s@) == spec_plan_candidates(
            match live_reply {
                Some(t) => Some(t@),
                None => None,
            },
            msgs_view(messages@),
        ),
{
    let ghost mv = msgs_view(messages@);
    let mut out: Vec<String> = Vec::new();
    match live_reply {
        Some(t) => {
            out.push(String::from_str(t));
        },
        None => {},
    }
    let ghost head = out@.map_values(|s: String| s@);
    let mut k: usize = messages.len();
    proof {
        assert(mv.subrange(k as int, mv.len() as int).len() == 0);
        assert(out@.map_values(|s: String| s@) =~= head + assistant_texts_newest_first(mv.subrange(k as int, mv.len() as int)));
    }
    while k > 0
        invariant
            k <= messages@.len(),
            mv == msgs_view(messages@),
            out@.map_values(|s: String| s@) == head + assistant_texts_newest_first(mv.subrange(k as int, mv.len() as int)),
        decreases k,
    {
        let m = &messages[k - 1];
        let ghost before = out@.map_values(|s: String| s@);
        proof {
            let sub = mv.subrange(k - 1, mv.len() as int);
            assert(sub.drop_first() =~= mv.subrange(k as int, mv.len() as int));
            assert(sub[0] == msg_view(*m));
            reveal_strlit("assistant");
        }
        if str_eq(m.role.as_str(), "assistant") {
            out.push(m.content.clone());
            proof {
                assert(out@.map_values(|s: String| s@) =~= before.push(m.content@));
            }
        } else {
            proof { assert(before + Seq::<Seq<char>>::empty() =~= before); }
        }
        k -= 1;
    }
    proof {
        assert(mv.subrange(0, mv.len() as int) =~= mv);
    }
    out
}

/// The plan of the selected session (`None` when no session is selected):
/// the plan read from its candidate texts (see [`spec_plan_candidates`]),
/// with steps that older plans already completed marked completed.
pub fn extract_plan_steps(session: Option<&ChatSession>) -> (r: Vec<PlanStep>)
    ensures
        steps_view(r@) == match session {
            None => Seq::empty(),
            Some(s) => spec_extract_plan_steps(spec_plan_candidates(
                match s.live_reply {
                    Some(t) => Some(t@),
                    None => None,
                },
                msgs_view(s.messages@),
            )),
        },
{
    match session {
        None => {
            let empty: Vec<PlanStep> = Vec::new();
            assert(steps_view(empty@) =~= Seq::<(Seq<char>, bool)>::empty());
            empty
        },
        Some(s) => {
            let live = match &s.live_reply {
                Some(t) => Some(t.as_str()),
                None => None,
            };
            let candidates = plan_candidates(live, &s.messages);
            plan_from_candidates(&candidates)
        },
    }
}

} // verus!
