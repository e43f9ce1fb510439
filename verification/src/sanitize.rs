//! Terminal control-sequence sanitisation for server-supplied text.
//!
//! Strips every escape sequence and non-printing control character; keeps
//! `\n` and `\t`, normalises `\r\n` to `\n` and drops a bare `\r`.

use std::borrow::Cow;
use vstd::prelude::*;
use crate::text::{str_chars, string_from_chars};

verus! {

pub open spec fn code(c: char) -> u32 {
    c as u32
}

/// A character that the sanitiser keeps verbatim.
pub open spec fn is_clean_char(c: char) -> bool {
    let u = code(c);
    !(u < 0x20 && c != '\n' && c != '\t') && u != 0x7f && !(0x80 <= u <= 0x9f)
}

/// Text that carries no escape or control character to strip.
pub open spec fn is_clean(s: Seq<char>) -> bool {
    forall|i: int| 0 <= i < s.len() ==> is_clean_char(#[trigger] s[i])
}

/// CSI final byte (`@`..=`~`).
pub open spec fn is_csi_final(c: char) -> bool {
    0x40 <= code(c) <= 0x7e
}

/// Characters consumed by a CSI parameter run: up to and including the
/// first final byte, or everything when none comes.
pub open spec fn csi_len(t: Seq<char>) -> nat
    decreases t.len(),
{
    if t.len() == 0 {
        0
    } else if is_csi_final(t[0]) {
        1
    } else {
        1 + csi_len(t.drop_first())
    }
}

/// Characters consumed by a string-type sequence body (OSC, DCS, ...):
/// up to and including its terminator. `prev_esc` says whether the last
/// consumed character was ESC (so a `\` now completes ST); `bel_ends`
/// allows BEL as terminator, `c1_ends` allows the C1 ST character.
pub open spec fn body_len(t: Seq<char>, prev_esc: bool, bel_ends: bool, c1_ends: bool) -> nat
    decreases t.len(),
{
    if t.len() == 0 {
        0
    } else if (bel_ends && t[0] == '\u{07}') || (c1_ends && t[0] == '\u{9c}') || (prev_esc && t[0] == '\\') {
        1
    } else {
        1 + body_len(t.drop_first(), t[0] == '\u{1b}', bel_ends, c1_ends)
    }
}

/// Number of characters that the sanitiser consumes at the front of `s`.
pub open spec fn step_len(s: Seq<char>) -> nat {
    if s.len() == 0 {
        0
    } else {
        let c = s[0];
        if c == '\u{1b}' {
            if s.len() == 1 {
                1
            } else {
                let n = s[1];
                if n == '[' {
                    2 + csi_len(s.skip(2))
                } else if n == ']' {
                    2 + body_len(s.skip(2), false, true, false)
                } else if n == 'P' || n == 'X' || n == '^' || n == '_' {
                    2 + body_len(s.skip(2), false, false, false)
                } else if n == '(' || n == ')' || n == '*' || n == '+' {
                    if s.len() >= 3 { 3 } else { 2 }
                } else {
                    2
                }
            }
        } else if c == '\r' {
            if s.len() >= 2 && s[1] == '\n' { 2 } else { 1 }
        } else if c == '\u{9b}' {
            1 + csi_len(s.skip(1))
        } else if c == '\u{9d}' || c == '\u{90}' {
            1 + body_len(s.skip(1), false, true, true)
        } else {
            1
        }
    }
}

/// What the sanitiser emits for the sequence at the front of `s`.
pub open spec fn step_out(s: Seq<char>) -> Seq<char> {
    if s.len() == 0 {
        Seq::empty()
    } else {
        let c = s[0];
        let u = code(c);
        if c == '\r' {
            if s.len() >= 2 && s[1] == '\n' { seq!['\n'] } else { Seq::empty() }
        } else if is_clean_char(c) {
            seq![c]
        } else {
            Seq::empty()
        }
    }
}

/// The sanitised text: escape sequences and control characters removed,
/// `\r\n` turned into `\n`, bare `\r` dropped.
pub open spec fn stripped(s: Seq<char>) -> Seq<char>
    decreases s.len(),
{
    let k = step_len(s);
    if s.len() == 0 || k == 0 || k > s.len() {
        Seq::empty()
    } else {
        step_out(s) + stripped(s.skip(k as int))
    }
}

proof fn lemma_csi_len_bound(t: Seq<char>)
    ensures
        csi_len(t) <= t.len(),
    decreases t.len(),
{
    if t.len() > 0 {
        lemma_csi_len_bound(t.drop_first());
    }
}

proof fn lemma_body_len_bound(t: Seq<char>, p: bool, b: bool, c: bool)
    ensures
        body_len(t, p, b, c) <= t.len(),
    decreases t.len(),
{
    if t.len() > 0 {
        lemma_body_len_bound(t.drop_first(), t[0] == '\u{1b}', b, c);
    }
}

proof fn lemma_step_len_bound(s: Seq<char>)
    requires
        s.len() > 0,
    ensures
        1 <= step_len(s) <= s.len(),
{
    if s.len() >= 2 {
        lemma_csi_len_bound(s.skip(2));
        lemma_body_len_bound(s.skip(2), false, true, false);
        lemma_body_len_bound(s.skip(2), false, false, false);
    }
    lemma_csi_len_bound(s.skip(1));
    lemma_body_len_bound(s.skip(1), false, true, true);
}

/// Exec: index just past the CSI run that starts at `start`.
fn csi_end(v: &Vec<char>, start: usize) -> (r: usize)
    requires
        start <= v.len(),
    ensures
        r == start + csi_len(v@.skip(start as int)),
        r <= v.len(),
{
    let n = v.len();
    let mut j = start;
    proof { lemma_csi_len_bound(v@.skip(start as int)); }
    while j < n
        invariant
            start <= j <= n == v.len(),
            csi_len(v@.skip(start as int)) == (j - start) + csi_len(v@.skip(j as int)),
        decreases n - j,
    {
        let c = v[j];
        let u = c as u32;
        assert(v@.skip(j as int).drop_first() =~= v@.skip(j + 1));
        if 0x40 <= u && u <= 0x7e {
            return j + 1;
        }
        j += 1;
    }
    j
}

/// Exec: index just past the string-type body that starts at `start`.
fn body_end(v: &Vec<char>, start: usize, bel_ends: bool, c1_ends: bool) -> (r: usize)
    requires
        start <= v.len(),
    ensures
        r == start + body_len(v@.skip(start as int), false, bel_ends, c1_ends),
        r <= v.len(),
{
    let n = v.len();
    let mut j = start;
    let mut prev_esc = false;
    proof { lemma_body_len_bound(v@.skip(start as int), false, bel_ends, c1_ends); }
    while j < n
        invariant
            start <= j <= n == v.len(),
            body_len(v@.skip(start as int), false, bel_ends, c1_ends)
                == (j - start) + body_len(v@.skip(j as int), prev_esc, bel_ends, c1_ends),
        decreases n - j,
    {
        let c = v[j];
        assert(v@.skip(j as int).drop_first() =~= v@.skip(j + 1));
        if (bel_ends && c == '\u{07}') || (c1_ends && c == '\u{9c}') || (prev_esc && c == '\\') {
            return j + 1;
        }
        prev_esc = c == '\u{1b}';
        j += 1;
    }
    j
}

/// Exec: the length consumed at `v[i..]` and the character it emits, if any.
fn step(v: &Vec<char>, i: usize) -> (r: (usize, Option<char>))
    requires
        i < v.len(),
    ensures
        r.0 == step_len(v@.skip(i as int)),
        step_out(v@.skip(i as int)) == (match r.1 { Some(c) => seq![c], None => Seq::<char>::empty() }),
{
    let ghost s = v@.skip(i as int);
    let n = v.len();
    let c = v[i];
    let u = c as u32;
    assert(s[0] == c);
    if c == '\u{1b}' {
        if i + 1 == n {
            return (1, None);
        }
        let nx = v[i + 1];
        assert(s[1] == nx);
        assert(v@.skip(i + 2) =~= s.skip(2));
        if nx == '[' {
            let e = csi_end(v, i + 2);
            (e - i, None)
        } else if nx == ']' {
            let e = body_end(v, i + 2, true, false);
            (e - i, None)
        } else if nx == 'P' || nx == 'X' || nx == '^' || nx == '_' {
            let e = body_end(v, i + 2, false, false);
            (e - i, None)
        } else if nx == '(' || nx == ')' || nx == '*' || nx == '+' {
            if i + 2 < n { (3, None) } else { (2, None) }
        } else {
            (2, None)
        }
    } else if c == '\r' {
        if i + 1 < n && v[i + 1] == '\n' {
            assert(s[1] == v@[i + 1]);
            (2, Some('\n'))
        } else {
            (1, None)
        }
    } else if c == '\u{9b}' {
        assert(v@.skip(i + 1) =~= s.skip(1));
        let e = csi_end(v, i + 1);
        (e - i, None)
    } else if c == '\u{9d}' || c == '\u{90}' {
        assert(v@.skip(i + 1) =~= s.skip(1));
        let e = body_end(v, i + 1, true, true);
        (e - i, None)
    } else if !(u < 0x20 && c != '\n' && c != '\t') && u != 0x7f && !(0x80 <= u && u <= 0x9f) {
        (1, Some(c))
    } else {
        (1, None)
    }
}

/// Strip ANSI/VT escape sequences (CSI, OSC, DCS/APC/PM/SOS, two-character
/// ESC forms) and C0/C1 control characters (except `\n` and `\t`) from
/// `input`. Clean text comes back borrowed, without allocation.
pub fn strip_terminal_controls(input: &str) -> (r: Cow<'_, str>)
    ensures
        r@ == stripped(input@),
        (r is Borrowed) <==> is_clean(input@),
{
    let v = str_chars(input);
    let n = v.len();
    let mut k: usize = 0;
    let mut clean = true;
    while k < n
        invariant
            n == v.len(),
            v@ == input@,
            k <= n,
            clean <==> (forall|j: int| 0 <= j < k ==> is_clean_char(#[trigger] v@[j])),
        decreases n - k,
    {
        let c = v[k];
        let u = c as u32;
        if (u < 0x20 && c != '\n' && c != '\t') || u == 0x7f || (0x80 <= u && u <= 0x9f) {
            clean = false;
        }
        k += 1;
    }
    if clean {
        proof { lemma_clean_fixed_point(input@); }
        return Cow::Borrowed(input);
    }
    let mut out: Vec<char> = Vec::new();
    let mut i: usize = 0;
    assert(v@.skip(0) =~= v@);
    while i < n
        invariant
            n == v.len(),
            v@ == input@,
            i <= n,
            stripped(v@) == out@ + stripped(v@.skip(i as int)),
        decreases n - i,
    {
        let ghost s = v@.skip(i as int);
        proof { lemma_step_len_bound(s); }
        let (len, emit) = step(&v, i);
        assert(s.skip(len as int) =~= v@.skip(i + len));
        match emit {
            Some(c) => {
                out.push(c);
            },
            None => {},
        }
        assert(stripped(s) == step_out(s) + stripped(s.skip(len as int)));
        i = i + len;
    }
    assert(v@.skip(n as int) =~= Seq::<char>::empty());
    assert(out@ + Seq::<char>::empty() =~= out@);
    Cow::Owned(string_from_chars(&out))
}

/// Clean text is its own sanitised form.
pub proof fn lemma_clean_fixed_point(s: Seq<char>)
    requires
        is_clean(s),
    ensures
        stripped(s) == s,
    decreases s.len(),
{
    if s.len() > 0 {
        let c = s[0];
        assert(is_clean_char(s[0]));
        assert(step_len(s) == 1);
        let t = s.skip(1);
        assert forall|i: int| 0 <= i < t.len() implies is_clean_char(#[trigger] t[i]) by {
            assert(t[i] == s[i + 1]);
        }
        lemma_clean_fixed_point(t);
        assert(s =~= seq![c] + t);
    }
}

/// Every character of sanitised output is clean.
pub proof fn lemma_stripped_is_clean(s: Seq<char>)
    ensures
        is_clean(stripped(s)),
    decreases s.len(),
{
    if s.len() > 0 {
        lemma_step_len_bound(s);
        let k = step_len(s);
        lemma_stripped_is_clean(s.skip(k as int));
        let o = step_out(s);
        let rest = stripped(s.skip(k as int));
        assert(is_clean(o));
        assert forall|i: int| 0 <= i < (o + rest).len() implies is_clean_char(#[trigger] (o + rest)[i]) by {
            if i < o.len() {
                assert((o + rest)[i] == o[i]);
            } else {
                assert((o + rest)[i] == rest[i - o.len()]);
            }
        }
    }
}

/// A character-set designation (ESC followed by `(`, `)`, `*` or `+` and
/// the set's designator) is removed whole, designator included, whatever
/// follows it.
pub proof fn law_charset_designation_removed_whole(c: char, d: char, t: Seq<char>)
    requires
        c == '(' || c == ')' || c == '*' || c == '+',
    ensures
        stripped(seq!['\u{1b}', c, d] + t) == stripped(t),
{
    let s = seq!['\u{1b}', c, d] + t;
    assert(s[0] == '\u{1b}' && s[1] == c);
    assert(step_len(s) == 3);
    assert(!is_clean_char('\u{1b}'));
    assert(step_out(s) =~= Seq::<char>::empty());
    assert(s.skip(3) =~= t);
    assert(stripped(s) == step_out(s) + stripped(s.skip(3)));
    assert(Seq::<char>::empty() + stripped(t) =~= stripped(t));
}

/// Sanitising is idempotent: sanitised text passes through unchanged.
pub proof fn law_strip_idempotent(s: Seq<char>)
    ensures
        stripped(stripped(s)) == stripped(s),
{
    lemma_stripped_is_clean(s);
    lemma_clean_fixed_point(stripped(s));
}

/// Sanitised output never grows the text.
pub proof fn law_strip_never_grows(s: Seq<char>)
    ensures
        stripped(s).len() <= s.len(),
    decreases s.len(),
{
    if s.len() > 0 {
        lemma_step_len_bound(s);
        let k = step_len(s);
        law_strip_never_grows(s.skip(k as int));
        assert(step_out(s).len() <= k);
    }
}

} // verus!
