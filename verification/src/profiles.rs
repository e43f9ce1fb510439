//! Where local profiles live: the server's data directory as the launch
//! command names it, and the profile ids among the directory's entries.

use vstd::prelude::*;
use crate::text::{str_chars, trim, trim_bounds, trim_start_by, trim_end_by, string_from_range, range_starts_with, vec_eq_str};
use crate::protocol::{seq_lt, str_lt, lemma_seq_lt_total, lemma_seq_lt_trans};
use crate::transport::string_views;

verus! {

/// The words `shlex::split` makes of a command line, or `None` where the
/// line is malformed (an unclosed quote, a trailing backslash).
pub uninterp spec fn shell_words(s: Seq<char>) -> Option<Seq<Seq<char>>>;

/// `shlex::split`: POSIX-shell word splitting.
#[verifier::external_body]
fn shlex_split(s: &str) -> (r: Option<Vec<String>>)
    ensures
        match r {
            Some(v) => shell_words(s@) == Some(string_views(v@)),
            None => shell_words(s@).is_none(),
        },
{
    shlex::split(s)
}

/// `base` joined with `rest` as a Unix path: an absolute `rest` replaces
/// `base`, and a separator is added when `base` does not end with one.
pub open spec fn path_join(base: Seq<char>, rest: Seq<char>) -> Seq<char> {
    if rest.len() > 0 && rest[0] == '/' {
        rest
    } else if base.len() > 0 && base.last() != '/' {
        base + seq!['/'] + rest
    } else {
        base + rest
    }
}

pub open spec fn is_quote(c: char) -> bool {
    c == '"' || c == '\''
}

pub open spec fn quote_char() -> spec_fn(char) -> bool {
    |c: char| is_quote(c)
}

/// A leading `~` or `~/` replaced by the home directory, when known.
pub open spec fn spec_expand_tilde(path: Seq<char>, home: Option<Seq<char>>) -> Seq<char> {
    match home {
        Some(h) => if path == seq!['~'] {
            h
        } else if path.len() >= 2 && path[0] == '~' && path[1] == '/' {
            path_join(h, path.skip(2))
        } else {
            path
        },
        None => path,
    }
}

/// A path token made usable: trimmed, stripped of surrounding quotes and
/// tilde-expanded; `None` when empty or holding an unexpanded `$`.
pub open spec fn spec_resolve_path_token(raw: Seq<char>, home: Option<Seq<char>>) -> Option<Seq<char>> {
    let cleaned = trim_end_by(trim_start_by(trim(raw), quote_char()), quote_char());
    if cleaned.len() == 0 || cleaned.contains('$') {
        None
    } else {
        Some(spec_expand_tilde(cleaned, home))
    }
}

/// The `--data-dir <path>` or `--data-dir=<path>` flag, when one decides.
pub open spec fn flag_scan(t: Seq<Seq<char>>, home: Option<Seq<char>>) -> Option<Option<Seq<char>>>
    decreases t.len(),
{
    if t.len() == 0 {
        None
    } else if "--data-dir="@.is_prefix_of(t[0]) {
        Some(spec_resolve_path_token(t[0].skip(11), home))
    } else if t[0] == "--data-dir"@ {
        if t.len() > 1 {
            Some(spec_resolve_path_token(t[1], home))
        } else {
            None
        }
    } else {
        flag_scan(t.drop_first(), home)
    }
}

/// An `OCTOS_HOME=<path>` assignment among the leading `KEY=VALUE` words.
pub open spec fn env_scan(t: Seq<Seq<char>>, home: Option<Seq<char>>) -> Option<Seq<char>>
    decreases t.len(),
{
    if t.len() == 0 {
        None
    } else if "OCTOS_HOME="@.is_prefix_of(t[0]) {
        spec_resolve_path_token(t[0].skip(11), home)
    } else if !t[0].contains('=') {
        None
    } else {
        env_scan(t.drop_first(), home)
    }
}

/// The data directory a launch command's words name: the flag wins over
/// the environment assignment.
pub open spec fn spec_data_dir_from_tokens(t: Seq<Seq<char>>, home: Option<Seq<char>>) -> Option<Seq<char>> {
    match flag_scan(t, home) {
        Some(r) => r,
        None => env_scan(t, home),
    }
}

fn is_quote_exec(c: char) -> (r: bool)
    ensures
        r == is_quote(c),
{
    c == '"' || c == '\''
}

fn opt_view(o: Option<&str>) -> (r: Ghost<Option<Seq<char>>>)
    ensures
        r@ == (match o {
            Some(s) => Some(s@),
            None => None,
        }),
{
    Ghost(match o {
        Some(s) => Some(s@),
        None => None,
    })
}

pub open spec fn opt_str_view(o: Option<&str>) -> Option<Seq<char>> {
    match o {
        Some(s) => Some(s@),
        None => None,
    }
}

fn join_path(base: &str, rest: &Vec<char>, lo: usize) -> (r: String)
    requires
        lo <= rest.len(),
    ensures
        r@ == path_join(base@, rest@.skip(lo as int)),
{
    let b = str_chars(base);
    let tail = string_from_range(rest, lo, rest.len());
    assert(rest@.subrange(lo as int, rest@.len() as int) =~= rest@.skip(lo as int));
    if lo < rest.len() && rest[lo] == '/' {
        return tail;
    }
    let mut out = String::from_str(base);
    if b.len() > 0 && b[b.len() - 1] != '/' {
        crate::text::push_char(&mut out, '/');
    }
    out.append(tail.as_str());
    out
}

/// `<base>/<name>` for a plain relative `name`.
pub fn join_name(base: &str, name: &str) -> (r: String)
    ensures
        r@ == path_join(base@, name@),
{
    let n = str_chars(name);
    assert(n@.skip(0) =~= n@);
    join_path(base, &n, 0)
}

/// Resolve a raw path token (see [`resolve_path_token`]).
pub fn resolve_path_token(raw: &str, home: Option<&str>) -> (r: Option<String>)
    ensures
        match (r, spec_resolve_path_token(raw@, opt_str_view(home))) {
            (Some(a), Some(b)) => a@ == b,
            (None, None) => true,
            _ => false,
        },
{
    let v = str_chars(raw);
    let (a0, b0) = trim_bounds(&v, 0, v.len());
    assert(v@.subrange(0, v@.len() as int) =~= v@);
    let ghost t = v@.subrange(a0 as int, b0 as int);
    let mut a = a0;
    while a < b0 && is_quote_exec(v[a])
        invariant
            a0 <= a <= b0 <= v.len(),
            trim_start_by(t, quote_char()) == trim_start_by(v@.subrange(a as int, b0 as int), quote_char()),
        decreases b0 - a,
    {
        assert(v@.subrange(a as int, b0 as int).drop_first() =~= v@.subrange(a + 1, b0 as int));
        a += 1;
    }
    let ghost s = v@.subrange(a as int, b0 as int);
    assert(trim_start_by(s, quote_char()) == s) by {
        if a < b0 {
            assert(s[0] == v@[a as int]);
        }
    }
    let mut b = b0;
    while b > a && is_quote_exec(v[b - 1])
        invariant
            a <= b <= b0 <= v.len(),
            s == v@.subrange(a as int, b0 as int),
            trim_end_by(s, quote_char()) == trim_end_by(v@.subrange(a as int, b as int), quote_char()),
        decreases b - a,
    {
        assert(v@.subrange(a as int, b as int).drop_last() =~= v@.subrange(a as int, b - 1));
        b -= 1;
    }
    let ghost cleaned = v@.subrange(a as int, b as int);
    assert(trim_end_by(cleaned, quote_char()) == cleaned) by {
        if a < b {
            assert(cleaned.last() == v@[b - 1]);
        }
    }
    assert(cleaned == trim_end_by(trim_start_by(trim(raw@), quote_char()), quote_char()));
    if a == b {
        return None;
    }
    let mut k = a;
    while k < b
        invariant
            a <= k <= b <= v.len(),
            cleaned == v@.subrange(a as int, b as int),
            cleaned == trim_end_by(trim_start_by(trim(raw@), quote_char()), quote_char()),
            forall|j: int| a <= j < k ==> v@[j] != '$',
        decreases b - k,
    {
        if v[k] == '$' {
            assert(cleaned[k - a] == '$');
            return None;
        }
        k += 1;
    }
    assert(!cleaned.contains('$')) by {
        assert forall|j: int| 0 <= j < cleaned.len() implies cleaned[j] != '$' by {
            assert(cleaned[j] == v@[a + j]);
        }
    }
    let path = string_from_range(&v, a, b);
    match home {
        Some(h) => {
            if b - a == 1 && v[a] == '~' {
                assert(cleaned =~= seq!['~']);
                return Some(String::from_str(h));
            }
            if b - a >= 2 && v[a] == '~' && v[a + 1] == '/' {
                let pv = str_chars(path.as_str());
                assert(pv@.skip(2) =~= cleaned.skip(2));
                return Some(join_path(h, &pv, 2));
            }
            assert(cleaned != seq!['~']);
            Some(path)
        },
        None => Some(path),
    }
}

/// The data directory named by a launch command's words (see
/// [`spec_data_dir_from_tokens`]).
pub fn data_dir_from_tokens(tokens: &Vec<String>, home: Option<&str>) -> (r: Option<String>)
    ensures
        match (r, spec_data_dir_from_tokens(string_views(tokens@), opt_str_view(home))) {
            (Some(a), Some(b)) => a@ == b,
            (None, None) => true,
            _ => false,
        },
{
    let ghost t = string_views(tokens@);
    let ghost hv = opt_str_view(home);
    proof {
        reveal_strlit("--data-dir=");
        reveal_strlit("--data-dir");
        reveal_strlit("OCTOS_HOME=");
    }
    let n = tokens.len();
    let mut i: usize = 0;
    assert(t.skip(0) =~= t);
    while i < n
        invariant
            n == tokens@.len() == t.len(),
            t == string_views(tokens@),
            hv == opt_str_view(home),
            i <= n,
            flag_scan(t, hv) == flag_scan(t.skip(i as int), hv),
        decreases n - i,
    {
        proof {
            reveal_strlit("--data-dir=");
            reveal_strlit("--data-dir");
        }
        let tok = str_chars(tokens[i].as_str());
        assert(t.skip(i as int)[0] == tokens@[i as int]@);
        assert(t.skip(i as int).drop_first() =~= t.skip(i + 1));
        if range_starts_with(&tok, 0, tok.len(), "--data-dir=") {
            assert(tok@.subrange(0, 11) =~= "--data-dir="@);
            assert("--data-dir="@.is_prefix_of(tok@));
            let rest = string_from_range(&tok, 11, tok.len());
            assert(tok@.subrange(11, tok@.len() as int) =~= tok@.skip(11));
            return resolve_path_token(rest.as_str(), home);
        }
        proof {
            if "--data-dir="@.is_prefix_of(tok@) {
                assert(tok@.subrange(0, 11) =~= "--data-dir="@);
            }
        }
        if vec_eq_str(&tok, "--data-dir") {
            if i + 1 < n {
                assert(t.skip(i as int)[1] == tokens@[i + 1]@);
                return resolve_path_token(tokens[i + 1].as_str(), home);
            }
        }
        i += 1;
    }
    assert(t.skip(n as int).len() == 0);
    let mut j: usize = 0;
    while j < n
        invariant
            n == tokens@.len() == t.len(),
            t == string_views(tokens@),
            hv == opt_str_view(home),
            j <= n,
            flag_scan(t, hv).is_none(),
            env_scan(t, hv) == env_scan(t.skip(j as int), hv),
        decreases n - j,
    {
        proof { reveal_strlit("OCTOS_HOME="); }
        let tok = str_chars(tokens[j].as_str());
        assert(t.skip(j as int)[0] == tokens@[j as int]@);
        assert(t.skip(j as int).drop_first() =~= t.skip(j + 1));
        if range_starts_with(&tok, 0, tok.len(), "OCTOS_HOME=") {
            assert(tok@.subrange(0, 11) =~= "OCTOS_HOME="@);
            let rest = string_from_range(&tok, 11, tok.len());
            assert(tok@.subrange(11, tok@.len() as int) =~= tok@.skip(11));
            return resolve_path_token(rest.as_str(), home);
        }
        proof {
            if "OCTOS_HOME="@.is_prefix_of(tok@) {
                assert(tok@.subrange(0, 11) =~= "OCTOS_HOME="@);
            }
        }
        let mut has_eq = false;
        let mut k: usize = 0;
        while k < tok.len()
            invariant
                k <= tok@.len(),
                has_eq == exists|x: int| 0 <= x < k && tok@[x] == '=',
            decreases tok@.len() - k,
        {
            if tok[k] == '=' {
                has_eq = true;
            }
            k += 1;
        }
        assert(has_eq == tok@.contains('='));
        if !has_eq {
            return None;
        }
        j += 1;
    }
    None
}

/// The data directory a launch command names: its words as `shlex`
/// splits them (none when the line is malformed), then
/// [`spec_data_dir_from_tokens`].
pub open spec fn spec_data_dir_from_command(command: Seq<char>, home: Option<Seq<char>>) -> Option<Seq<char>> {
    spec_data_dir_from_tokens(
        match shell_words(command) {
            Some(t) => t,
            None => Seq::empty(),
        },
        home,
    )
}

pub fn data_dir_from_command(command: &str, home: Option<&str>) -> (r: Option<String>)
    ensures
        match (r, spec_data_dir_from_command(command@, opt_str_view(home))) {
            (Some(a), Some(b)) => a@ == b,
            (None, None) => true,
            _ => false,
        },
{
    let tokens = match shlex_split(command) {
        Some(t) => t,
        None => {
            let empty: Vec<String> = Vec::new();
            assert(string_views(empty@) =~= Seq::<Seq<char>>::empty());
            empty
        },
    };
    data_dir_from_tokens(&tokens, home)
}

/// `<data dir>/profiles`, where the data directory is the one the launch
/// command names, else `<home>/.octos`.
pub open spec fn spec_solo_profiles_dir(command: Option<Seq<char>>, home: Option<Seq<char>>) -> Option<Seq<char>> {
    let named = match command {
        Some(c) => spec_data_dir_from_command(c, home),
        None => None,
    };
    let data_dir = match named {
        Some(d) => Some(d),
        None => match home {
            Some(h) => Some(path_join(h, ".octos"@)),
            None => None,
        },
    };
    match data_dir {
        Some(d) => Some(path_join(d, "profiles"@)),
        None => None,
    }
}

pub fn solo_profiles_dir(stdio_command: Option<&str>, home: Option<&str>) -> (r: Option<String>)
    ensures
        match (r, spec_solo_profiles_dir(opt_str_view(stdio_command), opt_str_view(home))) {
            (Some(a), Some(b)) => a@ == b,
            (None, None) => true,
            _ => false,
        },
{
    let named = match stdio_command {
        Some(c) => data_dir_from_command(c, home),
        None => None,
    };
    let data_dir = match named {
        Some(d) => d,
        None => match home {
            Some(h) => join_name(h, ".octos"),
            None => {
                return None;
            },
        },
    };
    Some(join_name(data_dir.as_str(), "profiles"))
}

/// The profile id a directory entry names: the stem of a `<id>.json` file
/// whose id is not empty and does not start with a dot.
pub open spec fn profile_stem(name: Seq<char>) -> Option<Seq<char>> {
    if name.len() > 5 && name.skip(name.len() - 5) == ".json"@ && name[0] != '.' {
        Some(name.take(name.len() - 5))
    } else {
        None
    }
}

/// Whether some file entry names profile `id`.
pub open spec fn names_profile(entries: Seq<(String, bool)>, id: Seq<char>) -> bool {
    exists|i: int| 0 <= i < entries.len() && (#[trigger] entries[i]).1 && profile_stem(entries[i].0@) == Some(id)
}

pub open spec fn strictly_sorted(v: Seq<Seq<char>>) -> bool {
    forall|i: int, j: int| 0 <= i < j < v.len() ==> seq_lt(#[trigger] v[i], #[trigger] v[j])
}

fn stem_of(name: &str) -> (r: Option<String>)
    ensures
        match (r, profile_stem(name@)) {
            (Some(a), Some(b)) => a@ == b,
            (None, None) => true,
            _ => false,
        },
{
    let v = str_chars(name);
    let n = v.len();
    proof { reveal_strlit(".json"); }
    if n > 5 && v[0] != '.' {
        let is_json = v[n - 5] == '.' && v[n - 4] == 'j' && v[n - 3] == 's' && v[n - 2] == 'o' && v[n - 1] == 'n';
        if is_json {
            assert(v@.skip(n - 5) =~= ".json"@);
            return Some(string_from_range(&v, 0, n - 5));
        } else {
            assert(v@.skip(n - 5) != ".json"@) by {
                if v@.skip(n - 5) == ".json"@ {
                    assert(v@.skip(n - 5)[0] == v@[n - 5]);
                    assert(v@.skip(n - 5)[1] == v@[n - 4]);
                    assert(v@.skip(n - 5)[2] == v@[n - 3]);
                    assert(v@.skip(n - 5)[3] == v@[n - 2]);
                    assert(v@.skip(n - 5)[4] == v@[n - 1]);
                }
            }
        }
    }
    None
}

/// Profile ids among directory entries (`(file name, is a file)`), sorted
/// and without repeats.
pub fn profile_ids_from_entries(entries: &Vec<(String, bool)>) -> (r: Vec<String>)
    ensures
        strictly_sorted(string_views(r@)),
        forall|id: Seq<char>| string_views(r@).contains(id) <==> names_profile(entries@, id),
{
    let mut ids: Vec<String> = Vec::new();
    let mut i: usize = 0;
    while i < entries.len()
        invariant
            i <= entries@.len(),
            strictly_sorted(string_views(ids@)),
            forall|id: Seq<char>| string_views(ids@).contains(id) <==> names_profile(entries@.take(i as int), id),
        decreases entries@.len() - i,
    {
        let ghost before = string_views(ids@);
        let ghost added: Option<Seq<char>> = if entries@[i as int].1 { profile_stem(entries@[i as int].0@) } else { None };
        let stem = if entries[i].1 {
            stem_of(entries[i].0.as_str())
        } else {
            None
        };
        match stem {
            Some(s) => {
                insert_sorted(&mut ids, s);
            },
            None => {},
        }
        assert(forall|id: Seq<char>| string_views(ids@).contains(id) <==> (before.contains(id) || added == Some(id)));
        proof {
            lemma_names_profile_step(entries@, i as int);
        }
        i += 1;
    }
    assert(entries@.take(entries@.len() as int) =~= entries@);
    ids
}

proof fn lemma_names_profile_step(entries: Seq<(String, bool)>, i: int)
    requires
        0 <= i < entries.len(),
    ensures
        forall|id: Seq<char>| names_profile(entries.take(i + 1), id) <==> (names_profile(entries.take(i), id) || (
            entries[i].1 && profile_stem(entries[i].0@) == Some(id))),
{
    let e = entries.take(i + 1);
    let d = entries.take(i);
    assert forall|id: Seq<char>| names_profile(e, id) <==> (names_profile(d, id) || (entries[i].1 && profile_stem(entries[i].0@) == Some(id))) by {
        if names_profile(e, id) {
            let k = choose|k: int| 0 <= k < e.len() && (#[trigger] e[k]).1 && profile_stem(e[k].0@) == Some(id);
            if k < i {
                assert(d[k] == e[k]);
            }
        }
        if names_profile(d, id) {
            let k = choose|k: int| 0 <= k < d.len() && (#[trigger] d[k]).1 && profile_stem(d[k].0@) == Some(id);
            assert(e[k] == d[k]);
        }
        if entries[i].1 && profile_stem(entries[i].0@) == Some(id) {
            assert(e[i] == entries[i]);
        }
    }
}

/// Insert `s` into the strictly sorted `ids`, unless it is already there.
fn insert_sorted(ids: &mut Vec<String>, s: String)
    requires
        strictly_sorted(string_views(old(ids)@)),
    ensures
        strictly_sorted(string_views(final(ids)@)),
        forall|id: Seq<char>| string_views(final(ids)@).contains(id) <==> (string_views(old(ids)@).contains(id) || id == s@),
{
    let ghost old_v = string_views(ids@);
    let n = ids.len();
    let mut k: usize = 0;
    while k < n && str_lt(ids[k].as_str(), s.as_str())
        invariant
            n == ids@.len(),
            old_v == string_views(ids@),
            strictly_sorted(old_v),
            k <= n,
            forall|j: int| 0 <= j < k ==> seq_lt(#[trigger] old_v[j], s@),
        decreases n - k,
    {
        k += 1;
    }
    if k < n && crate::json::str_eq(ids[k].as_str(), s.as_str()) {
        assert(old_v[k as int] == s@);
        assert(forall|id: Seq<char>| id == s@ ==> old_v.contains(id));
        return;
    }
    proof {
        if k < n {
            lemma_seq_lt_total(old_v[k as int], s@);
        }
    }
    ids.insert(k, s);
    proof {
        let new_v = string_views(ids@);
        assert(new_v =~= old_v.insert(k as int, s@));
        assert forall|a: int, b: int| 0 <= a < b < new_v.len() implies seq_lt(#[trigger] new_v[a], #[trigger] new_v[b]) by {
            if b < k {
            } else if b == k {
            } else if a == k {
                assert(new_v[b] == old_v[b - 1]);
                if b - 1 > k {
                    lemma_seq_lt_trans(s@, old_v[k as int], old_v[b - 1]);
                }
            } else if a < k {
                assert(new_v[b] == old_v[b - 1]);
                if b - 1 >= k {
                    lemma_seq_lt_trans(old_v[a], s@, old_v[k as int]);
                    if b - 1 > k {
                        lemma_seq_lt_trans(old_v[a], old_v[k as int], old_v[b - 1]);
                    }
                }
            } else {
                assert(new_v[a] == old_v[a - 1]);
                assert(new_v[b] == old_v[b - 1]);
            }
        }
        assert forall|id: Seq<char>| new_v.contains(id) <==> (old_v.contains(id) || id == s@) by {
            if new_v.contains(id) {
                let x = choose|x: int| 0 <= x < new_v.len() && new_v[x] == id;
                if x < k {
                    assert(old_v[x] == id);
                } else if x > k {
                    assert(old_v[x - 1] == id);
                }
            }
            if old_v.contains(id) {
                let x = choose|x: int| 0 <= x < old_v.len() && old_v[x] == id;
                if x < k {
                    assert(new_v[x] == id);
                } else {
                    assert(new_v[x + 1] == id);
                }
            }
            if id == s@ {
                assert(new_v[k as int] == id);
            }
        }
    }
}


/// A leading `~` or `~/` replaced by the home directory, when known (see
/// [`spec_expand_tilde`]).
pub fn expand_tilde(path: &str, home: Option<&str>) -> (r: String)
    ensures
        r@ == spec_expand_tilde(path@, opt_str_view(home)),
{
    let v = str_chars(path);
    match home {
        Some(h) => {
            if v.len() == 1 && v[0] == '~' {
                assert(v@ =~= seq!['~']);
                return String::from_str(h);
            }
            if v.len() >= 2 && v[0] == '~' && v[1] == '/' {
                return join_path(h, &v, 2);
            }
            assert(v@ != seq!['~']);
            String::from_str(path)
        },
        None => String::from_str(path),
    }
}

/// `<home>/.octos`, when the home directory is known.
pub fn default_octos_home(home: Option<&str>) -> (r: Option<String>)
    ensures
        match (r, home) {
            (Some(a), Some(h)) => a@ == path_join(h@, ".octos"@),
            (None, None) => true,
            _ => false,
        },
{
    match home {
        Some(h) => Some(join_name(h, ".octos")),
        None => None,
    }
}

} // verus!
