//! JSON-RPC 2.0 framing for the UI protocol: request tracking, response
//! matching, notification and error classification.

use vstd::prelude::*;
use crate::text::{str_chars, dec, u64_decimal, usize_decimal, lemma_dec_injective, trim, trim_bounds, string_from_range};
use vstd::string::StringSliceAdditionalSpecFns;
use crate::json::{JsonValue, field_get, spec_get, spec_as_str, str_eq, get, as_str, fields_get};

verus! {

/// Code-point (equivalently UTF-8 byte) lexicographic order, as `String`
/// compares.
pub open spec fn seq_lt(a: Seq<char>, b: Seq<char>) -> bool
    decreases a.len(),
{
    if a.len() == 0 {
        b.len() > 0
    } else if b.len() == 0 {
        false
    } else if (a[0] as u32) < (b[0] as u32) {
        true
    } else if a[0] == b[0] {
        seq_lt(a.drop_first(), b.drop_first())
    } else {
        false
    }
}

pub proof fn lemma_seq_lt_total(a: Seq<char>, b: Seq<char>)
    ensures
        a == b || seq_lt(a, b) || seq_lt(b, a),
        !(seq_lt(a, b) && seq_lt(b, a)),
        !seq_lt(a, a),
    decreases a.len(),
{
    if a.len() > 0 {
        lemma_seq_lt_total(a.drop_first(), a.drop_first());
    }
    if a.len() > 0 && b.len() > 0 {
        lemma_seq_lt_total(a.drop_first(), b.drop_first());
        vstd::utf8::char_u32_cast(a[0], a[0] as u32);
        vstd::utf8::char_u32_cast(b[0], b[0] as u32);
        if a[0] == b[0] && a.drop_first() == b.drop_first() {
            assert forall|i: int| 0 <= i < a.len() implies a[i] == b[i] by {
                if i > 0 {
                    assert(a[i] == a.drop_first()[i - 1]);
                    assert(b[i] == b.drop_first()[i - 1]);
                }
            }
            assert(a =~= b);
        }
    } else if a.len() == 0 && b.len() == 0 {
        assert(a =~= b);
    }
}

pub proof fn lemma_seq_lt_trans(a: Seq<char>, b: Seq<char>, c: Seq<char>)
    requires
        seq_lt(a, b),
        seq_lt(b, c),
    ensures
        seq_lt(a, c),
    decreases a.len(),
{
    if a.len() > 0 && b.len() > 0 && c.len() > 0 {
        if a[0] == b[0] && b[0] == c[0] {
            lemma_seq_lt_trans(a.drop_first(), b.drop_first(), c.drop_first());
        }
    }
}

/// Exec: `a < b` for strings.
pub fn str_lt(a: &str, b: &str) -> (r: bool)
    ensures
        r == seq_lt(a@, b@),
{
    let va = str_chars(a);
    let vb = str_chars(b);
    let mut i: usize = 0;
    assert(va@.skip(0) =~= va@);
    assert(vb@.skip(0) =~= vb@);
    while i < va.len() && i < vb.len() && va[i] == vb[i]
        invariant
            va@ == a@,
            vb@ == b@,
            i <= va.len(),
            i <= vb.len(),
            seq_lt(a@, b@) == seq_lt(va@.skip(i as int), vb@.skip(i as int)),
        decreases va.len() - i,
    {
        assert(va@.skip(i as int).drop_first() =~= va@.skip(i + 1));
        assert(vb@.skip(i as int).drop_first() =~= vb@.skip(i + 1));
        i += 1;
    }
    if i == va.len() {
        i < vb.len()
    } else if i == vb.len() {
        false
    } else {
        assert(va@.skip(i as int)[0] == va@[i as int]);
        assert(vb@.skip(i as int)[0] == vb@[i as int]);
        (va[i] as u32) < (vb[i] as u32)
    }
}

/// The method a tracked request was sent for.
#[derive(Debug, Clone, PartialEq, Eq)]
pub struct PendingRequest {
    pub method: String,
}

pub open spec fn entries_map(s: Seq<(String, PendingRequest)>) -> Map<Seq<char>, Seq<char>>
    decreases s.len(),
{
    if s.len() == 0 {
        Map::empty()
    } else {
        entries_map(s.drop_last()).insert(s.last().0@, s.last().1.method@)
    }
}

pub open spec fn distinct_ids(s: Seq<(String, PendingRequest)>) -> bool {
    forall|i: int, j: int| 0 <= i < j < s.len() ==> (#[trigger] s[i]).0@ != (#[trigger] s[j]).0@
}

/// Entries in strictly increasing id order.
pub open spec fn sorted_ids(s: Seq<(String, PendingRequest)>) -> bool {
    forall|i: int, j: int| 0 <= i < j < s.len() ==> seq_lt((#[trigger] s[i]).0@, (#[trigger] s[j]).0@)
}

proof fn lemma_entries_map_dom(s: Seq<(String, PendingRequest)>, k: Seq<char>)
    ensures
        entries_map(s).contains_key(k) <==> exists|i: int| 0 <= i < s.len() && (#[trigger] s[i]).0@ == k,
    decreases s.len(),
{
    if s.len() > 0 {
        lemma_entries_map_dom(s.drop_last(), k);
        if entries_map(s.drop_last()).contains_key(k) {
            let i = choose|i: int| 0 <= i < s.drop_last().len() && (#[trigger] s.drop_last()[i]).0@ == k;
            assert(s[i] == s.drop_last()[i]);
        }
        if exists|i: int| 0 <= i < s.len() && (#[trigger] s[i]).0@ == k {
            let i = choose|i: int| 0 <= i < s.len() && (#[trigger] s[i]).0@ == k;
            if i < s.len() - 1 {
                assert(s.drop_last()[i] == s[i]);
            }
        }
    }
}

proof fn lemma_entries_map_value(s: Seq<(String, PendingRequest)>, i: int)
    requires
        distinct_ids(s),
        0 <= i < s.len(),
    ensures
        entries_map(s).contains_key(s[i].0@),
        entries_map(s)[s[i].0@] == s[i].1.method@,
    decreases s.len(),
{
    if i < s.len() - 1 {
        let d = s.drop_last();
        assert(d[i] == s[i]);
        assert(distinct_ids(d)) by {
            assert forall|a: int, b: int| 0 <= a < b < d.len() implies (#[trigger] d[a]).0@ != (#[trigger] d[b]).0@ by {
                assert(d[a] == s[a] && d[b] == s[b]);
            }
        }
        lemma_entries_map_value(d, i);
        assert(s[i].0@ != s.last().0@);
    }
}

proof fn lemma_entries_map_remove(s: Seq<(String, PendingRequest)>, i: int)
    requires
        distinct_ids(s),
        0 <= i < s.len(),
    ensures
        entries_map(s.remove(i)) =~= entries_map(s).remove(s[i].0@),
        distinct_ids(s.remove(i)),
    decreases s.len(),
{
    let r = s.remove(i);
    assert(distinct_ids(r)) by {
        assert forall|a: int, b: int| 0 <= a < b < r.len() implies (#[trigger] r[a]).0@ != (#[trigger] r[b]).0@ by {
            let a2 = if a < i { a } else { a + 1 };
            let b2 = if b < i { b } else { b + 1 };
            assert(r[a] == s[a2] && r[b] == s[b2]);
        }
    }
    let k = s[i].0@;
    assert forall|key: Seq<char>| entries_map(r).contains_key(key) <==> entries_map(s).remove(k).contains_key(key) by {
        lemma_entries_map_dom(r, key);
        lemma_entries_map_dom(s, key);
        if exists|j: int| 0 <= j < s.len() && (#[trigger] s[j]).0@ == key {
            let j = choose|j: int| 0 <= j < s.len() && (#[trigger] s[j]).0@ == key;
            if j < i {
                assert(r[j] == s[j]);
            } else if j > i {
                assert(r[j - 1] == s[j]);
            }
        }
        if exists|j: int| 0 <= j < r.len() && (#[trigger] r[j]).0@ == key {
            let j = choose|j: int| 0 <= j < r.len() && (#[trigger] r[j]).0@ == key;
            let j2 = if j < i { j } else { j + 1 };
            assert(r[j] == s[j2]);
        }
    }
    assert forall|key: Seq<char>| #[trigger] entries_map(r).contains_key(key) implies entries_map(r)[key] == entries_map(s)[key] by {
        lemma_entries_map_dom(r, key);
        let j = choose|j: int| 0 <= j < r.len() && (#[trigger] r[j]).0@ == key;
        let j2 = if j < i { j } else { j + 1 };
        assert(r[j] == s[j2]);
        lemma_entries_map_value(r, j);
        lemma_entries_map_value(s, j2);
    }
}

proof fn lemma_entries_map_push(s: Seq<(String, PendingRequest)>, e: (String, PendingRequest))
    ensures
        entries_map(s.push(e)) == entries_map(s).insert(e.0@, e.1.method@),
{
    assert(s.push(e).drop_last() =~= s);
}

/// Requests sent and not yet answered, keyed by request id.
pub struct PendingRequests {
    entries: Vec<(String, PendingRequest)>,
}

impl View for PendingRequests {
    type V = Map<Seq<char>, Seq<char>>;

    closed spec fn view(&self) -> Map<Seq<char>, Seq<char>> {
        entries_map(self.entries@)
    }
}

impl PendingRequests {
    #[verifier::type_invariant]
    closed spec fn wf(self) -> bool {
        distinct_ids(self.entries@)
    }

    pub fn new() -> (r: Self)
        ensures
            r@ == Map::<Seq<char>, Seq<char>>::empty(),
    {
        PendingRequests { entries: Vec::new() }
    }

    pub fn len(&self) -> (r: usize)
        ensures
            r == self@.len(),
            self@.dom().finite(),
    {
        proof {
            use_type_invariant(self);
            self.lemma_len();
        }
        self.entries.len()
    }

    proof fn lemma_len(&self)
        requires
            distinct_ids(self.entries@),
        ensures
            self@.dom().finite(),
            self@.len() == self.entries@.len(),
    {
        lemma_entries_map_len(self.entries@);
    }

    pub fn is_empty(&self) -> (r: bool)
        ensures
            r == (self@ == Map::<Seq<char>, Seq<char>>::empty()),
    {
        proof {
            use_type_invariant(self);
            self.lemma_len();
            if self.entries@.len() > 0 {
                lemma_entries_map_value(self.entries@, 0);
                assert(self@.contains_key(self.entries@[0].0@));
            } else {
                assert(self@ =~= Map::<Seq<char>, Seq<char>>::empty());
            }
        }
        self.entries.len() == 0
    }

    fn index_of(&self, id: &str) -> (r: Option<usize>)
        ensures
            match r {
                Some(i) => i < self.entries@.len() && self.entries@[i as int].0@ == id@,
                None => !self@.contains_key(id@),
            },
    {
        let n = self.entries.len();
        let mut i: usize = 0;
        while i < n
            invariant
                n == self.entries@.len(),
                i <= n,
                forall|k: int| 0 <= k < i ==> (#[trigger] self.entries@[k]).0@ != id@,
            decreases n - i,
        {
            if str_eq(self.entries[i].0.as_str(), id) {
                return Some(i);
            }
            i += 1;
        }
        proof { lemma_entries_map_dom(self.entries@, id@); }
        None
    }

    /// The request tracked under `id`.
    pub fn get(&self, id: &str) -> (r: Option<&PendingRequest>)
        ensures
            match r {
                Some(p) => self@.contains_key(id@) && self@[id@] == p.method@,
                None => !self@.contains_key(id@),
            },
    {
        proof { use_type_invariant(self); }
        match self.index_of(id) {
            Some(i) => {
                proof { lemma_entries_map_value(self.entries@, i as int); }
                Some(&self.entries[i].1)
            },
            None => None,
        }
    }

    /// Stop tracking `id`, handing back its request.
    pub fn remove(&mut self, id: &str) -> (r: Option<PendingRequest>)
        ensures
            final(self)@ == old(self)@.remove(id@),
            match r {
                Some(p) => old(self)@.contains_key(id@) && old(self)@[id@] == p.method@,
                None => !old(self)@.contains_key(id@),
            },
    {
        proof { use_type_invariant(&*self); }
        match self.index_of(id) {
            Some(i) => {
                proof {
                    lemma_entries_map_value(self.entries@, i as int);
                    lemma_entries_map_remove(self.entries@, i as int);
                }
                let mut entries: Vec<(String, PendingRequest)> = Vec::new();
                std::mem::swap(&mut entries, &mut self.entries);
                let (_, req) = entries.remove(i);
                self.entries = entries;
                Some(req)
            },
            None => {
                assert(old(self)@.remove(id@) =~= old(self)@);
                None
            },
        }
    }

    /// Track `id` as a request for `req.method`, replacing any request
    /// already tracked under the same id.
    pub fn insert(&mut self, id: String, req: PendingRequest)
        ensures
            final(self)@ == old(self)@.insert(id@, req.method@),
    {
        let _ = self.remove(id.as_str());
        proof { use_type_invariant(&*self); }
        let ghost before = self.entries@;
        let ghost e = (id, req);
        proof {
            lemma_entries_map_push(before, e);
            lemma_entries_map_dom(before, id@);
            assert(distinct_ids(before.push(e))) by {
                assert forall|a: int, b: int| 0 <= a < b < before.push(e).len() implies (#[trigger] before.push(e)[a]).0@ != (#[trigger] before.push(e)[b]).0@ by {
                    if b == before.len() {
                        assert(before.push(e)[a] == before[a]);
                    } else {
                        assert(before.push(e)[a] == before[a] && before.push(e)[b] == before[b]);
                    }
                }
            }
        }
        let mut entries: Vec<(String, PendingRequest)> = Vec::new();
        std::mem::swap(&mut entries, &mut self.entries);
        entries.push((id, req));
        self.entries = entries;
        assert(old(self)@.remove(e.0@).insert(e.0@, e.1.method@) =~= old(self)@.insert(e.0@, e.1.method@));
    }

    /// Empties the table, handing back every entry in increasing id order.
    pub fn drain_sorted(&mut self) -> (r: Vec<(String, PendingRequest)>)
        ensures
            final(self)@ == Map::<Seq<char>, Seq<char>>::empty(),
            sorted_ids(r@),
            distinct_ids(r@),
            entries_map(r@) == old(self)@,
            r@.len() == old(self)@.len(),
    {
        proof { use_type_invariant(&*self); self.lemma_len(); }
        let mut entries: Vec<(String, PendingRequest)> = Vec::new();
        std::mem::swap(&mut entries, &mut self.entries);
        let ghost orig = entries@;
        let mut out: Vec<(String, PendingRequest)> = Vec::new();
        while entries.len() > 0
            invariant
                distinct_ids(entries@),
                distinct_ids(out@),
                sorted_ids(out@),
                forall|i: int, j: int| 0 <= i < out@.len() && 0 <= j < entries@.len()
                    ==> seq_lt((#[trigger] out@[i]).0@, (#[trigger] entries@[j]).0@),
                entries_map(orig) =~= entries_map(out@).union_prefer_right(entries_map(entries@)),
                forall|k: Seq<char>| !(entries_map(out@).contains_key(k) && entries_map(entries@).contains_key(k)),
                out@.len() + entries@.len() == orig.len(),
            decreases entries@.len(),
        {
            let n = entries.len();
            let mut best: usize = 0;
            let mut j: usize = 1;
            while j < n
                invariant
                    n == entries@.len(),
                    distinct_ids(entries@),
                    best < n,
                    1 <= j <= n,
                    forall|k: int| 0 <= k < j && k != best ==> seq_lt(entries@[best as int].0@, (#[trigger] entries@[k]).0@),
                decreases n - j,
            {
                let lt = str_lt(entries[j].0.as_str(), entries[best].0.as_str());
                proof {
                    lemma_seq_lt_total(entries@[j as int].0@, entries@[best as int].0@);
                    if lt {
                        assert forall|k: int| 0 <= k < j + 1 && k != j implies seq_lt(entries@[j as int].0@, (#[trigger] entries@[k]).0@) by {
                            if k != best {
                                lemma_seq_lt_trans(entries@[j as int].0@, entries@[best as int].0@, entries@[k].0@);
                            }
                        }
                    }
                }
                if lt {
                    best = j;
                }
                j += 1;
            }
            let ghost before = entries@;
            let ghost out_before = out@;
            proof {
                lemma_entries_map_remove(before, best as int);
                lemma_entries_map_value(before, best as int);
            }
            let e = entries.remove(best);
            proof {
                lemma_entries_map_push(out_before, e);
                lemma_entries_map_dom(out_before, e.0@);
                assert forall|i: int| 0 <= i < out_before.len() implies seq_lt((#[trigger] out_before[i]).0@, e.0@) by {
                    assert(before[best as int] == e);
                }
                assert forall|k: int| 0 <= k < entries@.len() implies seq_lt(e.0@, (#[trigger] entries@[k]).0@) by {
                    let k2 = if k < best { k } else { k + 1 };
                    assert(entries@[k] == before[k2]);
                }
                assert forall|i: int, k: int| 0 <= i < out_before.len() && 0 <= k < entries@.len()
                    implies seq_lt((#[trigger] out_before[i]).0@, (#[trigger] entries@[k]).0@) by {
                    let k2 = if k < best { k } else { k + 1 };
                    assert(entries@[k] == before[k2]);
                }
            }
            out.push(e);
            proof {
                let o = out@;
                assert(o.drop_last() =~= out_before);
                assert forall|a: int, b: int| 0 <= a < b < o.len() implies seq_lt((#[trigger] o[a]).0@, (#[trigger] o[b]).0@) by {
                    assert(o[a] == out_before[a]);
                    if b < out_before.len() {
                        assert(o[b] == out_before[b]);
                    }
                }
                assert forall|a: int, b: int| 0 <= a < b < o.len() implies (#[trigger] o[a]).0@ != (#[trigger] o[b]).0@ by {
                    assert(o[a] == out_before[a]);
                    lemma_seq_lt_total(o[a].0@, o[b].0@);
                    if b < out_before.len() {
                        assert(o[b] == out_before[b]);
                    }
                }
                assert forall|i: int, k: int| 0 <= i < o.len() && 0 <= k < entries@.len()
                    implies seq_lt((#[trigger] o[i]).0@, (#[trigger] entries@[k]).0@) by {
                    if i < out_before.len() {
                        assert(o[i] == out_before[i]);
                    }
                }
                assert forall|k: Seq<char>| !(entries_map(o).contains_key(k) && entries_map(entries@).contains_key(k)) by {
                    if entries_map(o).contains_key(k) && entries_map(entries@).contains_key(k) {
                        if k == e.0@ {
                        } else {
                            assert(entries_map(out_before).contains_key(k));
                            assert(entries_map(before).contains_key(k));
                        }
                    }
                }
            }
        }
        assert(entries_map(entries@) =~= Map::<Seq<char>, Seq<char>>::empty());
        assert(entries_map(self.entries@) =~= Map::<Seq<char>, Seq<char>>::empty());
        assert(entries_map(orig) =~= entries_map(out@));
        proof { lemma_entries_map_len(out@); }
        out
    }
}

proof fn lemma_entries_map_len(s: Seq<(String, PendingRequest)>)
    requires
        distinct_ids(s),
    ensures
        entries_map(s).dom().finite(),
        entries_map(s).len() == s.len(),
    decreases s.len(),
{
    if s.len() > 0 {
        let d = s.drop_last();
        assert(distinct_ids(d)) by {
            assert forall|a: int, b: int| 0 <= a < b < d.len() implies (#[trigger] d[a]).0@ != (#[trigger] d[b]).0@ by {
                assert(d[a] == s[a] && d[b] == s[b]);
            }
        }
        lemma_entries_map_len(d);
        lemma_entries_map_dom(d, s.last().0@);
        if entries_map(d).contains_key(s.last().0@) {
            let i = choose|i: int| 0 <= i < d.len() && (#[trigger] d[i]).0@ == s.last().0@;
            assert(d[i] == s[i]);
        }
    }
}


/// An error shown to the user: a machine-readable code and a message.
#[derive(Debug, Clone, PartialEq, Eq)]
pub struct AppUiError {
    pub code: String,
    pub message: String,
}

/// What one protocol frame means to the client.
#[derive(Debug)]
pub enum RpcEvent {
    /// A frame that could not be used, or an error the server answered.
    Error(AppUiError),
    /// A server notification and its parameters (`null` when absent).
    Notification { method: String, params: JsonValue },
    /// The result of a tracked request, with the method it was sent for.
    Response { id: String, method: String, result: JsonValue },
}

/// The meaning of a frame, in mathematical terms.
pub enum RpcOutcome {
    Ignored,
    Error(Seq<char>, Seq<char>),
    Notification(Seq<char>, JsonValue),
    Response(Seq<char>, Seq<char>, JsonValue),
}

pub open spec fn outcome_of(r: Option<RpcEvent>) -> RpcOutcome {
    match r {
        None => RpcOutcome::Ignored,
        Some(RpcEvent::Error(e)) => RpcOutcome::Error(e.code@, e.message@),
        Some(RpcEvent::Notification { method, params }) => RpcOutcome::Notification(method@, params),
        Some(RpcEvent::Response { id, method, result }) => RpcOutcome::Response(id@, method@, result),
    }
}

pub open spec fn malformed(message: Seq<char>) -> RpcOutcome {
    RpcOutcome::Error("malformed_frame"@, message)
}

/// The protocol version every frame must declare.
pub open spec fn jsonrpc_version() -> Seq<char> {
    "2.0"@
}

/// The message for a frame whose `jsonrpc` member is wrong or missing.
pub open spec fn spec_validate_jsonrpc(fields: Seq<(String, JsonValue)>) -> Option<Seq<char>> {
    match field_get(fields, "jsonrpc"@) {
        Some(JsonValue::String(v)) => if v@ == jsonrpc_version() {
            None
        } else {
            Some("unsupported JSON-RPC version: "@ + v@)
        },
        Some(_) => Some("UI protocol frame jsonrpc field must be \"2.0\""@),
        None => Some("UI protocol frame is missing jsonrpc \"2.0\""@),
    }
}

/// The id of a response: a string, an integer's digits, or `None` for
/// `null`; anything else, or no id at all, is the error message.
pub open spec fn spec_response_id(fields: Seq<(String, JsonValue)>) -> Result<Option<Seq<char>>, Seq<char>> {
    match field_get(fields, "id"@) {
        None => Err("UI protocol response is missing id"@),
        Some(JsonValue::Null) => Ok(None),
        Some(JsonValue::String(s)) => Ok(Some(s@)),
        Some(JsonValue::Number(n)) => if n.integral {
            Ok(Some(n.repr@))
        } else {
            Err("UI protocol response id must be a string, integer, or null"@)
        },
        Some(_) => Err("UI protocol response id must be a string, integer, or null"@),
    }
}

/// Compact JSON text of a value that is not a string.
pub open spec fn non_string_json_text(v: JsonValue) -> Seq<char> {
    match v {
        JsonValue::Null => "null"@,
        JsonValue::Bool(b) => if b { "true"@ } else { "false"@ },
        JsonValue::Number(n) => n.repr@,
        JsonValue::String(s) => s@,
        JsonValue::Array(_, text) => text@,
        JsonValue::Object(_, text) => text@,
    }
}

/// A string member of `v.data` that is not blank.
pub open spec fn data_string(v: JsonValue, key: Seq<char>) -> Option<Seq<char>> {
    match spec_get(v, "data"@) {
        Some(data) => match spec_as_str(spec_get(data, key)) {
            Some(s) => if trim(s).len() > 0 { Some(s) } else { None },
            None => None,
        },
        None => None,
    }
}

/// Error code of a JSON-RPC error object: a non-blank `data.kind`, else
/// `code` (its text when it is not a string), else `json_rpc_error`.
pub open spec fn spec_rpc_error_code(error: JsonValue) -> Seq<char> {
    match data_string(error, "kind"@) {
        Some(kind) => kind,
        None => match spec_get(error, "code"@) {
            Some(JsonValue::String(s)) => s@,
            Some(c) => non_string_json_text(c),
            None => "json_rpc_error"@,
        },
    }
}

/// Message of a JSON-RPC error object: a non-blank `data.message`, else
/// a string `message`, else `JSON-RPC error`.
pub open spec fn spec_rpc_error_message(error: JsonValue) -> Seq<char> {
    match data_string(error, "message"@) {
        Some(m) => m,
        None => match spec_as_str(spec_get(error, "message"@)) {
            Some(m) => m,
            None => "JSON-RPC error"@,
        },
    }
}

/// An error response: its code and message, the message prefixed with
/// the request it answers; a tracked request stops being tracked.
pub open spec fn spec_error_response(fields: Seq<(String, JsonValue)>, pending: Map<Seq<char>, Seq<char>>) -> (RpcOutcome, Map<Seq<char>, Seq<char>>) {
    match spec_response_id(fields) {
        Err(m) => (malformed(m), pending),
        Ok(rid) => match field_get(fields, "error"@) {
            None => (malformed("UI protocol response is missing error field"@), pending),
            Some(e) => if !(e is Object) {
                (malformed("UI protocol error response error field must be an object"@), pending)
            } else {
                let code = spec_rpc_error_code(e);
                let msg = spec_rpc_error_message(e);
                match rid {
                    None => (RpcOutcome::Error(code, msg), pending),
                    Some(id) => if pending.contains_key(id) {
                        (RpcOutcome::Error(code, pending[id] + " request "@ + id + " failed: "@ + msg), pending.remove(id))
                    } else {
                        (RpcOutcome::Error(code, "request "@ + id + " failed: "@ + msg), pending)
                    },
                }
            },
        },
    }
}

/// A success response: the result of the tracked request it answers,
/// which stops being tracked; an answer to no tracked request is ignored.
pub open spec fn spec_success_response(fields: Seq<(String, JsonValue)>, pending: Map<Seq<char>, Seq<char>>) -> (RpcOutcome, Map<Seq<char>, Seq<char>>) {
    match spec_response_id(fields) {
        Err(m) => (malformed(m), pending),
        Ok(None) => (malformed("UI protocol success response id must not be null"@), pending),
        Ok(Some(id)) => match field_get(fields, "result"@) {
            None => (malformed("UI protocol response is missing result field"@), pending),
            Some(result) => if pending.contains_key(id) {
                (RpcOutcome::Response(id, pending[id], result), pending.remove(id))
            } else {
                (RpcOutcome::Ignored, pending)
            },
        },
    }
}

/// The meaning of a JSON-RPC 2.0 object frame and the tracked requests
/// left afterwards.
pub open spec fn spec_rpc_fields(fields: Seq<(String, JsonValue)>, pending: Map<Seq<char>, Seq<char>>) -> (RpcOutcome, Map<Seq<char>, Seq<char>>) {
    match spec_validate_jsonrpc(fields) {
        Some(m) => (RpcOutcome::Error("invalid_jsonrpc"@, m), pending),
        None => {
            let has_method = field_get(fields, "method"@).is_some();
            let has_id = field_get(fields, "id"@).is_some();
            let has_result = field_get(fields, "result"@).is_some();
            let has_error = field_get(fields, "error"@).is_some();
            if has_method {
                if has_id || has_result || has_error {
                    (malformed("UI protocol notification must not include id, result, or error"@), pending)
                } else {
                    match spec_as_str(field_get(fields, "method"@)) {
                        None => (malformed("UI protocol notification method must be a string"@), pending),
                        Some(m) => if m == "server/heartbeat"@ {
                            (RpcOutcome::Ignored, pending)
                        } else {
                            let params = match field_get(fields, "params"@) {
                                Some(p) => p,
                                None => JsonValue::Null,
                            };
                            (RpcOutcome::Notification(m, params), pending)
                        },
                    }
                }
            } else if has_result || has_error || has_id {
                if !has_id {
                    (malformed("UI protocol response is missing id"@), pending)
                } else if has_result == has_error {
                    (malformed("UI protocol response must include exactly one of result or error"@), pending)
                } else if has_error {
                    spec_error_response(fields, pending)
                } else {
                    spec_success_response(fields, pending)
                }
            } else {
                (malformed("unsupported UI protocol frame: expected JSON-RPC notification or response"@), pending)
            }
        },
    }
}

/// The meaning of a parsed frame and the tracked requests left afterwards.
pub open spec fn spec_rpc_value(v: JsonValue, pending: Map<Seq<char>, Seq<char>>) -> (RpcOutcome, Map<Seq<char>, Seq<char>>) {
    match v {
        JsonValue::Object(fields, _) => spec_rpc_fields(fields@, pending),
        _ => (malformed("UI protocol frame must be a JSON object"@), pending),
    }
}

fn app_error(code: &str, message: String) -> (r: AppUiError)
    ensures
        r.code@ == code@,
        r.message@ == message@,
{
    AppUiError { code: String::from_str(code), message }
}

fn malformed_event(message: &str) -> (r: Option<RpcEvent>)
    ensures
        outcome_of(r) == malformed(message@),
{
    proof { reveal_strlit("malformed_frame"); }
    Some(RpcEvent::Error(app_error("malformed_frame", String::from_str(message))))
}

/// Check the `jsonrpc` member (see [`spec_validate_jsonrpc`]).
pub fn validate_jsonrpc_v2(fields: &Vec<(String, JsonValue)>) -> (r: Option<String>)
    ensures
        match (r, spec_validate_jsonrpc(fields@)) {
            (Some(m), Some(s)) => m@ == s,
            (None, None) => true,
            _ => false,
        },
{
    match fields_get(fields, "jsonrpc") {
        Some(JsonValue::String(version)) => {
            if str_eq(version.as_str(), "2.0") {
                None
            } else {
                let mut m = String::from_str("unsupported JSON-RPC version: ");
                m.append(version.as_str());
                Some(m)
            }
        },
        Some(_) => Some(String::from_str("UI protocol frame jsonrpc field must be \"2.0\"")),
        None => Some(String::from_str("UI protocol frame is missing jsonrpc \"2.0\"")),
    }
}

/// The id of a response (see [`spec_response_id`]).
pub fn response_id(fields: &Vec<(String, JsonValue)>) -> (r: Result<Option<String>, String>)
    ensures
        match (r, spec_response_id(fields@)) {
            (Ok(Some(a)), Ok(Some(b))) => a@ == b,
            (Ok(None), Ok(None)) => true,
            (Err(a), Err(b)) => a@ == b,
            _ => false,
        },
{
    match fields_get(fields, "id") {
        None => Err(String::from_str("UI protocol response is missing id")),
        Some(JsonValue::Null) => Ok(None),
        Some(JsonValue::String(value)) => Ok(Some(value.clone())),
        Some(JsonValue::Number(n)) => {
            if n.integral {
                Ok(Some(n.repr.clone()))
            } else {
                Err(String::from_str("UI protocol response id must be a string, integer, or null"))
            }
        },
        Some(_) => Err(String::from_str("UI protocol response id must be a string, integer, or null")),
    }
}

fn is_blank(s: &str) -> (r: bool)
    ensures
        r == (trim(s@).len() == 0),
{
    let v = str_chars(s);
    let (a, b) = trim_bounds(&v, 0, v.len());
    assert(v@.subrange(0, v@.len() as int) =~= v@);
    a == b
}

fn data_string_of(error: &JsonValue, key: &str) -> (r: Option<String>)
    ensures
        match (r, data_string(*error, key@)) {
            (Some(a), Some(b)) => a@ == b,
            (None, None) => true,
            _ => false,
        },
{
    match get(error, "data") {
        Some(data) => match as_str(get(data, key)) {
            Some(s) => if is_blank(s) {
                None
            } else {
                Some(String::from_str(s))
            },
            None => None,
        },
        None => None,
    }
}

fn non_string_text(v: &JsonValue) -> (r: String)
    ensures
        r@ == non_string_json_text(*v),
{
    match v {
        JsonValue::Null => String::from_str("null"),
        JsonValue::Bool(b) => if *b {
            String::from_str("true")
        } else {
            String::from_str("false")
        },
        JsonValue::Number(n) => n.repr.clone(),
        JsonValue::String(s) => s.clone(),
        JsonValue::Array(_, text) => text.clone(),
        JsonValue::Object(_, text) => text.clone(),
    }
}

/// Error code of a JSON-RPC error object (see [`spec_rpc_error_code`]).
pub fn rpc_error_code(error: &JsonValue) -> (r: String)
    ensures
        r@ == spec_rpc_error_code(*error),
{
    match data_string_of(error, "kind") {
        Some(kind) => kind,
        None => match get(error, "code") {
            Some(JsonValue::String(s)) => s.clone(),
            Some(c) => non_string_text(c),
            None => String::from_str("json_rpc_error"),
        },
    }
}

/// Message of a JSON-RPC error object (see [`spec_rpc_error_message`]).
pub fn rpc_error_message(error: &JsonValue) -> (r: String)
    ensures
        r@ == spec_rpc_error_message(*error),
{
    match data_string_of(error, "message") {
        Some(m) => m,
        None => match as_str(get(error, "message")) {
            Some(m) => String::from_str(m),
            None => String::from_str("JSON-RPC error"),
        },
    }
}

/// Turn an error response into the error shown to the user (see
/// [`spec_error_response`]).
pub fn error_response_to_app_event(fields: &Vec<(String, JsonValue)>, pending: &mut PendingRequests) -> (r: AppUiError)
    ensures
        RpcOutcome::Error(r.code@, r.message@) == spec_error_response(fields@, old(pending)@).0,
        final(pending)@ == spec_error_response(fields@, old(pending)@).1,
{
    let request_id = match response_id(fields) {
        Ok(id) => id,
        Err(m) => {
            proof { reveal_strlit("malformed_frame"); }
            return app_error("malformed_frame", m);
        },
    };
    let error = match fields_get(fields, "error") {
        Some(e) => e,
        None => {
            proof { reveal_strlit("malformed_frame"); }
            return app_error("malformed_frame", String::from_str("UI protocol response is missing error field"));
        },
    };
    let is_object = match error {
        JsonValue::Object(..) => true,
        _ => false,
    };
    if !is_object {
        proof { reveal_strlit("malformed_frame"); }
        return app_error(
            "malformed_frame",
            String::from_str("UI protocol error response error field must be an object"),
        );
    }
    let pending_request = match &request_id {
        Some(id) => pending.remove(id.as_str()),
        None => None,
    };
    let code = rpc_error_code(error);
    let message = rpc_error_message(error);
    let message = match (pending_request, request_id) {
        (Some(request), Some(id)) => {
            let mut m = request.method;
            m.append(" request ");
            m.append(id.as_str());
            m.append(" failed: ");
            m.append(message.as_str());
            m
        },
        (None, Some(id)) => {
            let mut m = String::from_str("request ");
            m.append(id.as_str());
            m.append(" failed: ");
            m.append(message.as_str());
            m
        },
        (_, None) => message,
    };
    proof {
        reveal_strlit(" request ");
        reveal_strlit(" failed: ");
        reveal_strlit("request ");
    }
    AppUiError { code, message }
}

/// Move the first member named `key` out of `fields`.
fn take_field(fields: &mut Vec<(String, JsonValue)>, key: &str) -> (r: Option<JsonValue>)
    ensures
        r == field_get(old(fields)@, key@),
{
    let n = fields.len();
    let mut i: usize = 0;
    assert(fields@.skip(0) =~= fields@);
    while i < n
        invariant
            n == fields.len(),
            fields@ == old(fields)@,
            i <= n,
            field_get(fields@, key@) == field_get(fields@.skip(i as int), key@),
        decreases n - i,
    {
        assert(fields@.skip(i as int)[0] == fields@[i as int]);
        assert(fields@.skip(i as int).drop_first() =~= fields@.skip(i + 1));
        if str_eq(fields[i].0.as_str(), key) {
            let (_, v) = fields.remove(i);
            return Some(v);
        }
        i += 1;
    }
    assert(fields@.skip(n as int).len() == 0);
    None
}

/// Turn a success response into the result of the request it answers
/// (see [`spec_success_response`]).
pub fn success_response_to_app_event(fields: Vec<(String, JsonValue)>, pending: &mut PendingRequests) -> (r: Option<RpcEvent>)
    ensures
        outcome_of(r) == spec_success_response(fields@, old(pending)@).0,
        final(pending)@ == spec_success_response(fields@, old(pending)@).1,
{
    let mut fields = fields;
    let ghost orig = fields@;
    let id = match response_id(&fields) {
        Ok(Some(id)) => id,
        Ok(None) => {
            return malformed_event("UI protocol success response id must not be null");
        },
        Err(m) => {
            proof { reveal_strlit("malformed_frame"); }
            return Some(RpcEvent::Error(app_error("malformed_frame", m)));
        },
    };
    let result = match take_field(&mut fields, "result") {
        Some(result) => result,
        None => {
            return malformed_event("UI protocol response is missing result field");
        },
    };
    match pending.remove(id.as_str()) {
        Some(request) => Some(RpcEvent::Response { id, method: request.method, result }),
        None => None,
    }
}

/// The meaning of one parsed frame; responses are matched against, and
/// removed from, the tracked requests (see [`spec_rpc_value`]).
pub fn rpc_value_to_app_event(value: JsonValue, pending: &mut PendingRequests) -> (r: Option<RpcEvent>)
    ensures
        outcome_of(r) == spec_rpc_value(value, old(pending)@).0,
        final(pending)@ == spec_rpc_value(value, old(pending)@).1,
{
    let mut fields = match value {
        JsonValue::Object(fields, _) => fields,
        _ => {
            return malformed_event("UI protocol frame must be a JSON object");
        },
    };
    let ghost orig = fields@;
    if let Some(m) = validate_jsonrpc_v2(&fields) {
        proof { reveal_strlit("invalid_jsonrpc"); }
        return Some(RpcEvent::Error(app_error("invalid_jsonrpc", m)));
    }
    let has_method = fields_get(&fields, "method").is_some();
    let has_id = fields_get(&fields, "id").is_some();
    let has_result = fields_get(&fields, "result").is_some();
    let has_error = fields_get(&fields, "error").is_some();
    if has_method {
        if has_id || has_result || has_error {
            return malformed_event("UI protocol notification must not include id, result, or error");
        }
        let method = match as_str(fields_get(&fields, "method")) {
            Some(m) => String::from_str(m),
            None => {
                return malformed_event("UI protocol notification method must be a string");
            },
        };
        proof { reveal_strlit("server/heartbeat"); }
        if str_eq(method.as_str(), "server/heartbeat") {
            return None;
        }
        let params = match take_field(&mut fields, "params") {
            Some(p) => p,
            None => JsonValue::Null,
        };
        return Some(RpcEvent::Notification { method, params });
    }
    if has_result || has_error || has_id {
        if !has_id {
            return malformed_event("UI protocol response is missing id");
        }
        if has_result == has_error {
            return malformed_event("UI protocol response must include exactly one of result or error");
        }
        if has_error {
            let e = error_response_to_app_event(&fields, pending);
            return Some(RpcEvent::Error(e));
        }
        return success_response_to_app_event(fields, pending);
    }
    malformed_event("unsupported UI protocol frame: expected JSON-RPC notification or response")
}


/// How `{:?}` prints a string: quoted, with escapes.
pub uninterp spec fn debug_text(s: Seq<char>) -> Seq<char>;

/// `format!("{:?}", s)`: the string quoted and escaped as `Debug` prints it.
#[verifier::external_body]
fn debug_quoted(s: &str) -> (r: String)
    ensures
        r@ == debug_text(s@),
{
    format!("{:?}", s)
}

/// Characters of a frame quoted in a parse error.
pub open spec fn preview_len() -> nat {
    80
}

/// The meaning of a received text frame. `parsed` is the frame parsed as
/// JSON, or the parser's error message; `max_frame_bytes` bounds the
/// frame's UTF-8 length.
pub open spec fn spec_rpc_text(
    text: Seq<char>,
    text_bytes: nat,
    parsed: Result<JsonValue, Seq<char>>,
    max_frame_bytes: nat,
    pending: Map<Seq<char>, Seq<char>>,
) -> (RpcOutcome, Map<Seq<char>, Seq<char>>) {
    if text_bytes > max_frame_bytes {
        (
            RpcOutcome::Error(
                "frame_too_large"@,
                "UI protocol frame is "@ + dec(text_bytes) + " bytes; max is "@ + dec(max_frame_bytes),
            ),
            pending,
        )
    } else {
        match parsed {
            Err(e) => {
                let keep = if text.len() < preview_len() { text.len() } else { preview_len() };
                (
                    RpcOutcome::Error(
                        "malformed_json"@,
                        "UI protocol frame is not JSON: "@ + e + "; preview="@ + debug_text(text.take(keep as int)),
                    ),
                    pending,
                )
            },
            Ok(v) => spec_rpc_value(v, pending),
        }
    }
}

/// Decode one received text frame (see [`spec_rpc_text`]).
pub fn rpc_text_to_app_event_with_pending(
    text: &str,
    parsed: Result<JsonValue, String>,
    max_frame_bytes: usize,
    pending: &mut PendingRequests,
) -> (r: Option<RpcEvent>)
    ensures
        outcome_of(r) == spec_rpc_text(
            text@,
            text.len() as nat,
            match parsed { Ok(v) => Ok(v), Err(e) => Err(e@) },
            max_frame_bytes as nat,
            old(pending)@,
        ).0,
        final(pending)@ == spec_rpc_text(
            text@,
            text.len() as nat,
            match parsed { Ok(v) => Ok(v), Err(e) => Err(e@) },
            max_frame_bytes as nat,
            old(pending)@,
        ).1,
{
    let len = text.len();
    if len > max_frame_bytes {
        let mut m = String::from_str("UI protocol frame is ");
        m.append(usize_decimal(len).as_str());
        m.append(" bytes; max is ");
        m.append(usize_decimal(max_frame_bytes).as_str());
        proof {
            reveal_strlit("frame_too_large");
            reveal_strlit("UI protocol frame is ");
            reveal_strlit(" bytes; max is ");
        }
        return Some(RpcEvent::Error(app_error("frame_too_large", m)));
    }
    match parsed {
        Err(e) => {
            let v = str_chars(text);
            let keep = if v.len() < 80 { v.len() } else { 80 };
            let preview = string_from_range(&v, 0, keep);
            assert(v@.subrange(0, keep as int) =~= text@.take(keep as int));
            let mut m = String::from_str("UI protocol frame is not JSON: ");
            m.append(e.as_str());
            m.append("; preview=");
            m.append(debug_quoted(preview.as_str()).as_str());
            proof {
                reveal_strlit("malformed_json");
                reveal_strlit("UI protocol frame is not JSON: ");
                reveal_strlit("; preview=");
            }
            Some(RpcEvent::Error(app_error("malformed_json", m)))
        },
        Ok(value) => rpc_value_to_app_event(value, pending),
    }
}

/// Decode a text frame with no request awaiting an answer: every success
/// response is then dropped.
pub fn rpc_text_to_app_event(text: &str, parsed: Result<JsonValue, String>, max_frame_bytes: usize) -> (r: Option<RpcEvent>)
    ensures
        outcome_of(r) == spec_rpc_text(
            text@,
            text.len() as nat,
            match parsed { Ok(v) => Ok(v), Err(e) => Err(e@) },
            max_frame_bytes as nat,
            Map::<Seq<char>, Seq<char>>::empty(),
        ).0,
{
    let mut pending = PendingRequests::new();
    rpc_text_to_app_event_with_pending(text, parsed, max_frame_bytes, &mut pending)
}

/// Prefix of every request id this client issues.
pub open spec fn request_id_text(n: nat) -> Seq<char> {
    "tui-"@ + dec(n)
}

/// Request tracking for one protocol connection: the requests awaiting
/// an answer and the counter that numbers new requests.
pub struct ProtocolExchange {
    pending_requests: PendingRequests,
    next_request_id: u64,
}

impl ProtocolExchange {
    /// Tracked requests: id to method.
    pub closed spec fn pending(&self) -> Map<Seq<char>, Seq<char>> {
        self.pending_requests@
    }

    /// Number of request ids issued so far.
    pub closed spec fn issued(&self) -> nat {
        self.next_request_id as nat
    }

    pub fn new() -> (r: Self)
        ensures
            r.pending() == Map::<Seq<char>, Seq<char>>::empty(),
            r.issued() == 0,
    {
        ProtocolExchange { pending_requests: PendingRequests::new(), next_request_id: 0 }
    }

    /// Number of request ids issued so far.
    pub fn requests_issued(&self) -> (r: u64)
        ensures
            r as nat == self.issued(),
    {
        self.next_request_id
    }

    /// Number of requests awaiting an answer.
    pub fn pending_len(&self) -> (r: usize)
        ensures
            r == self.pending().len(),
            self.pending().dom().finite(),
    {
        self.pending_requests.len()
    }

    /// Stop tracking `id`.
    pub fn untrack(&mut self, id: &str)
        ensures
            final(self).pending() == old(self).pending().remove(id@),
            final(self).issued() == old(self).issued(),
    {
        let _ = self.pending_requests.remove(id);
    }

    /// Issue the next request id, `tui-1`, `tui-2`, ...
    pub fn next_request_id(&mut self) -> (r: String)
        requires
            old(self).issued() < u64::MAX,
        ensures
            final(self).issued() == old(self).issued() + 1,
            r@ == request_id_text(final(self).issued()),
            final(self).pending() == old(self).pending(),
    {
        self.next_request_id = self.next_request_id + 1;
        let mut id = String::from_str("tui-");
        id.append(u64_decimal(self.next_request_id).as_str());
        proof { reveal_strlit("tui-"); }
        id
    }

    /// Issue a request id for a call of `method` and track it until its
    /// answer arrives.
    pub fn track_request(&mut self, method: &str) -> (r: String)
        requires
            old(self).issued() < u64::MAX,
        ensures
            final(self).issued() == old(self).issued() + 1,
            r@ == request_id_text(final(self).issued()),
            final(self).pending() == old(self).pending().insert(r@, method@),
    {
        let request_id = self.next_request_id();
        self.pending_requests.insert(request_id.clone(), PendingRequest { method: String::from_str(method) });
        request_id
    }

    /// Decode one received text frame against the tracked requests (see
    /// [`spec_rpc_text`]).
    pub fn decode_rpc_text(
        &mut self,
        text: &str,
        parsed: Result<JsonValue, String>,
        max_frame_bytes: usize,
    ) -> (r: Option<RpcEvent>)
        ensures
            outcome_of(r) == spec_rpc_text(
                text@,
                text.len() as nat,
                match parsed { Ok(v) => Ok(v), Err(e) => Err(e@) },
                max_frame_bytes as nat,
                old(self).pending(),
            ).0,
            final(self).pending() == spec_rpc_text(
                text@,
                text.len() as nat,
                match parsed { Ok(v) => Ok(v), Err(e) => Err(e@) },
                max_frame_bytes as nat,
                old(self).pending(),
            ).1,
            final(self).issued() == old(self).issued(),
    {
        rpc_text_to_app_event_with_pending(text, parsed, max_frame_bytes, &mut self.pending_requests)
    }

    /// Give up on every tracked request: one `request_cancelled` error per
    /// request, in increasing id order, and nothing left tracked.
    pub fn cancel_pending_requests(&mut self, reason: &str) -> (r: Vec<AppUiError>)
        ensures
            final(self).pending() == Map::<Seq<char>, Seq<char>>::empty(),
            final(self).issued() == old(self).issued(),
            r@.len() == old(self).pending().len(),
            exists|s: Seq<(String, PendingRequest)>|
                sorted_ids(s) && distinct_ids(s) && entries_map(s) == old(self).pending() && s.len() == r@.len()
                && forall|i: int| 0 <= i < s.len() ==> (#[trigger] r@[i]).code@ == "request_cancelled"@
                    && r@[i].message@ == cancel_message(s[i].1.method@, s[i].0@, reason@),
    {
        let drained = self.pending_requests.drain_sorted();
        let mut out: Vec<AppUiError> = Vec::new();
        let n = drained.len();
        let mut i: usize = 0;
        proof {
            reveal_strlit("request_cancelled");
            reveal_strlit(" request ");
            reveal_strlit(" cancelled: ");
        }
        while i < n
            invariant
                n == drained@.len(),
                i <= n,
                out@.len() == i,
                forall|k: int| 0 <= k < i ==> (#[trigger] out@[k]).code@ == "request_cancelled"@
                    && out@[k].message@ == cancel_message(drained@[k].1.method@, drained@[k].0@, reason@),
            decreases n - i,
        {
            let mut m = drained[i].1.method.clone();
            m.append(" request ");
            m.append(drained[i].0.as_str());
            m.append(" cancelled: ");
            m.append(reason);
            out.push(app_error("request_cancelled", m));
            i += 1;
        }
        out
    }
}

/// The message of a cancelled request.
pub open spec fn cancel_message(method: Seq<char>, id: Seq<char>, reason: Seq<char>) -> Seq<char> {
    method + " request "@ + id + " cancelled: "@ + reason
}


/// A success response to a tracked request yields that request's result
/// together with the method it was sent for, and only that request stops
/// being tracked.
pub proof fn law_response_answers_tracked_request(
    fields: Seq<(String, JsonValue)>,
    pending: Map<Seq<char>, Seq<char>>,
    id: Seq<char>,
    method: Seq<char>,
    result: JsonValue,
)
    requires
        spec_validate_jsonrpc(fields).is_none(),
        field_get(fields, "method"@).is_none(),
        field_get(fields, "error"@).is_none(),
        spec_response_id(fields) == Ok::<Option<Seq<char>>, Seq<char>>(Some(id)),
        field_get(fields, "result"@) == Some(result),
    ensures
        spec_rpc_fields(fields, pending.insert(id, method))
            == (RpcOutcome::Response(id, method, result), pending.remove(id)),
{
    assert(pending.insert(id, method).remove(id) =~= pending.remove(id));
}

/// A success response that answers no tracked request is dropped and
/// leaves the tracked requests as they were.
pub proof fn law_untracked_success_is_ignored(
    fields: Seq<(String, JsonValue)>,
    pending: Map<Seq<char>, Seq<char>>,
    id: Seq<char>,
    result: JsonValue,
)
    requires
        spec_validate_jsonrpc(fields).is_none(),
        field_get(fields, "method"@).is_none(),
        field_get(fields, "error"@).is_none(),
        spec_response_id(fields) == Ok::<Option<Seq<char>>, Seq<char>>(Some(id)),
        field_get(fields, "result"@) == Some(result),
        !pending.contains_key(id),
    ensures
        spec_rpc_fields(fields, pending) == (RpcOutcome::Ignored, pending),
{
}

/// Decoding a frame never starts tracking a request, and stops tracking
/// at most the one request the frame answers.
pub proof fn law_decoding_only_retires_answered_request(v: JsonValue, pending: Map<Seq<char>, Seq<char>>)
    ensures
        ({
            let after = spec_rpc_value(v, pending).1;
            after == pending || exists|id: Seq<char>| pending.contains_key(id) && after == pending.remove(id)
        }),
{
    let after = spec_rpc_value(v, pending).1;
    if after != pending {
        if let JsonValue::Object(fields, _) = v {
            let f = fields@;
            if let Ok(Some(id)) = spec_response_id(f) {
                assert(pending.contains_key(id) && after == pending.remove(id));
            }
        }
    }
}

/// Every frame that does not declare JSON-RPC 2.0 is answered with an
/// `invalid_jsonrpc` error and changes nothing.
pub proof fn law_wrong_version_is_refused(fields: Seq<(String, JsonValue)>, pending: Map<Seq<char>, Seq<char>>)
    requires
        spec_validate_jsonrpc(fields).is_some(),
    ensures
        spec_rpc_fields(fields, pending).1 == pending,
        spec_rpc_fields(fields, pending).0 matches RpcOutcome::Error(code, _) && code == "invalid_jsonrpc"@,
{
}

/// Distinct counter values give distinct request ids, so ids issued by one
/// exchange never repeat.
pub proof fn law_request_ids_distinct(a: nat, b: nat)
    requires
        a != b,
    ensures
        request_id_text(a) != request_id_text(b),
{
    let p = "tui-"@;
    if request_id_text(a) == request_id_text(b) {
        assert(dec(a) =~= request_id_text(a).skip(p.len() as int));
        assert(dec(b) =~= request_id_text(b).skip(p.len() as int));
        lemma_dec_injective(a, b);
    }
}

} // verus!
