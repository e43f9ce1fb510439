//! JSON values as the protocol layer reads them. A parsed document is
//! handed to the library in this form.

use vstd::prelude::*;
use crate::text::str_chars;

verus! {

/// A JSON number: its text as the parser prints it, and whether it is an
/// integer representable as `i64` or `u64`.
#[derive(Debug, Clone, PartialEq, Eq)]
pub struct JsonNumber {
    pub repr: String,
    pub integral: bool,
}

/// A JSON value. Arrays and objects carry their compact serialised text
/// alongside their items; object members are listed in the order the
/// parser hands them over.
#[derive(Debug)]
pub enum JsonValue {
    Null,
    Bool(bool),
    Number(JsonNumber),
    String(String),
    Array(Vec<JsonValue>, String),
    Object(Vec<(String, JsonValue)>, String),
}

/// Value of the first member named `key`.
pub open spec fn field_get(fields: Seq<(String, JsonValue)>, key: Seq<char>) -> Option<JsonValue>
    decreases fields.len(),
{
    if fields.len() == 0 {
        None
    } else if fields[0].0@ == key {
        Some(fields[0].1)
    } else {
        field_get(fields.drop_first(), key)
    }
}

/// `v.get(key)` for an object, `None` otherwise.
pub open spec fn spec_get(v: JsonValue, key: Seq<char>) -> Option<JsonValue> {
    match v {
        JsonValue::Object(fields, _) => field_get(fields@, key),
        _ => None,
    }
}

/// `v.as_str()`.
pub open spec fn spec_as_str(v: Option<JsonValue>) -> Option<Seq<char>> {
    match v {
        Some(JsonValue::String(s)) => Some(s@),
        _ => None,
    }
}

/// Whether two string slices hold the same characters.
pub fn str_eq(a: &str, b: &str) -> (r: bool)
    ensures
        r == (a@ == b@),
{
    let va = str_chars(a);
    let vb = str_chars(b);
    if va.len() != vb.len() {
        return false;
    }
    let n = va.len();
    let mut i: usize = 0;
    while i < n
        invariant
            n == va.len() == vb.len(),
            va@ == a@,
            vb@ == b@,
            i <= n,
            forall|k: int| 0 <= k < i ==> va@[k] == vb@[k],
        decreases n - i,
    {
        if va[i] != vb[i] {
            return false;
        }
        i += 1;
    }
    assert(va@ =~= vb@);
    true
}

/// The value of the first member named `key` among `fields`.
pub fn fields_get<'a>(fields: &'a Vec<(String, JsonValue)>, key: &str) -> (r: Option<&'a JsonValue>)
    ensures
        match r {
            Some(v) => field_get(fields@, key@) == Some(*v),
            None => field_get(fields@, key@).is_none(),
        },
{
    let n = fields.len();
    let mut i: usize = 0;
    assert(fields@.skip(0) =~= fields@);
    while i < n
        invariant
            n == fields.len(),
            i <= n,
            field_get(fields@, key@) == field_get(fields@.skip(i as int), key@),
        decreases n - i,
    {
        assert(fields@.skip(i as int)[0] == fields@[i as int]);
        assert(fields@.skip(i as int).drop_first() =~= fields@.skip(i + 1));
        if str_eq(fields[i].0.as_str(), key) {
            return Some(&fields[i].1);
        }
        i += 1;
    }
    None
}

/// `v.get(key)`.
pub fn get<'a>(v: &'a JsonValue, key: &str) -> (r: Option<&'a JsonValue>)
    ensures
        match r {
            Some(x) => spec_get(*v, key@) == Some(*x),
            None => spec_get(*v, key@).is_none(),
        },
{
    match v {
        JsonValue::Object(fields, _) => fields_get(fields, key),
        _ => None,
    }
}

/// `v.as_str()`.
pub fn as_str(v: Option<&JsonValue>) -> (r: Option<&str>)
    ensures
        match r {
            Some(s) => spec_as_str(match v { Some(x) => Some(*x), None => None }) == Some(s@),
            None => spec_as_str(match v { Some(x) => Some(*x), None => None }).is_none(),
        },
{
    match v {
        Some(JsonValue::String(s)) => Some(s.as_str()),
        _ => None,
    }
}


/// Whether two values hold the same JSON: same variants, same texts, same
/// items in the same order.
pub open spec fn json_same(a: JsonValue, b: JsonValue) -> bool
    decreases a,
{
    match a {
        JsonValue::Null => b is Null,
        JsonValue::Bool(x) => b matches JsonValue::Bool(y) && x == y,
        JsonValue::Number(x) => b matches JsonValue::Number(y) && x.repr@ == y.repr@ && x.integral == y.integral,
        JsonValue::String(x) => b matches JsonValue::String(y) && x@ == y@,
        JsonValue::Array(xs, t) => match b {
            JsonValue::Array(ys, u) => t@ == u@ && xs@.len() == ys@.len() && forall|i: int|
                0 <= i < xs@.len() ==> json_same(#[trigger] xs@[i], ys@[i]),
            _ => false,
        },
        JsonValue::Object(xs, t) => match b {
            JsonValue::Object(ys, u) => t@ == u@ && xs@.len() == ys@.len() && forall|i: int|
                0 <= i < xs@.len() ==> (#[trigger] xs@[i]).0@ == ys@[i].0@ && json_same(xs@[i].1, ys@[i].1),
            _ => false,
        },
    }
}

/// A copy of `v` (see [`json_same`]).
pub fn json_clone(v: &JsonValue) -> (r: JsonValue)
    ensures
        json_same(*v, r),
    decreases v,
{
    match v {
        JsonValue::Null => JsonValue::Null,
        JsonValue::Bool(b) => JsonValue::Bool(*b),
        JsonValue::Number(n) => JsonValue::Number(JsonNumber { repr: n.repr.clone(), integral: n.integral }),
        JsonValue::String(s) => JsonValue::String(s.clone()),
        JsonValue::Array(items, text) => {
            let mut out: Vec<JsonValue> = Vec::new();
            let mut i: usize = 0;
            while i < items.len()
                invariant
                    i <= items@.len(),
                    out@.len() == i,
                    *v is Array,
                    (*v)->Array_0 == *items,
                    forall|k: int| 0 <= k < i ==> json_same(#[trigger] items@[k], out@[k]),
                decreases items.len() - i,
            {
                proof {
                    assert(decreases_to!(*v => (*v)->Array_0));
                    assert(*items == (*v)->Array_0);
                    assert(decreases_to!(*items => items@));
                    assert(decreases_to!(items@ => items@[i as int]));
                }
                let c = json_clone(&items[i]);
                out.push(c);
                i += 1;
            }
            JsonValue::Array(out, text.clone())
        },
        JsonValue::Object(fields, text) => {
            let mut out: Vec<(String, JsonValue)> = Vec::new();
            let mut i: usize = 0;
            while i < fields.len()
                invariant
                    i <= fields@.len(),
                    out@.len() == i,
                    *v is Object,
                    (*v)->Object_0 == *fields,
                    forall|k: int| 0 <= k < i ==> (#[trigger] fields@[k]).0@ == out@[k].0@ && json_same(fields@[k].1, out@[k].1),
                decreases fields.len() - i,
            {
                proof {
                    assert(decreases_to!(*v => (*v)->Object_0));
                    assert(*fields == (*v)->Object_0);
                    assert(decreases_to!(*fields => fields@));
                    assert(decreases_to!(fields@ => fields@[i as int]));
                    assert(decreases_to!(fields@[i as int] => fields@[i as int].1));
                }
                let c = json_clone(&fields[i].1);
                out.push((fields[i].0.clone(), c));
                i += 1;
            }
            JsonValue::Object(out, text.clone())
        },
    }
}

/// Whether two optional values hold the same JSON.
pub open spec fn opt_json_same(a: Option<JsonValue>, b: Option<JsonValue>) -> bool {
    match (a, b) {
        (Some(x), Some(y)) => json_same(x, y),
        (None, None) => true,
        _ => false,
    }
}

/// A copy of an optional value.
pub fn copy_opt_json(o: &Option<JsonValue>) -> (r: Option<JsonValue>)
    ensures
        opt_json_same(*o, r),
{
    match o {
        Some(v) => Some(json_clone(v)),
        None => None,
    }
}

} // verus!
