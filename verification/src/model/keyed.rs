//! Lists of records found by a text key, in which a new record replaces
//! the first one with its key or is added at the end.

use vstd::prelude::*;
use crate::json::str_eq;

verus! {

/// A record found by a text key: a session id, an agent id, a loop id.
pub trait Keyed {
    /// The key, as text.
    spec fn key_view(&self) -> Seq<char>;

    fn key(&self) -> (r: &str)
        ensures
            r@ == self.key_view(),
    ;
}

/// Index of the first record with key `key` at or after `j`.
pub open spec fn keyed_index<T: Keyed>(s: Seq<T>, key: Seq<char>, j: int) -> Option<int>
    decreases s.len() - j,
{
    if j < 0 || j >= s.len() {
        None
    } else if s[j].key_view() == key {
        Some(j)
    } else {
        keyed_index(s, key, j + 1)
    }
}

/// The record with key `key`, if there is one.
pub open spec fn keyed_lookup<T: Keyed>(s: Seq<T>, key: Seq<char>) -> Option<T> {
    match keyed_index(s, key, 0) {
        Some(i) => Some(s[i]),
        None => None,
    }
}

/// The records after `item` replaced the first record with its key, or
/// was added at the end.
pub open spec fn keyed_placed<T: Keyed>(s: Seq<T>, item: T) -> Seq<T> {
    match keyed_index(s, item.key_view(), 0) {
        Some(i) => s.update(i, item),
        None => s.push(item),
    }
}

pub proof fn lemma_keyed_index_found<T: Keyed>(s: Seq<T>, key: Seq<char>, j: int)
    ensures
        keyed_index(s, key, j) matches Some(i) ==> 0 <= j <= i < s.len() && s[i].key_view() == key
            && forall|m: int| j <= m < i ==> #[trigger] s[m].key_view() != key,
        keyed_index(s, key, j) is None && 0 <= j ==> forall|m: int| j <= m < s.len() ==> #[trigger] s[m].key_view() != key,
    decreases s.len() - j,
{
    if 0 <= j < s.len() && s[j].key_view() != key {
        lemma_keyed_index_found(s, key, j + 1);
    }
}

/// Two record lists with the same keys in the same places find the same
/// index for every key.
pub proof fn lemma_keyed_index_same_keys<T: Keyed>(s: Seq<T>, t: Seq<T>, key: Seq<char>, j: int)
    requires
        s.len() == t.len(),
        forall|m: int| 0 <= m < s.len() ==> #[trigger] s[m].key_view() == t[m].key_view(),
    ensures
        keyed_index(s, key, j) == keyed_index(t, key, j),
    decreases s.len() - j,
{
    if 0 <= j < s.len() {
        lemma_keyed_index_same_keys(s, t, key, j + 1);
    }
}

pub proof fn lemma_keyed_index_push<T: Keyed>(s: Seq<T>, item: T, key: Seq<char>, j: int)
    requires
        0 <= j,
        key != item.key_view() || keyed_index(s, key, j) is Some,
    ensures
        keyed_index(s.push(item), key, j) == keyed_index(s, key, j),
    decreases s.len() - j,
{
    if j < s.len() {
        assert(s.push(item)[j] == s[j]);
        if s[j].key_view() != key {
            lemma_keyed_index_push(s, item, key, j + 1);
        }
    } else if j == s.len() {
        assert(s.push(item)[j] == item);
        assert(keyed_index(s.push(item), key, j + 1) is None);
    }
}

/// What a read gives back after a write: the record just placed, for its
/// key; for every other key, what it gave before.
pub proof fn law_read_after_write<T: Keyed>(s: Seq<T>, item: T, key: Seq<char>)
    ensures
        keyed_lookup(keyed_placed(s, item), item.key_view()) == Some(item),
        key != item.key_view() ==> keyed_lookup(keyed_placed(s, item), key) == keyed_lookup(s, key),
        keyed_placed(s, item).len() == s.len() + if keyed_lookup(s, item.key_view()) is Some { 0int } else { 1int },
{
    let k = item.key_view();
    lemma_keyed_index_found(s, k, 0);
    match keyed_index(s, k, 0) {
        Some(i) => {
            let t = s.update(i, item);
            assert forall|m: int| 0 <= m < s.len() implies #[trigger] s[m].key_view() == t[m].key_view() by {}
            lemma_keyed_index_same_keys(s, t, k, 0);
            lemma_keyed_index_same_keys(s, t, key, 0);
            lemma_keyed_index_found(s, key, 0);
            if key != k {
                match keyed_index(s, key, 0) {
                    Some(i2) => {
                        assert(i2 != i);
                        assert(t[i2] == s[i2]);
                    },
                    None => {},
                }
            }
        },
        None => {
            let t = s.push(item);
            lemma_keyed_index_found(t, k, 0);
            if keyed_index(t, k, 0) != Some(s.len() as int) {
                lemma_keyed_index_found(t, k, 0);
                assert(t[s.len() as int].key_view() == k);
            }
            if key != k {
                lemma_keyed_index_push(s, item, key, 0);
                lemma_keyed_index_found(s, key, 0);
                match keyed_index(s, key, 0) {
                    Some(i2) => {
                        assert(t[i2] == s[i2]);
                    },
                    None => {},
                }
            }
        },
    }
}

/// Index of the first record with key `key`, or the number of records.
pub fn keyed_position<T: Keyed>(items: &Vec<T>, key: &str) -> (r: usize)
    ensures
        r <= items@.len(),
        r < items@.len() <==> keyed_index(items@, key@, 0) is Some,
        r < items@.len() ==> keyed_index(items@, key@, 0) == Some(r as int),
{
    let mut i: usize = 0;
    while i < items.len()
        invariant
            i <= items@.len(),
            keyed_index(items@, key@, 0) == keyed_index(items@, key@, i as int),
        decreases items@.len() - i,
    {
        if str_eq(items[i].key(), key) {
            return i;
        }
        i += 1;
    }
    i
}

/// The record with key `key` (see [`keyed_lookup`]).
pub fn keyed_find<'a, T: Keyed>(items: &'a Vec<T>, key: &str) -> (r: Option<&'a T>)
    ensures
        match r {
            Some(x) => keyed_lookup(items@, key@) == Some(*x),
            None => keyed_lookup(items@, key@) is None,
        },
{
    let i = keyed_position(items, key);
    if i < items.len() {
        Some(&items[i])
    } else {
        None
    }
}

/// Replace the first record with `item`'s key, or add it (see
/// [`keyed_placed`]).
pub fn keyed_place<T: Keyed>(items: &mut Vec<T>, item: T)
    ensures
        final(items)@ == keyed_placed(old(items)@, item),
{
    let i = keyed_position(items, item.key());
    if i < items.len() {
        items.set(i, item);
    } else {
        items.push(item);
    }
}


/// The records whose key is not `key`, in order.
pub open spec fn without_key<T: Keyed>(s: Seq<T>, key: Seq<char>) -> Seq<T>
    decreases s.len(),
{
    if s.len() == 0 {
        s
    } else {
        without_key(s.drop_last(), key) + if s.last().key_view() == key { Seq::empty() } else { seq![s.last()] }
    }
}

/// No record with key `key` is left after removing them.
pub proof fn law_removed_key_is_gone<T: Keyed>(s: Seq<T>, key: Seq<char>)
    ensures
        keyed_lookup(without_key(s, key), key) is None,
        without_key(s, key).len() <= s.len(),
    decreases s.len(),
{
    if s.len() > 0 {
        law_removed_key_is_gone(s.drop_last(), key);
        lemma_keyed_index_found(without_key(s.drop_last(), key), key, 0);
        let w = without_key(s, key);
        assert forall|m: int| 0 <= m < w.len() implies #[trigger] w[m].key_view() != key by {
            if m < without_key(s.drop_last(), key).len() {
                assert(w[m] == without_key(s.drop_last(), key)[m]);
            }
        }
        lemma_keyed_index_none(w, key, 0);
    }
}

proof fn lemma_keyed_index_none<T: Keyed>(s: Seq<T>, key: Seq<char>, j: int)
    requires
        forall|m: int| 0 <= m < s.len() ==> #[trigger] s[m].key_view() != key,
    ensures
        keyed_index(s, key, j) is None,
    decreases s.len() - j,
{
    if 0 <= j < s.len() {
        lemma_keyed_index_none(s, key, j + 1);
    }
}

/// Remove every record with key `key` (see [`without_key`]).
pub fn keyed_remove_all<T: Keyed>(items: &mut Vec<T>, key: &str)
    ensures
        final(items)@ == without_key(old(items)@, key@),
{
    let ghost orig = items@;
    let mut rest: Vec<T> = Vec::new();
    std::mem::swap(&mut rest, items);
    proof {
        assert(orig.take(0) =~= Seq::<T>::empty());
        assert(rest@ =~= orig.skip(0));
        assert(items@ =~= without_key(orig.take(0), key@));
    }
    while rest.len() > 0
        invariant
            rest@.len() <= orig.len(),
            rest@ == orig.skip(orig.len() - rest@.len()),
            items@ == without_key(orig.take(orig.len() - rest@.len()), key@),
        decreases rest@.len(),
    {
        let ghost done = orig.len() - rest@.len();
        let x = rest.remove(0);
        proof {
            assert(rest@ =~= orig.skip(done + 1));
            assert(x == orig[done]);
            assert(orig.take(done + 1).drop_last() =~= orig.take(done));
            assert(orig.take(done + 1).last() == x);
        }
        let ghost before = items@;
        if str_eq(x.key(), key) {
            proof { assert(before + Seq::<T>::empty() =~= before); }
        } else {
            items.push(x);
            proof { assert(items@ =~= before + seq![x]); }
        }
    }
    proof { assert(orig.take(orig.len() as int) =~= orig); }
}

} // verus!
