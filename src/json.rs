//! A parsed JSON document, as plain values.

use vstd::prelude::*;

verus! {

/// A JSON value.
///
/// Numbers that are integers in the range of `i64` are kept exactly; any
/// other number (a fraction, an exponent form, a larger integer) is only
/// known to be a number. An object keeps its members in document order.
#[derive(Debug)]
pub enum Json {
    Null,
    Bool(bool),
    Int(i64),
    OtherNumber,
    Str(String),
    Array(Vec<Json>),
    Object(Vec<(String, Json)>),
}

/// The value of the first member named `key` at or after position `i`.
pub open spec fn entry_from(entries: Seq<(String, Json)>, key: Seq<char>, i: int) -> Option<Json>
    decreases entries.len() - i,
{
    if i < 0 || i >= entries.len() {
        None
    } else if entries[i].0@ == key {
        Some(entries[i].1)
    } else {
        entry_from(entries, key, i + 1)
    }
}

/// The value of the first member named `key` among `entries`.
pub open spec fn entry(entries: Seq<(String, Json)>, key: Seq<char>) -> Option<Json> {
    entry_from(entries, key, 0)
}

/// The member `key` of `j`, when `j` is an object that has one.
pub open spec fn member(j: Json, key: Seq<char>) -> Option<Json> {
    match j {
        Json::Object(entries) => entry(entries@, key),
        _ => None,
    }
}

/// The value that a lookup found, if any.
pub open spec fn found(r: Option<&Json>) -> Option<Json> {
    match r {
        Some(v) => Some(*v),
        None => None,
    }
}

/// The value of the first member of `entries` named `key`.
pub fn lookup<'a>(entries: &'a Vec<(String, Json)>, key: &str) -> (r: Option<&'a Json>)
    ensures
        found(r) == entry(entries@, key@),
{
    let k = String::from_str(key);
    let mut i: usize = 0;
    while i < entries.len()
        invariant
            0 <= i <= entries@.len(),
            k@ == key@,
            entry(entries@, key@) == entry_from(entries@, key@, i as int),
        decreases entries@.len() - i,
    {
        if entries[i].0 == k {
            return Some(&entries[i].1);
        }
        i = i + 1;
    }
    None
}

/// Past the inserted position, lookups in `e.insert(p, x)` are lookups in
/// `e`, one position back.
proof fn lemma_entry_from_after_insert(
    e: Seq<(String, Json)>,
    p: int,
    x: (String, Json),
    key: Seq<char>,
    i: int,
)
    requires
        0 <= p <= e.len(),
        p < i,
    ensures
        entry_from(e.insert(p, x), key, i) == entry_from(e, key, i - 1),
    decreases e.len() + 1 - i,
{
    if i < e.len() + 1 {
        lemma_entry_from_after_insert(e, p, x, key, i + 1);
    }
}

/// Up to the inserted position, lookups in `e.insert(p, x)` are lookups in
/// `e`, when `x` has another name than `key`.
proof fn lemma_entry_from_before_insert(
    e: Seq<(String, Json)>,
    p: int,
    x: (String, Json),
    key: Seq<char>,
    i: int,
)
    requires
        0 <= p <= e.len(),
        0 <= i <= p,
        x.0@ != key,
    ensures
        entry_from(e.insert(p, x), key, i) == entry_from(e, key, i),
    decreases p - i,
{
    if i < p {
        lemma_entry_from_before_insert(e, p, x, key, i + 1);
    } else {
        lemma_entry_from_after_insert(e, p, x, key, i + 1);
    }
}

/// A member named otherwise than `key`, inserted anywhere, does not change
/// what a lookup of `key` finds.
pub proof fn lemma_entry_insert_other(e: Seq<(String, Json)>, p: int, x: (String, Json), key: Seq<char>)
    requires
        0 <= p <= e.len(),
        x.0@ != key,
    ensures
        entry(e.insert(p, x), key) == entry(e, key),
{
    lemma_entry_from_before_insert(e, p, x, key, 0);
}

impl Json {
    /// The member `key` of this value, when it is an object that has one.
    pub fn get(&self, key: &str) -> (r: Option<&Json>)
        ensures
            found(r) == member(*self, key@),
    {
        match self {
            Json::Object(entries) => lookup(entries, key),
            _ => None,
        }
    }
}

} // verus!
