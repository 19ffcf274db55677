//! A plain model of a JSON document, as a provider's API returns it.
use vstd::prelude::*;

verus! {

/// A JSON number. Non-negative integers are `PosInt`, negative ones
/// `NegInt`; any other number is kept as its text.
#[derive(Debug, PartialEq)]
pub enum JsonNumber {
    PosInt(u64),
    NegInt(i64),
    Float(String),
}

/// A JSON value. An object keeps its entries in document order.
#[derive(Debug, PartialEq)]
pub enum Json {
    Null,
    Bool(bool),
    Number(JsonNumber),
    String(String),
    Array(Vec<Json>),
    Object(Vec<(String, Json)>),
}

impl JsonNumber {
    pub open spec fn as_u64_spec(&self) -> Option<u64> {
        match self {
            JsonNumber::PosInt(n) => Some(*n),
            _ => None,
        }
    }

    /// The number as a `u64`, when it is a non-negative integer.
    pub fn as_u64(&self) -> (r: Option<u64>)
        ensures
            r == self.as_u64_spec(),
    {
        match self {
            JsonNumber::PosInt(n) => Some(*n),
            _ => None,
        }
    }
}

/// The unsigned integer that a JSON value holds, if it holds one.
pub open spec fn json_u64(v: Json) -> Option<u64> {
    match v {
        Json::Number(n) => n.as_u64_spec(),
        _ => None,
    }
}

/// The position of the first entry named `key`, if any.
pub open spec fn key_position(entries: Seq<(String, Json)>, key: Seq<char>) -> Option<int>
    decreases entries.len(),
{
    if entries.len() == 0 {
        None
    } else if entries[0].0@ == key {
        Some(0)
    } else {
        match key_position(entries.drop_first(), key) {
            Some(i) => Some(i + 1),
            None => None,
        }
    }
}

/// Finds the first entry of an object named `key`.
pub fn find_key(entries: &Vec<(String, Json)>, key: &String) -> (r: Option<usize>)
    ensures
        r matches Some(i) ==> i < entries@.len() && key_position(entries@, key@) == Some(i as int),
        r is None ==> key_position(entries@, key@) is None,
{
    let mut i: usize = 0;
    assert(entries@.subrange(0, entries@.len() as int) =~= entries@);
    while i < entries.len()
        invariant
            i <= entries@.len(),
            key_position(entries@, key@) == (match key_position(
                entries@.subrange(i as int, entries@.len() as int),
                key@,
            ) {
                Some(j) => Some(j + i),
                None => None,
            }),
        decreases entries.len() - i,
    {
        let ghost rest = entries@.subrange(i as int, entries@.len() as int);
        assert(rest.drop_first() =~= entries@.subrange(i + 1, entries@.len() as int));
        if entries[i].0 == *key {
            return Some(i);
        }
        i = i + 1;
    }
    assert(entries@.subrange(i as int, entries@.len() as int).len() == 0);
    None
}

/// `v` is a JSON string with the text `t`.
pub open spec fn is_text(v: Json, t: Seq<char>) -> bool {
    match v {
        Json::String(s) => s@ == t,
        _ => false,
    }
}

/// `v` is an array of JSON strings with the texts of `items`, in order.
pub open spec fn is_text_list(v: Json, items: Seq<String>) -> bool {
    match v {
        Json::Array(a) => a@.len() == items.len() && forall|i: int|
            0 <= i < a@.len() ==> #[trigger] is_text(a@[i], items[i]@),
        _ => false,
    }
}

/// `e` is the entry `key: "t"`.
pub open spec fn is_text_entry(e: (String, Json), key: Seq<char>, t: Seq<char>) -> bool {
    e.0@ == key && is_text(e.1, t)
}

/// `e` is the entry `key: n`.
pub open spec fn is_u64_entry(e: (String, Json), key: Seq<char>, n: u64) -> bool {
    e.0@ == key && json_u64(e.1) == Some(n)
}

/// `e` is the entry `key: b`.
pub open spec fn is_bool_entry(e: (String, Json), key: Seq<char>, b: bool) -> bool {
    e.0@ == key && e.1 == Json::Bool(b)
}

/// A JSON string holding `s`.
pub fn text(s: &str) -> (r: Json)
    ensures
        is_text(r, s@),
{
    Json::String(String::from_str(s))
}

/// The entry `key: v` of an object.
pub fn entry(key: &str, v: Json) -> (r: (String, Json))
    ensures
        r.0@ == key@,
        r.1 == v,
{
    (String::from_str(key), v)
}

/// A JSON array holding the strings of `items`.
pub fn text_list(items: &Vec<String>) -> (r: Json)
    ensures
        is_text_list(r, items@),
{
    let mut out: Vec<Json> = Vec::new();
    let mut i: usize = 0;
    while i < items.len()
        invariant
            i <= items@.len(),
            out@.len() == i,
            forall|j: int| 0 <= j < i ==> #[trigger] is_text(out@[j], items@[j]@),
        decreases items.len() - i,
    {
        out.push(Json::String(items[i].clone()));
        i = i + 1;
    }
    Json::Array(out)
}

} // verus!
