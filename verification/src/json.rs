//! A JSON document as plain values. The library builds event and audit
//! metadata as `Json`, and reads and writes JSON text with `serde_json`.
use vstd::prelude::*;

verus! {

/// A JSON value. Object members keep the order in which they were inserted.
#[derive(Debug)]
pub enum Json {
    Null,
    Bool(bool),
    Int(i64),
    Str(String),
    Array(Vec<Json>),
    Object(Vec<(String, Json)>),
    /// A JSON document already written as text, inserted as it is. A
    /// number read from JSON text is kept as its text.
    Raw(String),
}

/// The integer that a value holds: an `Int`, or a number kept as its text
/// that is an `i64`.
pub open spec fn int_value(j: Json) -> Option<i64> {
    match j {
        Json::Int(i) => Some(i),
        Json::Raw(t) => match crate::text::parse_i64_spec(t@) {
            Some(v) => Some(v as i64),
            None => None,
        },
        _ => None,
    }
}

/// The integer that a value, if any, holds.
pub open spec fn opt_int(j: Option<Json>) -> Option<i64> {
    match j {
        Some(v) => int_value(v),
        None => None,
    }
}

/// Reads the integer that a value holds.
pub fn read_int(j: &Json) -> (r: Option<i64>)
    ensures
        r == int_value(*j),
{
    match j {
        Json::Int(i) => Some(*i),
        Json::Raw(t) => crate::text::parse_i64(t.as_str()),
        _ => None,
    }
}

/// A JSON string holding `s`.
pub fn json_str(s: &str) -> (j: Json)
    ensures
        j matches Json::Str(t) && t@ == s@,
{
    Json::Str(s.to_owned())
}

/// A JSON string holding `s`, or `null`.
pub fn json_opt_str(s: Option<&str>) -> (j: Json)
    ensures
        match s {
            Some(t) => j matches Json::Str(u) && u@ == t@,
            None => j is Null,
        },
{
    match s {
        Some(t) => Json::Str(t.to_owned()),
        None => Json::Null,
    }
}

/// An object member.
pub fn member(name: &str, value: Json) -> (m: (String, Json))
    ensures
        m.0@ == name@,
        m.1 == value,
{
    (name.to_owned(), value)
}

/// The members of an object, or nothing for any other value.
pub open spec fn object_members(j: Json) -> Seq<(String, Json)> {
    match j {
        Json::Object(v) => v@,
        _ => Seq::empty(),
    }
}

/// `m` is the member `name` holding the string `value`, or `null` for `None`.
pub open spec fn text_member(m: (String, Json), name: Seq<char>, value: Option<Seq<char>>) -> bool {
    &&& m.0@ == name
    &&& match value {
        Some(v) => m.1 matches Json::Str(s) && s@ == v,
        None => m.1 is Null,
    }
}

/// `m` is the member `name` holding the integer `value`.
pub open spec fn int_member(m: (String, Json), name: Seq<char>, value: int) -> bool {
    &&& m.0@ == name
    &&& m.1 matches Json::Int(i) && i == value
}

/// `j` is an object whose members are text members named and valued as in
/// `expected`, in that order.
pub open spec fn text_object(j: Json, expected: Seq<(Seq<char>, Option<Seq<char>>)>) -> bool {
    &&& j is Object
    &&& object_members(j).len() == expected.len()
    &&& forall|i: int|
        0 <= i < expected.len() ==> text_member(
            #[trigger] object_members(j)[i],
            expected[i].0,
            expected[i].1,
        )
}

/// `serde_json`'s value type, which the JSON reader and writer exchange with
/// this library's `Json`.
#[verifier::external_type_specification]
#[verifier::external_body]
pub struct ExJsonValue(serde_json::Value);

/// A `serde_json` value as a `Json`, one variant for one variant; a number
/// keeps the text that `serde_json` writes for it.
#[verifier::external_body]
fn json_of_value(value: serde_json::Value) -> Json {
    match value {
        serde_json::Value::Null => Json::Null,
        serde_json::Value::Bool(b) => Json::Bool(b),
        serde_json::Value::Number(n) => Json::Raw(n.to_string()),
        serde_json::Value::String(t) => Json::Str(t),
        serde_json::Value::Array(items) => Json::Array(items.into_iter().map(json_of_value).collect()),
        serde_json::Value::Object(m) => Json::Object(m.into_iter().map(|(k, v)| (k, json_of_value(v))).collect()),
    }
}

/// A `Json` as a `serde_json` value, one variant for one variant; raw text
/// is read back as JSON, and kept as a string where it is none.
#[verifier::external_body]
fn value_of_json(j: &Json) -> serde_json::Value {
    match j {
        Json::Null => serde_json::Value::Null,
        Json::Bool(b) => serde_json::Value::Bool(*b),
        Json::Int(i) => serde_json::Value::from(*i),
        Json::Str(t) => serde_json::Value::String(t.clone()),
        Json::Array(items) => serde_json::Value::Array(items.iter().map(value_of_json).collect()),
        Json::Object(m) => serde_json::Value::Object(m.iter().map(|(k, v)| (k.clone(), value_of_json(v))).collect()),
        Json::Raw(t) => serde_json::from_str(t).unwrap_or_else(|_| serde_json::Value::String(t.clone())),
    }
}

/// The JSON document that `serde_json` reads from some bytes, if they are
/// one.
pub uninterp spec fn json_document(bytes: Seq<u8>) -> Option<Json>;

/// Reads a JSON document with `serde_json::from_slice`: `None` where the
/// bytes are no JSON. What it reads is a function of the bytes alone; which
/// bytes are JSON, and the value they hold, is not stated here.
#[verifier::external_body]
pub(crate) fn parse_json(bytes: &[u8]) -> (j: Option<Json>)
    ensures
        j == json_document(bytes@),
{
    serde_json::from_slice::<serde_json::Value>(bytes).ok().map(json_of_value)
}

/// The compact text that `serde_json` writes for a document; its object
/// keys come out sorted, as `serde_json`'s map keeps them.
pub uninterp spec fn json_text(j: Json) -> Seq<u8>;

/// Writes a document with `serde_json::to_vec`. The text is a function of
/// the document alone; its form is not stated here.
#[verifier::external_body]
pub(crate) fn json_bytes(j: &Json) -> (b: Vec<u8>)
    ensures
        b@ == json_text(*j),
{
    serde_json::to_vec(&value_of_json(j)).unwrap_or_default()
}

/// The value of the first member named `name`, if any.
pub open spec fn first_member(members: Seq<(String, Json)>, name: Seq<char>) -> Option<Json>
    decreases members.len(),
{
    if members.len() == 0 {
        None
    } else if members[0].0@ == name {
        Some(members[0].1)
    } else {
        first_member(members.drop_first(), name)
    }
}

/// The value of the member `name` of a document, if it is an object that
/// has one.
pub open spec fn member_of(j: Json, name: Seq<char>) -> Option<Json> {
    first_member(object_members(j), name)
}

/// Finds the first member named `name`.
pub fn find_member<'a>(members: &'a Vec<(String, Json)>, name: &str) -> (r: Option<&'a Json>)
    ensures
        match r {
            Some(v) => first_member(members@, name@) == Some(*v),
            None => first_member(members@, name@) is None,
        },
{
    let mut i: usize = 0;
    assert(members@.skip(0) =~= members@);
    while i < members.len()
        invariant
            i <= members.len(),
            first_member(members@, name@) == first_member(members@.skip(i as int), name@),
        decreases members.len() - i,
    {
        assert(members@.skip(i as int).drop_first() =~= members@.skip(i + 1));
        if crate::text::str_equals(members[i].0.as_str(), name) {
            return Some(&members[i].1);
        }
        i = i + 1;
    }
    None
}

} // verus!
