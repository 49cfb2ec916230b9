//! JSON documents, held by `serde_json` and read through trusted accessors.
//!
//! A document is a `serde_json::Value`. Verified code never looks inside
//! one: it asks the accessors below, whose contracts speak of the document's
//! content, a `JsonModel`.

use vstd::prelude::*;
use crate::text::{chars_of, find_first, find_last, first_index, last_index, lemma_end_of_last, lemma_first_at, slice_of, string_of};

verus! {

/// A JSON number as `serde_json` holds it.
pub enum JsonNumber {
    /// A non-negative integer.
    Unsigned(u64),
    /// A negative integer.
    Negative(i64),
    /// Any other number, by the bits of its 64-bit floating point form.
    Float(u64),
}

/// The content of a JSON document. The members of an object stand in the
/// order in which the document holds them, and no key occurs twice.
pub enum JsonModel {
    Null,
    Bool(bool),
    Number(JsonNumber),
    Text(Seq<char>),
    Array(Seq<JsonModel>),
    Object(Seq<(Seq<char>, JsonModel)>),
}

/// The first member of `fields` under `key`, if there is one.
pub open spec fn member(fields: Seq<(Seq<char>, JsonModel)>, key: Seq<char>) -> Option<JsonModel>
    decreases fields.len(),
{
    if fields.len() == 0 {
        None
    } else if fields[0].0 == key {
        Some(fields[0].1)
    } else {
        member(fields.drop_first(), key)
    }
}

/// The member of the document `m` under `key`: nothing where `m` is no
/// object or has no such member.
pub open spec fn field(m: JsonModel, key: Seq<char>) -> Option<JsonModel> {
    match m {
        JsonModel::Object(fields) => member(fields, key),
        _ => None,
    }
}

#[verifier::external_type_specification]
#[verifier::external_body]
pub struct ExValue(serde_json::Value);

/// The content of the document that `v` holds.
pub uninterp spec fn json_model(v: serde_json::Value) -> JsonModel;

/// What `serde_json::from_str` makes of `text`: the document, or nothing
/// where `text` is not one JSON value.
pub uninterp spec fn json_parse(text: Seq<char>) -> Option<JsonModel>;

/// What `serde_json::to_string` writes for a document: its compact text.
pub uninterp spec fn json_compact(m: JsonModel) -> Seq<char>;

/// What `serde_json::to_string_pretty` writes for a document: its indented
/// text.
pub uninterp spec fn json_pretty(m: JsonModel) -> Seq<char>;

/// What `serde_json::to_string` writes for a string: the string in double
/// quotes, with the escapes of JSON.
pub uninterp spec fn json_quoted(s: Seq<char>) -> Seq<char>;

/// Calls `serde_json::from_str` for a `Value`. Trusted: the outcome is the
/// one named `json_parse`, and a returned value holds that document.
#[verifier::external_body]
pub(crate) fn parse_value(text: &str) -> (r: Option<serde_json::Value>)
    ensures
        match r {
            Some(v) => json_parse(text@) == Some(json_model(v)),
            None => json_parse(text@) is None,
        },
{
    serde_json::from_str::<serde_json::Value>(text).ok()
}

/// Calls `serde_json::to_string` on a `Value`, which cannot fail for one.
/// Trusted: the result is the compact text named `json_compact`.
#[verifier::external_body]
pub(crate) fn value_text(v: &serde_json::Value) -> (r: String)
    ensures
        r@ == json_compact(json_model(*v)),
{
    serde_json::to_string(v).unwrap_or_default()
}

/// Calls `serde_json::to_string_pretty` on a `Value`, which cannot fail for
/// one. Trusted: the result is the indented text named `json_pretty`.
#[verifier::external_body]
pub(crate) fn value_pretty(v: &serde_json::Value) -> (r: String)
    ensures
        r@ == json_pretty(json_model(*v)),
{
    serde_json::to_string_pretty(v).unwrap_or_default()
}

/// Calls `serde_json::to_string` on a string, which cannot fail for one.
/// Trusted: the result is the quoted text named `json_quoted`.
#[verifier::external_body]
pub(crate) fn quote(s: &str) -> (r: String)
    ensures
        r@ == json_quoted(s@),
{
    serde_json::to_string(s).unwrap_or_default()
}

/// Calls `Value::get` with a string key and clones what it finds. Trusted:
/// an object yields its member under `key`, anything else yields nothing.
#[verifier::external_body]
pub(crate) fn value_get(v: &serde_json::Value, key: &str) -> (r: Option<serde_json::Value>)
    ensures
        match r {
            Some(m) => field(json_model(*v), key@) == Some(json_model(m)),
            None => field(json_model(*v), key@) is None,
        },
{
    v.get(key).cloned()
}

/// Calls `Value::as_str` and copies what it finds. Trusted: a string yields
/// its characters, anything else yields nothing.
#[verifier::external_body]
pub(crate) fn value_as_str(v: &serde_json::Value) -> (r: Option<String>)
    ensures
        match r {
            Some(s) => json_model(*v) == JsonModel::Text(s@),
            None => !(json_model(*v) is Text),
        },
{
    v.as_str().map(String::from)
}

/// Calls `Value::as_array` and clones what it finds. Trusted: an array
/// yields its items in order, anything else yields nothing.
#[verifier::external_body]
pub(crate) fn value_as_array(v: &serde_json::Value) -> (r: Option<Vec<serde_json::Value>>)
    ensures
        match r {
            Some(items) => json_model(*v) is Array && json_model(*v)->Array_0.len() == items.len()
                && forall|i: int|
                0 <= i < items.len() ==> json_model(#[trigger] items[i]) == json_model(
                    *v,
                )->Array_0[i],
            None => !(json_model(*v) is Array),
        },
{
    v.as_array().cloned()
}

/// Makes an array of `items` (`Value::Array`). Trusted: the document is
/// the array of the items' documents, in order.
#[verifier::external_body]
pub(crate) fn value_array(items: Vec<serde_json::Value>) -> (v: serde_json::Value)
    ensures
        json_model(v) is Array,
        json_model(v)->Array_0.len() == items.len(),
        forall|i: int|
            0 <= i < items.len() ==> json_model(v)->Array_0[i] == json_model(#[trigger] items[i]),
{
    serde_json::Value::Array(items)
}

/// The `null` document (`serde_json::Value::Null`). Trusted: the value holds
/// `null`.
#[verifier::external_body]
pub(crate) fn null_value() -> (v: serde_json::Value)
    ensures
        json_model(v) is Null,
{
    serde_json::Value::Null
}

/// Calls `Value::is_null`. Trusted: the answer is whether the document is
/// `null`.
#[verifier::external_body]
pub(crate) fn value_is_null(v: &serde_json::Value) -> (r: bool)
    ensures
        r == (json_model(*v) is Null),
{
    v.is_null()
}

/// Calls `Value::as_u64`. Trusted: a non-negative integer yields itself,
/// anything else yields nothing.
#[verifier::external_body]
pub(crate) fn value_as_u64(v: &serde_json::Value) -> (r: Option<u64>)
    ensures
        r == match json_model(*v) {
            JsonModel::Number(JsonNumber::Unsigned(n)) => Some(n),
            _ => None::<u64>,
        },
{
    v.as_u64()
}

/// Calls `Value::as_i64`. Trusted: an integer that fits in 64 signed bits
/// yields itself, anything else yields nothing.
#[verifier::external_body]
pub(crate) fn value_as_i64(v: &serde_json::Value) -> (r: Option<i64>)
    ensures
        r == match json_model(*v) {
            JsonModel::Number(JsonNumber::Unsigned(n)) => if n <= i64::MAX {
                Some(n as i64)
            } else {
                None
            },
            JsonModel::Number(JsonNumber::Negative(n)) => Some(n),
            _ => None::<i64>,
        },
{
    v.as_i64()
}

/// Where the JSON candidate of `reply` begins: at its first `{`, else at
/// its start.
pub open spec fn candidate_start(reply: Seq<char>) -> int {
    match first_index(reply, '{') {
        Some(i) => i,
        None => 0,
    }
}

/// Where the JSON candidate of `reply` ends: after its last `}`, else at its
/// end.
pub open spec fn candidate_end(reply: Seq<char>) -> int {
    match last_index(reply, '}') {
        Some(i) => i + 1,
        None => reply.len() as int,
    }
}

/// The part of `reply` that may be a JSON object: from the first `{` to the
/// last `}`. A reply whose last `}` stands before its first `{` has none.
pub open spec fn candidate_of(reply: Seq<char>) -> Option<Seq<char>> {
    if candidate_start(reply) <= candidate_end(reply) {
        Some(reply.subrange(candidate_start(reply), candidate_end(reply)))
    } else {
        None
    }
}

/// Cuts the JSON candidate out of a reply that may hold other text around
/// it.
pub fn json_candidate(reply: &str) -> (r: Option<String>)
    ensures
        match r {
            Some(c) => candidate_of(reply@) == Some(c@),
            None => candidate_of(reply@) is None,
        },
{
    let s: Vec<char> = chars_of(reply);
    proof {
        lemma_first_at(s@, '{', 0);
        lemma_end_of_last(s@, '}', s.len() as int);
    }
    let start: usize = match find_first(&s, '{') {
        Some(i) => i,
        None => 0,
    };
    let end: usize = match find_last(&s, '}') {
        Some(i) => i + 1,
        None => s.len(),
    };
    if start <= end {
        Some(string_of(&slice_of(&s, start, end)))
    } else {
        None
    }
}

} // verus!
