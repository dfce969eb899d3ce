//! JSON through serde_json, declared for Verus.
//!
//! Text that the library reads as JSON is parsed by serde_json and handed
//! over as a [`JsonValue`], the library's own plain model of a JSON value.
//! A response body parsed for the caller stays a `serde_json::Value`, which
//! the library only carries.

use vstd::prelude::*;
use vstd::string::*;

use crate::text::equals;

verus! {

/// `serde_json::Value`, a parsed JSON value, carried opaquely.
#[verifier::external_type_specification]
#[verifier::external_body]
pub struct ExJsonValue(serde_json::Value);

/// `serde_json::Error`, a parse failure, carried opaquely.
#[verifier::external_type_specification]
#[verifier::external_body]
pub struct ExJsonError(serde_json::Error);

/// A JSON value as plain data. Numbers keep their text; an object keeps its
/// entries in serde_json's order, each key once.
#[derive(Debug)]
pub enum JsonValue {
    /// `null`.
    Null,
    /// `true` or `false`.
    Bool(bool),
    /// A number, as serde_json writes it.
    Number(String),
    /// A string.
    Str(String),
    /// An array.
    Array(Vec<JsonValue>),
    /// An object.
    Object(Vec<(String, JsonValue)>),
}

/// Whether serde_json accepts `text` as one JSON value.
pub uninterp spec fn is_json(text: Seq<char>) -> bool;

/// The value serde_json parses from `text`, when it accepts it.
pub uninterp spec fn json_of(text: Seq<char>) -> JsonValue;

/// Relies on `serde_json::from_str` into a `serde_json::Value`, converted
/// variant by variant into a [`JsonValue`] (see [`json_value_from`]); the
/// outcome depends on the text alone. On failure, serde_json's message.
#[verifier::external_body]
pub(crate) fn parse_json(text: &str) -> (r: Result<JsonValue, String>)
    ensures
        r is Ok <==> is_json(text@),
        r matches Ok(v) ==> v == json_of(text@),
{
    match serde_json::from_str::<serde_json::Value>(text) {
        Ok(v) => Ok(json_value_from(v)),
        Err(e) => Err(e.to_string()),
    }
}

/// Converts a `serde_json::Value` into a [`JsonValue`], one arm per variant,
/// moving the fields (a number becomes its `Display` text). It only changes
/// the representation, so it carries no contract of its own; [`parse_json`]
/// names its result.
#[verifier::external_body]
fn json_value_from(v: serde_json::Value) -> JsonValue {
    match v {
        serde_json::Value::Null => JsonValue::Null,
        serde_json::Value::Bool(b) => JsonValue::Bool(b),
        serde_json::Value::Number(n) => JsonValue::Number(n.to_string()),
        serde_json::Value::String(s) => JsonValue::Str(s),
        serde_json::Value::Array(a) => JsonValue::Array(a.into_iter().map(json_value_from).collect()),
        serde_json::Value::Object(m) => JsonValue::Object(
            m.into_iter().map(|(k, c)| (k, json_value_from(c))).collect(),
        ),
    }
}

/// Whether serde_json accepts `bytes` as one JSON value.
pub uninterp spec fn is_json_bytes(bytes: Seq<u8>) -> bool;

/// Relies on `serde_json::from_slice` into a `Value`: whether it succeeds
/// depends on the bytes alone.
#[verifier::external_body]
pub(crate) fn parse_json_bytes(bytes: &[u8]) -> (r: Result<serde_json::Value, serde_json::Error>)
    ensures
        r is Ok <==> is_json_bytes(bytes@),
{
    serde_json::from_slice(bytes)
}

/// The value stored under `key` among an object's entries (the first entry
/// with that key; serde_json keeps each key once).
pub open spec fn field(es: Seq<(String, JsonValue)>, key: Seq<char>) -> Option<JsonValue>
    decreases es.len(),
{
    if es.len() == 0 {
        None
    } else if es[0].0@ == key {
        Some(es[0].1)
    } else {
        field(es.drop_first(), key)
    }
}

/// Looks up `key` among an object's entries.
pub fn get_field<'a>(es: &'a Vec<(String, JsonValue)>, key: &str) -> (r: Option<&'a JsonValue>)
    ensures
        match r {
            Some(v) => field(es@, key@) == Some(*v),
            None => field(es@, key@) is None,
        },
{
    let mut i: usize = 0;
    assert(es@.skip(0) =~= es@);
    while i < es.len()
        invariant
            i <= es@.len(),
            field(es@, key@) == field(es@.skip(i as int), key@),
        decreases es.len() - i,
    {
        assert(es@.skip(i as int).drop_first() =~= es@.skip(i + 1));
        assert(es@.skip(i as int)[0] == es@[i as int]);
        if equals(es[i].0.as_str(), key) {
            return Some(&es[i].1);
        }
        i = i + 1;
    }
    None
}

/// The entries of an object whose values are strings, as `(key, text)`, in
/// order.
pub open spec fn string_pairs(es: Seq<(String, JsonValue)>) -> Seq<(Seq<char>, Seq<char>)>
    decreases es.len(),
{
    if es.len() == 0 {
        Seq::empty()
    } else {
        match es.last().1 {
            JsonValue::Str(t) => string_pairs(es.drop_last()).push((es.last().0@, t@)),
            _ => string_pairs(es.drop_last()),
        }
    }
}

/// The views of `(key, text)` string pairs.
pub open spec fn string_pair_views(ps: Seq<(String, String)>) -> Seq<(Seq<char>, Seq<char>)> {
    ps.map_values(|p: (String, String)| (p.0@, p.1@))
}

/// Collects the string-valued entries of an object.
pub fn string_entries(es: &Vec<(String, JsonValue)>) -> (r: Vec<(String, String)>)
    ensures
        string_pair_views(r@) == string_pairs(es@),
{
    let mut r: Vec<(String, String)> = Vec::new();
    let mut i: usize = 0;
    while i < es.len()
        invariant
            i <= es@.len(),
            string_pair_views(r@) == string_pairs(es@.take(i as int)),
        decreases es.len() - i,
    {
        let ghost taken = es@.take(i + 1);
        assert(taken.drop_last() =~= es@.take(i as int));
        assert(taken.last() == es@[i as int]);
        match &es[i].1 {
            JsonValue::Str(t) => {
                let ghost before = r@;
                let pair = (es[i].0.clone(), t.clone());
                r.push(pair);
                assert(string_pair_views(r@) =~= string_pair_views(before).push((pair.0@, pair.1@)));
            },
            _ => {},
        }
        i = i + 1;
    }
    assert(es@.take(es@.len() as int) =~= es@);
    r
}

} // verus!
