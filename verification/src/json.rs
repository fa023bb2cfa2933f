//! JSON values as the rest of the crate sees them.
//!
//! Documents, comparison values and SQL parameters are `serde_json::Value`s.
//! Verus cannot look inside one, so this module states what a value holds as a
//! ghost tree, [`Json`], and gives each `serde_json` call that the crate makes
//! a contract over that tree. Nothing in this module is proved: every function
//! below is a thin call into `serde_json` whose contract restates that crate's
//! source. The contracts assume that `serde_json` is built without its
//! `arbitrary_precision` feature; they hold whichever map backs its objects.

use serde_json::Value;
use vstd::prelude::*;

verus! {

/// `serde_json::Value`, carried as an opaque value.
#[verifier::external_type_specification]
#[verifier::external_body]
pub struct ExValue(serde_json::Value);

/// `serde_json::Error`, carried as an opaque value.
#[verifier::external_type_specification]
#[verifier::external_body]
pub struct ExJsonError(serde_json::Error);

/// A JSON number, in the three forms that `serde_json` keeps apart. Two
/// numbers of different forms are never equal, whatever they denote.
pub enum JsonNumber {
    /// An integer from 0 to `u64::MAX`.
    PosInt(u64),
    /// An integer below zero.
    NegInt(i64),
    /// A finite binary64 value, named by its bit pattern with the sign of a
    /// zero cleared, so that equal bits mean equal floats and the reverse.
    Float(u64),
}

/// The tree that a JSON value stands for. Objects are maps: the order of
/// their members is no part of a value's identity.
pub enum Json {
    Null,
    Bool(bool),
    Number(JsonNumber),
    String(Seq<char>),
    Array(Seq<Json>),
    Object(Map<Seq<char>, Json>),
}

/// The tree held by a `serde_json::Value`.
pub uninterp spec fn json_model(v: Value) -> Json;

/// Whether the first number is below the second once both are taken as
/// binary64 values, as `Number::as_f64` converts them.
pub uninterp spec fn number_less(a: JsonNumber, b: JsonNumber) -> bool;

/// The tree that `serde_json::from_str` reads from a text, or `None` where
/// it rejects the text.
pub uninterp spec fn json_parse(text: Seq<char>) -> Option<Json>;

/// The text that `serde_json::to_string` writes for a value.
pub uninterp spec fn json_text(v: Value) -> Seq<char>;

/// The trees held by a sequence of values, one for one.
pub open spec fn json_models(values: Seq<Value>) -> Seq<Json> {
    Seq::new(values.len(), |i: int| json_model(values[i]))
}

/// The member of an object under a key; `None` for a missing key and for
/// anything that is not an object.
pub open spec fn json_member(doc: Json, key: Seq<char>) -> Option<Json> {
    match doc {
        Json::Object(members) => if members.contains_key(key) {
            Some(members[key])
        } else {
            None
        },
        _ => None,
    }
}

/// The map that a list of members builds: a later member replaces an earlier
/// one with the same key.
pub open spec fn json_members(members: Seq<(String, Value)>) -> Map<Seq<char>, Json>
    decreases members.len(),
{
    if members.len() == 0 {
        Map::empty()
    } else {
        json_members(members.drop_last()).insert(
            members.last().0@,
            json_model(members.last().1),
        )
    }
}

/// `Value::get` with a string key. By the source it looks the key up in an
/// object's map and gives `None` for every other kind of value.
#[verifier::external_body]
pub(crate) fn value_get<'a>(doc: &'a Value, key: &str) -> (r: Option<&'a Value>)
    ensures
        json_member(json_model(*doc), key@) == match r {
            Some(v) => Some(json_model(*v)),
            None => None,
        },
{
    doc.get(key)
}

/// `==` on two values: the derived comparison, variant by variant, with maps
/// compared as sets of members and numbers form by form.
#[verifier::external_body]
pub(crate) fn value_equal(a: &Value, b: &Value) -> (r: bool)
    ensures
        r == (json_model(*a) == json_model(*b)),
{
    a == b
}

/// `Value::is_number`.
#[verifier::external_body]
pub(crate) fn value_is_number(v: &Value) -> (r: bool)
    ensures
        r == (json_model(*v) is Number),
{
    v.is_number()
}

/// `Value::as_f64` on two numbers and `<` on what it gives. On a number
/// `as_f64` always gives a float, so `<` compares the two floats.
#[verifier::external_body]
pub(crate) fn value_less(a: &Value, b: &Value) -> (r: bool)
    requires
        json_model(*a) is Number,
        json_model(*b) is Number,
    ensures
        r == number_less(json_model(*a)->Number_0, json_model(*b)->Number_0),
{
    a.as_f64() < b.as_f64()
}

/// `Value::as_array`: the items of an array, `None` for anything else.
#[verifier::external_body]
pub(crate) fn value_items(v: &Value) -> (r: Option<&Vec<Value>>)
    ensures
        match r {
            Some(items) => json_model(*v) == Json::Array(json_models(items@)),
            None => !(json_model(*v) is Array),
        },
{
    v.as_array()
}

/// `Value::as_str`: the text of a string, `None` for anything else.
#[verifier::external_body]
pub(crate) fn value_str(v: &Value) -> (r: Option<&str>)
    ensures
        match r {
            Some(s) => json_model(*v) == Json::String(s@),
            None => !(json_model(*v) is String),
        },
{
    v.as_str()
}

/// `Value::as_u64`: the integer of a number in its non-negative integer
/// form, `None` for the other two forms and for anything that is no number.
#[verifier::external_body]
pub(crate) fn value_u64(v: &Value) -> (r: Option<u64>)
    ensures
        r == match json_model(*v) {
            Json::Number(JsonNumber::PosInt(n)) => Some(n),
            _ => None,
        },
{
    v.as_u64()
}

/// `Value::is_object`.
#[verifier::external_body]
pub(crate) fn value_is_object(v: &Value) -> (r: bool)
    ensures
        r == (json_model(*v) is Object),
{
    v.is_object()
}

/// `Value::clone`: a copy that holds the same tree.
#[verifier::external_body]
pub(crate) fn value_clone(v: &Value) -> (r: Value)
    ensures
        json_model(r) == json_model(*v),
{
    v.clone()
}

/// The variant `Value::Null`.
#[verifier::external_body]
pub(crate) fn value_null() -> (r: Value)
    ensures
        json_model(r) == Json::Null,
{
    Value::Null
}

/// `Value::from` on a `u64`: a number in its non-negative integer form.
#[verifier::external_body]
pub(crate) fn value_from_u64(n: u64) -> (r: Value)
    ensures
        json_model(r) == Json::Number(JsonNumber::PosInt(n)),
{
    Value::from(n)
}

/// The variant `Value::String`.
#[verifier::external_body]
pub(crate) fn value_from_string(s: String) -> (r: Value)
    ensures
        json_model(r) == Json::String(s@),
{
    Value::String(s)
}

/// The variant `Value::Array`.
#[verifier::external_body]
pub(crate) fn value_from_items(items: Vec<Value>) -> (r: Value)
    ensures
        json_model(r) == Json::Array(json_models(items@)),
{
    Value::Array(items)
}

/// The variant `Value::Object`, its map collected from the members in order.
/// Collecting inserts one member after the other, and an insert under a key
/// that is present replaces the value.
#[verifier::external_body]
pub(crate) fn value_from_members(members: Vec<(String, Value)>) -> (r: Value)
    ensures
        json_model(r) == Json::Object(json_members(members@)),
{
    Value::Object(members.into_iter().collect())
}

/// `serde_json::from_str` at the type `Value`.
#[verifier::external_body]
pub(crate) fn parse_value(text: &str) -> (r: Result<Value, serde_json::Error>)
    ensures
        json_parse(text@) == match r {
            Ok(v) => Some(json_model(v)),
            Err(_) => None,
        },
{
    serde_json::from_str::<Value>(text)
}

/// `serde_json::to_string` on a value. It always gives a text: it writes
/// into a vector in memory, a `Value` serializes as null, a boolean, a
/// number, a string, a sequence or a map with string keys only, and raises
/// no error of its own.
#[verifier::external_body]
pub(crate) fn print_value(v: &Value) -> (r: Result<String, serde_json::Error>)
    ensures
        r is Ok,
        r matches Ok(s) ==> s@ == json_text(*v),
{
    serde_json::to_string(v)
}

} // verus!
