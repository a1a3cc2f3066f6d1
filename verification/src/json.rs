//! JSON values as the library sees them: a mathematical tree that says what
//! a value holds, and the calls that read and build values.
//!
//! Numbers that may have a fractional part are carried as they are, as
//! `serde_json::Number`, and never looked into.

use vstd::prelude::*;

verus! {

/// `serde_json::Value`: a JSON value.
#[verifier::external_type_specification]
#[verifier::external_body]
pub struct ExJsonValue(serde_json::Value);

/// `serde_json::Number`: one JSON number.
#[verifier::external_type_specification]
#[verifier::external_body]
pub struct ExJsonNumber(serde_json::Number);

/// `serde_json::Map`: the members of a JSON object.
#[verifier::external_type_specification]
#[verifier::external_body]
#[verifier::reject_recursive_types(K)]
#[verifier::reject_recursive_types(V)]
pub struct ExJsonMap<K, V>(serde_json::Map<K, V>);

/// The members of a JSON object under construction.
pub type Members = serde_json::Map<String, serde_json::Value>;

/// What a JSON number is to the library: an unsigned integer that fits
/// 64 bits, or any other number, known only as itself.
pub enum Numeral {
    /// An unsigned integer that fits 64 bits.
    Unsigned(u64),
    /// A negative number, or one with a fraction or an exponent.
    Other(serde_json::Number),
}

/// What a JSON value holds.
pub enum Json {
    /// `null`.
    Null,
    /// `true` or `false`.
    Bool(bool),
    /// A number.
    Number(Numeral),
    /// A string.
    Text(Seq<char>),
    /// An array: its items in order.
    Array(Seq<Json>),
    /// An object: its members by name.
    Object(Map<Seq<char>, Json>),
}

/// What `value` holds. The calls below say what each of them shows of it.
pub uninterp spec fn json_of(value: serde_json::Value) -> Json;

/// What `number` is.
pub uninterp spec fn numeral_of(number: serde_json::Number) -> Numeral;

/// What the object under construction `members` holds.
pub uninterp spec fn members_of(members: Members) -> Map<Seq<char>, Json>;

/// The value that the bytes `text` spell as JSON, if they spell one.
pub uninterp spec fn parsed(text: Seq<u8>) -> Option<Json>;

/// The members of an object that has none.
pub open spec fn nothing() -> Map<Seq<char>, Json> {
    Map::empty()
}

/// The member of `json` under `name`: there is one where `json` is an
/// object that has the name.
pub open spec fn member(json: Json, name: Seq<char>) -> Option<Json> {
    match json {
        Json::Object(members) => if members.contains_key(name) {
            Some(members[name])
        } else {
            None
        },
        _ => None,
    }
}

/// `json` as an unsigned integer of 64 bits.
pub open spec fn unsigned_of(json: Json) -> Option<u64> {
    match json {
        Json::Number(Numeral::Unsigned(n)) => Some(n),
        _ => None,
    }
}

/// `json` as a number.
pub open spec fn number_of(json: Json) -> Option<Numeral> {
    match json {
        Json::Number(n) => Some(n),
        _ => None,
    }
}

/// `json` as a text.
pub open spec fn text_of(json: Json) -> Option<Seq<char>> {
    match json {
        Json::Text(t) => Some(t),
        _ => None,
    }
}

/// `json` as a list.
pub open spec fn items_of(json: Json) -> Option<Seq<Json>> {
    match json {
        Json::Array(items) => Some(items),
        _ => None,
    }
}

/// What each of `values` holds, in order.
pub open spec fn jsons_of(values: Seq<serde_json::Value>) -> Seq<Json> {
    Seq::new(values.len(), |i: int| json_of(values[i]))
}

/// Calls `serde_json::from_slice` for a `Value`. Claims that the outcome is
/// a function of the bytes alone: the same bytes always fail, or always
/// give a value that holds the same.
#[verifier::external_body]
pub(crate) fn parse(text: &[u8]) -> (r: Result<serde_json::Value, serde_json::Error>)
    ensures
        match r {
            Ok(value) => parsed(text@) == Some(json_of(value)),
            Err(_) => parsed(text@) is None,
        },
{
    serde_json::from_slice::<serde_json::Value>(text)
}

/// Calls `Value::get` with a string index. Claims what its documentation
/// says: the member under `name` where the value is an object that has the
/// name, nothing otherwise.
#[verifier::external_body]
pub(crate) fn get<'a>(value: &'a serde_json::Value, name: &str) -> (r: Option<
    &'a serde_json::Value,
>)
    ensures
        match r {
            Some(m) => member(json_of(*value), name@) == Some(json_of(*m)),
            None => member(json_of(*value), name@) is None,
        },
{
    value.get(name)
}

/// Calls `Value::is_object`.
#[verifier::external_body]
pub(crate) fn is_object(value: &serde_json::Value) -> (r: bool)
    ensures
        r == (json_of(*value) is Object),
{
    value.is_object()
}

/// Calls `Value::is_null`.
#[verifier::external_body]
pub(crate) fn is_null(value: &serde_json::Value) -> (r: bool)
    ensures
        r == (json_of(*value) is Null),
{
    value.is_null()
}

/// Calls `Value::as_u64`: the number where the value is an unsigned integer
/// that fits 64 bits.
#[verifier::external_body]
pub(crate) fn as_unsigned(value: &serde_json::Value) -> (r: Option<u64>)
    ensures
        r == unsigned_of(json_of(*value)),
{
    value.as_u64()
}

/// Calls `Value::as_number` and copies what it gives: the number where the
/// value is one.
#[verifier::external_body]
pub(crate) fn as_number(value: &serde_json::Value) -> (r: Option<serde_json::Number>)
    ensures
        match r {
            Some(n) => number_of(json_of(*value)) == Some(numeral_of(n)),
            None => number_of(json_of(*value)) is None,
        },
{
    match value.as_number() {
        Some(n) => Some(n.clone()),
        None => None,
    }
}

/// Calls `Value::as_str`: the text where the value is a string.
#[verifier::external_body]
pub(crate) fn as_text<'a>(value: &'a serde_json::Value) -> (r: Option<&'a str>)
    ensures
        match r {
            Some(t) => text_of(json_of(*value)) == Some(t@),
            None => text_of(json_of(*value)) is None,
        },
{
    value.as_str()
}

/// Calls `Value::as_array`: the items, in order, where the value is an
/// array.
#[verifier::external_body]
pub(crate) fn as_items<'a>(value: &'a serde_json::Value) -> (r: Option<
    &'a Vec<serde_json::Value>,
>)
    ensures
        match r {
            Some(items) => items_of(json_of(*value)) == Some(jsons_of(items@)),
            None => items_of(json_of(*value)) is None,
        },
{
    value.as_array()
}

/// `Number::clone`: a number that is the same.
pub assume_specification[ <serde_json::Number as Clone>::clone ](number: &serde_json::Number) -> (r:
    serde_json::Number)
    ensures
        numeral_of(r) == numeral_of(*number),
;

/// Calls `Value::clone`: a value that holds the same.
#[verifier::external_body]
pub(crate) fn duplicate(value: &serde_json::Value) -> (r: serde_json::Value)
    ensures
        json_of(r) == json_of(*value),
{
    value.clone()
}

/// Gives `Value::Null`.
#[verifier::external_body]
pub(crate) fn null_value() -> (r: serde_json::Value)
    ensures
        json_of(r) == Json::Null,
{
    serde_json::Value::Null
}

/// Calls `Value::from` on a `u64`: the number `n`.
#[verifier::external_body]
pub(crate) fn unsigned_value(n: u64) -> (r: serde_json::Value)
    ensures
        json_of(r) == Json::Number(Numeral::Unsigned(n)),
{
    serde_json::Value::from(n)
}

/// Builds `Value::Number` from a copy of `number`.
#[verifier::external_body]
pub(crate) fn number_value(number: &serde_json::Number) -> (r: serde_json::Value)
    ensures
        json_of(r) == Json::Number(numeral_of(*number)),
{
    serde_json::Value::Number(number.clone())
}

/// Builds `Value::String` from a copy of `text`.
#[verifier::external_body]
pub(crate) fn text_value(text: &str) -> (r: serde_json::Value)
    ensures
        json_of(r) == Json::Text(text@),
{
    serde_json::Value::String(text.to_owned())
}

/// Builds `Value::Array` from `items`.
#[verifier::external_body]
pub(crate) fn array_value(items: Vec<serde_json::Value>) -> (r: serde_json::Value)
    ensures
        json_of(r) == Json::Array(jsons_of(items@)),
{
    serde_json::Value::Array(items)
}

/// Calls `Map::new`: an object under construction, with no member yet.
#[verifier::external_body]
pub(crate) fn no_members() -> (r: Members)
    ensures
        members_of(r) == nothing(),
{
    serde_json::Map::new()
}

/// Calls `Map::insert` with a copy of `name`: the member under `name` is
/// now `value`, whether or not there was one, and the others are as they
/// were.
#[verifier::external_body]
pub(crate) fn put(members: &mut Members, name: &str, value: serde_json::Value)
    ensures
        members_of(*final(members)) == members_of(*old(members)).insert(name@, json_of(value)),
{
    members.insert(name.to_owned(), value);
}

/// Builds `Value::Object` from `members`.
#[verifier::external_body]
pub(crate) fn object_value(members: Members) -> (r: serde_json::Value)
    ensures
        json_of(r) == Json::Object(members_of(members)),
{
    serde_json::Value::Object(members)
}

/// Whether two texts are the same, character by character.
pub fn same_text(a: &str, b: &str) -> (r: bool)
    ensures
        r == (a@ == b@),
{
    a.to_owned() == b.to_owned()
}

} // verus!
