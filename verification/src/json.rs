//! JSON documents.
//!
//! A document is held as `serde_json::Value`, which is opaque here. What it holds is named
//! once, as a tree of plain values, and every operation on it is stated over that tree.
//! Members of an object have no order.

use serde_json::Value;
use vstd::prelude::*;

verus! {

/// `serde_json::Value`, the document.
#[verifier::external_type_specification]
#[verifier::external_body]
pub struct ExValue(serde_json::Value);

/// `serde_json::Map`, the members of an object.
#[verifier::external_type_specification]
#[verifier::external_body]
#[verifier::reject_recursive_types(K)]
#[verifier::reject_recursive_types(V)]
pub struct ExMembers<K, V>(serde_json::Map<K, V>);

/// A JSON number as the document stores it.
pub enum JsonNumber {
    /// An integer of zero or more.
    Unsigned(u64),
    /// An integer below zero.
    Negative(i64),
    /// A floating point number, by its bits in the 64-bit IEEE 754 format.
    Float(u64),
}

/// What a JSON document holds.
pub enum Json {
    Null,
    Bool(bool),
    Number(JsonNumber),
    Text(Seq<char>),
    Array(Seq<Json>),
    Object(Map<Seq<char>, Json>),
}

/// What a `serde_json::Value` holds.
pub uninterp spec fn json_of(value: Value) -> Json;

/// What a `serde_json::Map` holds.
pub uninterp spec fn members_of(members: serde_json::Map<String, Value>) -> Map<Seq<char>, Json>;

/// What a list of values holds.
pub open spec fn list_of(values: Seq<Value>) -> Seq<Json> {
    values.map_values(|value: Value| json_of(value))
}

/// What an optional value holds.
pub open spec fn optional_json(value: Option<Value>) -> Option<Json> {
    match value {
        Some(value) => Some(json_of(value)),
        None => None,
    }
}

/// The member of an object under `key`; nothing where there is none, or no object.
pub open spec fn member(json: Json, key: Seq<char>) -> Option<Json> {
    match json {
        Json::Object(members) => if members.contains_key(key) {
            Some(members[key])
        } else {
            None
        },
        _ => None,
    }
}

/// Whether an object has no member.
pub open spec fn is_memberless(members: Map<Seq<char>, Json>) -> bool {
    members == Map::<Seq<char>, Json>::empty()
}

/// The text under `key`; nothing where there is none.
pub open spec fn text_member(json: Json, key: Seq<char>) -> Option<Seq<char>> {
    match member(json, key) {
        Some(Json::Text(text)) => Some(text),
        _ => None,
    }
}

/// An object with the member under `key` set to `value`; any other document as it is.
pub open spec fn with_member(json: Json, key: Seq<char>, value: Json) -> Json {
    match json {
        Json::Object(members) => Json::Object(members.insert(key, value)),
        other => other,
    }
}

/// Setting a member to what it is changes nothing.
pub proof fn lemma_member_kept(json: Json, key: Seq<char>, value: Json)
    requires
        member(json, key) == Some(value),
    ensures
        with_member(json, key, value) == json,
{
    match json {
        Json::Object(members) => {
            assert(members.insert(key, value) =~= members);
        },
        _ => {},
    }
}

/// The number that the integer `n` is stored as.
pub open spec fn integer(n: i64) -> JsonNumber {
    if n >= 0 {
        JsonNumber::Unsigned(n as u64)
    } else {
        JsonNumber::Negative(n)
    }
}

/// `Value::as_str`: the text of a JSON string, nothing for any other document.
pub assume_specification<'a>[ Value::as_str ](value: &'a Value) -> (found: Option<&'a str>)
    ensures
        match found {
            Some(found) => json_of(*value) == Json::Text(found@),
            None => !(json_of(*value) is Text),
        },
;

/// `Value::is_null`: whether the document is JSON's null.
pub assume_specification[ Value::is_null ](value: &Value) -> (null: bool)
    ensures
        null == (json_of(*value) is Null),
;

/// `Value::is_f64`: whether the document is a number stored as floating point.
pub assume_specification[ Value::is_f64 ](value: &Value) -> (float: bool)
    ensures
        float == (json_of(*value) matches Json::Number(JsonNumber::Float(_))),
;

/// `Value::as_array`: the elements of an array, nothing for any other document.
pub assume_specification<'a>[ Value::as_array ](value: &'a Value) -> (items: Option<&'a Vec<Value>>)
    ensures
        match items {
            Some(items) => json_of(*value) == Json::Array(list_of(items@)),
            None => !(json_of(*value) is Array),
        },
;

/// `Value::as_array_mut`: the elements of an array, to be changed in place.
pub assume_specification<'a>[ Value::as_array_mut ](value: &'a mut Value) -> (items: Option<
    &'a mut Vec<Value>,
>)
    ensures
        match items {
            Some(items) => {
                &&& json_of(*old(value)) == Json::Array(list_of(items@))
                &&& json_of(*final(value)) == Json::Array(list_of(final(items)@))
            },
            None => !(json_of(*old(value)) is Array) && *final(value) == *old(value),
        },
;

/// `Value::as_object`: the members of an object, nothing for any other document.
pub assume_specification<'a>[ Value::as_object ](value: &'a Value) -> (members: Option<
    &'a serde_json::Map<String, Value>,
>)
    ensures
        match members {
            Some(members) => json_of(*value) == Json::Object(members_of(*members)),
            None => !(json_of(*value) is Object),
        },
;

/// `Value::as_object_mut`: the members of an object, to be changed in place.
pub assume_specification<'a>[ Value::as_object_mut ](value: &'a mut Value) -> (members: Option<
    &'a mut serde_json::Map<String, Value>,
>)
    ensures
        match members {
            Some(members) => {
                &&& json_of(*old(value)) == Json::Object(members_of(*members))
                &&& json_of(*final(value)) == Json::Object(members_of(*final(members)))
            },
            None => !(json_of(*old(value)) is Object) && *final(value) == *old(value),
        },
;

/// `Value::get` with a key: the member of an object under it.
#[verifier::external_body]
pub(crate) fn get_member<'a>(value: &'a Value, key: &str) -> (found: Option<&'a Value>)
    ensures
        match found {
            Some(found) => member(json_of(*value), key@) == Some(json_of(*found)),
            None => member(json_of(*value), key@) is None,
        },
{
    value.get(key)
}

/// `Value::get_mut` with a key: the member of an object under it, to be changed in place.
#[verifier::external_body]
pub(crate) fn get_member_mut<'a>(value: &'a mut Value, key: &str) -> (found: Option<&'a mut Value>)
    ensures
        match found {
            Some(found) => {
                &&& member(json_of(*old(value)), key@) == Some(json_of(*found))
                &&& json_of(*final(value)) == with_member(
                    json_of(*old(value)),
                    key@,
                    json_of(*final(found)),
                )
            },
            None => member(json_of(*old(value)), key@) is None && *final(value) == *old(value),
        },
{
    value.get_mut(key)
}

/// `serde_json::Map::new`: no members.
#[verifier::external_body]
pub(crate) fn no_members() -> (members: serde_json::Map<String, Value>)
    ensures
        is_memberless(members_of(members)),
{
    serde_json::Map::new()
}

/// `serde_json::Map::is_empty`: whether there is no member.
#[verifier::external_body]
pub(crate) fn has_no_member(members: &serde_json::Map<String, Value>) -> (empty: bool)
    ensures
        empty == is_memberless(members_of(*members)),
{
    members.is_empty()
}

/// `serde_json::Map::contains_key`: whether there is a member under `key`.
#[verifier::external_body]
pub(crate) fn has_member(members: &serde_json::Map<String, Value>, key: &str) -> (has: bool)
    ensures
        has == members_of(*members).contains_key(key@),
{
    members.contains_key(key)
}

/// `serde_json::Map::insert`: the member under `key` becomes `value`.
#[verifier::external_body]
pub(crate) fn set_member(members: &mut serde_json::Map<String, Value>, key: &str, value: Value)
    ensures
        members_of(*final(members)) == members_of(*old(members)).insert(key@, json_of(value)),
{
    members.insert(key.to_owned(), value);
}

/// `serde_json::Map::remove`: the member under `key` leaves and is handed out.
#[verifier::external_body]
pub(crate) fn take_member(members: &mut serde_json::Map<String, Value>, key: &str) -> (taken:
    Option<Value>)
    ensures
        members_of(*final(members)) == members_of(*old(members)).remove(key@),
        optional_json(taken) == member(Json::Object(members_of(*old(members))), key@),
{
    members.remove(key)
}

/// `serde_json::Map::keys`: every key once.
#[verifier::external_body]
pub(crate) fn member_keys(members: &serde_json::Map<String, Value>) -> (keys: Vec<String>)
    ensures
        crate::text::texts(keys@).no_duplicates(),
        crate::text::texts(keys@).to_set() == members_of(*members).dom(),
{
    members.keys().cloned().collect()
}

/// `Value::String`: a JSON string.
#[verifier::external_body]
pub(crate) fn text_value(content: String) -> (value: Value)
    ensures
        json_of(value) == Json::Text(content@),
{
    Value::String(content)
}

/// `Value::Array`: a JSON array.
#[verifier::external_body]
pub(crate) fn array_value(items: Vec<Value>) -> (value: Value)
    ensures
        json_of(value) == Json::Array(list_of(items@)),
{
    Value::Array(items)
}

/// `Value::Object`: a JSON object.
#[verifier::external_body]
pub(crate) fn object_value(members: serde_json::Map<String, Value>) -> (value: Value)
    ensures
        json_of(value) == Json::Object(members_of(members)),
{
    Value::Object(members)
}

/// `Value::Null`: JSON's null.
#[verifier::external_body]
pub(crate) fn null_value() -> (value: Value)
    ensures
        json_of(value) == Json::Null,
{
    Value::Null
}

/// `Value::from` an `i64`: the JSON number of an integer, stored as an integer.
#[verifier::external_body]
pub(crate) fn integer_value(n: i64) -> (value: Value)
    ensures
        json_of(value) == Json::Number(integer(n)),
{
    Value::from(n)
}

/// `Value::as_f64` of a number stored as floating point, by its bits.
#[verifier::external_body]
pub(crate) fn float_bits(value: &Value) -> (bits: Option<u64>)
    requires
        json_of(*value) matches Json::Number(JsonNumber::Float(_)),
    ensures
        bits matches Some(bits) && json_of(*value) == Json::Number(JsonNumber::Float(bits)),
{
    match value.as_f64() {
        Some(float) => Some(float.to_bits()),
        None => None,
    }
}

/// What `serde_json::from_str` makes of a text; nothing where the text is not JSON.
pub uninterp spec fn parsed_json(source: Seq<char>) -> Option<Json>;

/// `serde_json::from_str` into a `Value`.
#[verifier::external_body]
pub(crate) fn parse_json(source: &str) -> (parsed: Option<Value>)
    ensures
        optional_json(parsed) == parsed_json(source@),
{
    serde_json::from_str::<Value>(source).ok()
}

/// What `serde_json::from_slice` makes of bytes; nothing where they are not JSON.
pub uninterp spec fn parsed_json_bytes(source: Seq<u8>) -> Option<Json>;

/// `serde_json::from_slice` into a `Value`.
#[verifier::external_body]
pub(crate) fn parse_json_bytes(source: &[u8]) -> (parsed: Option<Value>)
    ensures
        optional_json(parsed) == parsed_json_bytes(source@),
{
    serde_json::from_slice::<Value>(source).ok()
}

/// Whether the member of `value` under `key` is the text `expected`.
pub(crate) fn member_is_text(value: &Value, key: &str, expected: &str) -> (is: bool)
    ensures
        is == (text_member(json_of(*value), key@) == Some(expected@)),
{
    match get_member(value, key) {
        Some(found) => match found.as_str() {
            Some(content) => crate::text::same_text(content, expected),
            None => false,
        },
        None => false,
    }
}

/// A list of values stands for what they hold, one for one and in order, and an optional value
/// for what it holds where there is one.
pub proof fn values_stand_for_what_they_hold(values: Seq<Value>, value: Value, i: int)
    requires
        0 <= i < values.len(),
    ensures
        list_of(values).len() == values.len(),
        list_of(values)[i] == json_of(values[i]),
        optional_json(Some(value)) == Some(json_of(value)),
        optional_json(None) is None,
{
}

/// A member that is set is there afterwards, and no other member changes.
pub proof fn setting_a_member_changes_no_other(
    json: Json,
    key: Seq<char>,
    value: Json,
    other: Seq<char>,
)
    ensures
        json is Object ==> member(with_member(json, key, value), key) == Some(value),
        other != key ==> member(with_member(json, key, value), other) == member(json, other),
        !(json is Object) ==> with_member(json, key, value) == json,
{
}

} // verus!
