//! JSON documents, read and written by `serde_json`, with a mathematical
//! model of what a document holds.

use vstd::prelude::*;

verus! {

/// A JSON value of `serde_json`. Opaque here; `json_model` says what it
/// holds.
#[verifier::external_type_specification]
#[verifier::external_body]
pub struct ExJsonValue(serde_json::Value);

/// Why `serde_json` refuses bytes or a value. Opaque here.
#[verifier::external_type_specification]
#[verifier::external_body]
pub struct ExJsonError(serde_json::Error);

/// What a JSON value holds. A number carries its value where it is held as
/// an integer, and `None` otherwise.
pub enum Json {
    Null,
    Bool(bool),
    Number(Option<int>),
    String(Seq<char>),
    Array(Seq<Json>),
    Object(Map<Seq<char>, Json>),
}

/// What a `serde_json::Value` holds.
pub uninterp spec fn json_model(value: serde_json::Value) -> Json;

/// What `serde_json::from_slice` reads from `bytes`: the document, or `None`
/// where the bytes are not one JSON document.
pub uninterp spec fn json_parsed(bytes: Seq<u8>) -> Option<Json>;

/// What `serde_json` writes for `document`, an object all of whose members
/// are strings, through the `Display` of `serde_json::Value`: its compact
/// JSON text.
pub uninterp spec fn json_text(document: Json) -> Seq<char>;

/// The member `key` of `j`, if `j` is an object that has one.
pub open spec fn member(j: Json, key: Seq<char>) -> Option<Json> {
    match j {
        Json::Object(members) => if members.contains_key(key) {
            Some(members[key])
        } else {
            None
        },
        _ => None,
    }
}

/// The text of the member `key` of `j`, if `j` is an object in which `key`
/// is a string.
pub open spec fn string_member(j: Json, key: Seq<char>) -> Option<Seq<char>> {
    match member(j, key) {
        Some(Json::String(text)) => Some(text),
        _ => None,
    }
}

/// The members of `j`: those of an object, none of `null`.
pub open spec fn members_of(j: Json) -> Map<Seq<char>, Json> {
    match j {
        Json::Object(members) => members,
        _ => Map::empty(),
    }
}

/// Whether `j` is an object all of whose members are strings.
pub open spec fn is_string_object(j: Json) -> bool {
    j matches Json::Object(members) && forall|key: Seq<char>| #[trigger]
        members.contains_key(key) ==> members[key] is String
}

/// Reads a JSON document.
///
/// Trusted: calls `serde_json::from_slice::<serde_json::Value>`. The contract
/// names the result and ties the value returned to its model.
#[verifier::external_body]
pub(crate) fn parse_json(bytes: &[u8]) -> (r: Result<serde_json::Value, serde_json::Error>)
    ensures
        match r {
            Ok(value) => json_parsed(bytes@) == Some(json_model(value)),
            Err(_) => json_parsed(bytes@) is None,
        },
{
    serde_json::from_slice::<serde_json::Value>(bytes)
}

/// Looks a member up by name.
///
/// Trusted: calls `serde_json::Value::get` with a string index, which gives
/// the member of an object and `None` for a missing member or another kind of
/// value.
#[verifier::external_body]
pub(crate) fn json_get<'a>(value: &'a serde_json::Value, key: &str) -> (r: Option<
    &'a serde_json::Value,
>)
    ensures
        match r {
            Some(found) => member(json_model(*value), key@) == Some(json_model(*found)),
            None => member(json_model(*value), key@) is None,
        },
{
    value.get(key)
}

/// The text of a JSON string.
///
/// Trusted: calls `serde_json::Value::as_str`, which gives the text of a
/// string and `None` for any other kind of value.
#[verifier::external_body]
pub(crate) fn json_as_str<'a>(value: &'a serde_json::Value) -> (r: Option<&'a str>)
    ensures
        match r {
            Some(text) => json_model(*value) == Json::String(text@),
            None => !(json_model(*value) is String),
        },
{
    value.as_str()
}

/// The elements of a JSON array.
///
/// Trusted: calls `serde_json::Value::as_array`, which gives the elements of
/// an array and `None` for any other kind of value.
#[verifier::external_body]
pub(crate) fn json_as_array<'a>(value: &'a serde_json::Value) -> (r: Option<
    &'a Vec<serde_json::Value>,
>)
    ensures
        match r {
            Some(items) => json_model(*value) == Json::Array(
                items@.map_values(|item: serde_json::Value| json_model(item)),
            ),
            None => !(json_model(*value) is Array),
        },
{
    value.as_array()
}

/// Whether a JSON value is a number.
///
/// Trusted: calls `serde_json::Value::is_number`.
#[verifier::external_body]
pub(crate) fn json_is_number(value: &serde_json::Value) -> (r: bool)
    ensures
        r == (json_model(*value) is Number),
{
    value.is_number()
}

/// The JSON value `null`.
///
/// Trusted: builds `serde_json::Value::Null`.
#[verifier::external_body]
pub(crate) fn json_null() -> (r: serde_json::Value)
    ensures
        json_model(r) == Json::Null,
{
    serde_json::Value::Null
}

/// The JSON string with the given text.
///
/// Trusted: builds `serde_json::Value::String`.
#[verifier::external_body]
pub(crate) fn json_string(text: &str) -> (r: serde_json::Value)
    ensures
        json_model(r) == Json::String(text@),
{
    serde_json::Value::String(text.to_string())
}

/// The JSON array with the given elements.
///
/// Trusted: builds `serde_json::Value::Array`.
#[verifier::external_body]
pub(crate) fn json_array(items: Vec<serde_json::Value>) -> (r: serde_json::Value)
    ensures
        json_model(r) == Json::Array(items@.map_values(|item: serde_json::Value| json_model(item))),
{
    serde_json::Value::Array(items)
}

/// The JSON number `n`.
///
/// Trusted: builds a `serde_json::Value` with `From<i64>`, which gives a
/// number.
#[verifier::external_body]
pub(crate) fn json_integer(n: i64) -> (r: serde_json::Value)
    ensures
        json_model(r) == Json::Number(Some(n as int)),
{
    serde_json::Value::from(n)
}

/// A copy of a JSON value.
///
/// Trusted: calls `Clone::clone` of `serde_json::Value`, which is derived.
#[verifier::external_body]
pub(crate) fn json_clone(value: &serde_json::Value) -> (r: serde_json::Value)
    ensures
        json_model(r) == json_model(*value),
{
    value.clone()
}

/// Sets the member `key` of an object to `item`. A `null` becomes an object
/// with that one member.
///
/// Trusted: assigns through `IndexMut<&str>` of `serde_json::Value`, which
/// turns `null` into an empty object, inserts or replaces the member, and
/// panics on any other kind of value.
#[verifier::external_body]
pub(crate) fn json_set(value: &mut serde_json::Value, key: &str, item: serde_json::Value)
    requires
        json_model(*old(value)) is Null || json_model(*old(value)) is Object,
    ensures
        json_model(*final(value)) == Json::Object(
            members_of(json_model(*old(value))).insert(key@, json_model(item)),
        ),
{
    value[key] = item;
}

/// Writes a JSON document in its compact form.
///
/// Trusted: calls `to_string` on a `serde_json::Value`, which goes through
/// its `Display`. Writing a value into a string cannot fail. `serde_json` is
/// used without its `preserve_order` feature, so an object keeps its members
/// sorted by name and the text of an object of strings depends on its members
/// alone. The contract names that text and claims that
/// `serde_json::from_slice` reads the same object back from its bytes.
#[verifier::external_body]
pub(crate) fn json_to_text(value: &serde_json::Value) -> (r: String)
    ensures
        is_string_object(json_model(*value)) ==> r@ == json_text(json_model(*value)),
        is_string_object(json_model(*value)) ==> json_parsed(vstd::utf8::encode_utf8(r@)) == Some(
            json_model(*value),
        ),
{
    value.to_string()
}

/// The text of the member `key` of a JSON object, if it is a string.
pub fn get_string(value: &serde_json::Value, key: &str) -> (r: Option<String>)
    ensures
        r.deep_view() == string_member(json_model(*value), key@),
        r matches Some(text) ==> string_member(json_model(*value), key@) == Some(text@),
        r is None ==> string_member(json_model(*value), key@) is None,
{
    match json_get(value, key) {
        Some(found) => match json_as_str(found) {
            Some(text) => Some(text.to_string()),
            None => None,
        },
        None => None,
    }
}

} // verus!
