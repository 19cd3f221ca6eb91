use serde_json::Value;
use vstd::prelude::*;

verus! {

/// A JSON document in memory, `serde_json::Value`, carried as it is.
#[verifier::external_type_specification]
#[verifier::external_body]
pub struct ExValue(Value);

/// The document that `serde_json::from_str` reads from a text, where the text
/// is one well-formed JSON value.
pub uninterp spec fn json_parse(text: Seq<char>) -> Option<Value>;

/// The member of an object under a key, as `Value::get` finds it; nothing for a
/// missing key and for a value that is no object.
pub uninterp spec fn json_member(value: Value, key: Seq<char>) -> Option<Value>;

/// The characters of a string value, as `Value::as_str` gives them; nothing for
/// any other value.
pub uninterp spec fn json_text(value: Value) -> Option<Seq<char>>;

/// The items of an array value in their order, as `Value::as_array` gives
/// them; nothing for any other value.
pub uninterp spec fn json_items(value: Value) -> Option<Seq<Value>>;

/// The JSON string literal that `serde_json::to_string` writes for a text:
/// quoted, with escapes.
pub uninterp spec fn json_literal(text: Seq<char>) -> Seq<char>;

/// `serde_json::from_str` at `Value`: the document of a well-formed text,
/// nothing where the parser reports an error.
#[verifier::external_body]
pub(crate) fn parse(text: &str) -> (document: Option<Value>)
    ensures
        document == json_parse(text@),
{
    serde_json::from_str::<Value>(text).ok()
}

/// `Value::get` with a string key: the member under that key.
#[verifier::external_body]
pub(crate) fn member<'a>(value: &'a Value, key: &str) -> (found: Option<&'a Value>)
    ensures
        found is Some <==> json_member(*value, key@) is Some,
        found is Some ==> *found->0 == json_member(*value, key@)->0,
{
    value.get(key)
}

/// `Value::as_str`: the characters of a string value.
#[verifier::external_body]
pub(crate) fn text<'a>(value: &'a Value) -> (found: Option<&'a str>)
    ensures
        found is Some <==> json_text(*value) is Some,
        found is Some ==> found->0@ == json_text(*value)->0,
{
    value.as_str()
}

/// `Value::as_array`: the items of an array value.
#[verifier::external_body]
pub(crate) fn items<'a>(value: &'a Value) -> (found: Option<&'a Vec<Value>>)
    ensures
        found is Some <==> json_items(*value) is Some,
        found is Some ==> found->0@ == json_items(*value)->0,
{
    value.as_array()
}

/// `serde_json::to_string` on a string slice, which this serializer always
/// writes.
#[verifier::external_body]
pub(crate) fn literal(text: &str) -> (quoted: String)
    ensures
        quoted@ == json_literal(text@),
{
    serde_json::to_string(text).unwrap()
}

/// The text of the string member under `key`, if `value` has one.
pub open spec fn text_member(value: Value, key: Seq<char>) -> Option<Seq<char>> {
    match json_member(value, key) {
        Some(found) => json_text(found),
        None => None,
    }
}

/// The items of the array member under `key`, if `value` has one.
pub open spec fn items_member(value: Value, key: Seq<char>) -> Option<Seq<Value>> {
    match json_member(value, key) {
        Some(found) => json_items(found),
        None => None,
    }
}

/// A copy of the characters of a string value.
pub fn text_copy(value: &Value) -> (found: Option<String>)
    ensures
        found is Some <==> json_text(*value) is Some,
        found is Some ==> found->0@ == json_text(*value)->0,
{
    match text(value) {
        Some(characters) => Some(characters.to_owned()),
        None => None,
    }
}

/// A copy of the string member under `key`.
pub fn member_text(document: &Value, key: &str) -> (found: Option<String>)
    ensures
        found is Some <==> text_member(*document, key@) is Some,
        found is Some ==> found->0@ == text_member(*document, key@)->0,
{
    match member(document, key) {
        Some(value) => text_copy(value),
        None => None,
    }
}

} // verus!
