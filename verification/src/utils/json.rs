//! Reading and writing the JSON texts of the wire format.
//!
//! Parsing and printing are `serde_json`'s. A parsed value is carried through
//! as it is; what the library knows of it is its compact text, and every
//! answer of `serde_json` about a value has a name that says what it is of
//! that text.

use vstd::prelude::*;
use vstd::string::StringExecFns;
use serde_json::Value;

verus! {

/// A JSON value of `serde_json`.
#[verifier::external_type_specification]
#[verifier::external_body]
pub struct ExValue(Value);

/// The compact JSON text of a value: what its `Display` writes.
pub uninterp spec fn json_text(value: Value) -> Seq<char>;

/// The compact JSON text of the value that a text holds; `None` where the
/// text is no JSON.
pub uninterp spec fn json_compact(text: Seq<char>) -> Option<Seq<char>>;

/// The member `key` of the object with the compact text `doc`, as compact
/// text; `None` where `doc` is no object or has no such member.
pub uninterp spec fn json_member(doc: Seq<char>, key: Seq<char>) -> Option<Seq<char>>;

/// The string whose JSON literal `doc` is; `None` where `doc` is no string.
pub uninterp spec fn json_string_value(doc: Seq<char>) -> Option<Seq<char>>;

/// The whole number whose JSON numeral `doc` is; `None` where `doc` is no
/// whole number of 64 bits.
pub uninterp spec fn json_i64_value(doc: Seq<char>) -> Option<i64>;

/// The JSON literal of a string: the string in double quotes, escaped.
pub uninterp spec fn json_string_literal(s: Seq<char>) -> Seq<char>;

/// The characters of a text that may be absent.
pub open spec fn text_of(o: Option<String>) -> Option<Seq<char>> {
    match o {
        Some(s) => Some(s@),
        None => None,
    }
}

/// The compact text of a value that may be absent.
pub open spec fn document_of(o: Option<Value>) -> Option<Seq<char>> {
    match o {
        Some(v) => Some(json_text(v)),
        None => None,
    }
}

/// `serde_json::from_str` to a `Value`: the value that the text holds, or
/// nothing where the text is no JSON.
#[verifier::external_body]
pub(crate) fn parse(text: &str) -> (r: Option<Value>)
    ensures
        document_of(r) == json_compact(text@),
{
    serde_json::from_str::<Value>(text).ok()
}

/// `Value::get` with a string key: a copy of the member of that name, or
/// nothing where the value is no object or has no such member.
#[verifier::external_body]
pub(crate) fn member(doc: &Value, key: &str) -> (r: Option<Value>)
    ensures
        document_of(r) == json_member(json_text(*doc), key@),
{
    doc.get(key).cloned()
}

/// `Value`'s `Display`: the value as compact JSON text.
#[verifier::external_body]
pub(crate) fn text(doc: &Value) -> (r: String)
    ensures
        r@ == json_text(*doc),
{
    doc.to_string()
}

/// `Value::as_str`: the string that the value is, or nothing where it is
/// no string.
#[verifier::external_body]
pub(crate) fn as_string(doc: &Value) -> (r: Option<String>)
    ensures
        text_of(r) == json_string_value(json_text(*doc)),
{
    doc.as_str().map(str::to_owned)
}

/// `Value::as_i64`: the whole number that the value is, or nothing where it
/// is no number, has a fraction or does not fit 64 bits.
#[verifier::external_body]
pub(crate) fn as_i64(doc: &Value) -> (r: Option<i64>)
    ensures
        r == json_i64_value(json_text(*doc)),
{
    doc.as_i64()
}

/// `Value::from` of a string slice: the JSON string of that text.
#[verifier::external_body]
pub(crate) fn string_node(s: &str) -> (r: Value)
    ensures
        json_text(r) == json_string_literal(s@),
{
    Value::from(s)
}

/// The member `key` of the object that a text holds, as compact text.
pub open spec fn member_of(text: Seq<char>, key: Seq<char>) -> Option<Seq<char>> {
    match json_compact(text) {
        Some(doc) => json_member(doc, key),
        None => None,
    }
}

/// The string that a member holds, where there is the member and it is one.
pub open spec fn string_in(m: Option<Seq<char>>) -> Option<Seq<char>> {
    match m {
        Some(doc) => json_string_value(doc),
        None => None,
    }
}

/// The whole number of 32 bits whose JSON numeral `doc` is.
pub open spec fn json_i32_value(doc: Seq<char>) -> Option<i32> {
    match json_i64_value(doc) {
        Some(n) => if -0x8000_0000 <= n <= 0x7fff_ffff {
            Some(n as i32)
        } else {
            None
        },
        None => None,
    }
}

/// The whole number that a member holds, where there is the member and it
/// is one of 32 bits.
pub open spec fn i32_in(m: Option<Seq<char>>) -> Option<i32> {
    match m {
        Some(doc) => json_i32_value(doc),
        None => None,
    }
}

/// The string held by the member `key` of the object in `text`.
pub open spec fn string_field(text: Seq<char>, key: Seq<char>) -> Option<Seq<char>> {
    string_in(member_of(text, key))
}

/// The whole number held by the member `key` of the object in `text`.
pub open spec fn i32_field(text: Seq<char>, key: Seq<char>) -> Option<i32> {
    i32_in(member_of(text, key))
}

/// Reads a value as a whole number of 32 bits.
pub(crate) fn as_i32(doc: &Value) -> (r: Option<i32>)
    ensures
        r == json_i32_value(json_text(*doc)),
{
    match as_i64(doc) {
        Some(n) => if -0x8000_0000 <= n && n <= 0x7fff_ffff {
            Some(n as i32)
        } else {
            None
        },
        None => None,
    }
}

/// Reads the member `key` of a value as a string.
pub(crate) fn string_member(doc: &Value, key: &str) -> (r: Option<String>)
    ensures
        text_of(r) == string_in(json_member(json_text(*doc), key@)),
{
    match member(doc, key) {
        Some(m) => as_string(&m),
        None => None,
    }
}

/// Reads the member `key` of a value as a whole number of 32 bits.
pub(crate) fn i32_member(doc: &Value, key: &str) -> (r: Option<i32>)
    ensures
        r == i32_in(json_member(json_text(*doc), key@)),
{
    match member(doc, key) {
        Some(m) => as_i32(&m),
        None => None,
    }
}

/// Reads the member `key` of a value as compact JSON text.
pub(crate) fn member_text(doc: &Value, key: &str) -> (r: Option<String>)
    ensures
        text_of(r) == json_member(json_text(*doc), key@),
{
    match member(doc, key) {
        Some(m) => Some(text(&m)),
        None => None,
    }
}

/// Reads the member `key` of the object in `text` as compact JSON text.
pub fn get_member(text: &str, key: &str) -> (r: Option<String>)
    ensures
        text_of(r) == member_of(text@, key@),
{
    match parse(text) {
        Some(doc) => member_text(&doc, key),
        None => None,
    }
}

/// Reads the member `key` of the object in `text` as a string.
pub fn get_string_field(text: &str, key: &str) -> (r: Option<String>)
    ensures
        text_of(r) == string_field(text@, key@),
{
    match parse(text) {
        Some(doc) => string_member(&doc, key),
        None => None,
    }
}

/// Reads the member `key` of the object in `text` as a whole number.
pub fn get_i32_field(text: &str, key: &str) -> (r: Option<i32>)
    ensures
        r == i32_field(text@, key@),
{
    match parse(text) {
        Some(doc) => i32_member(&doc, key),
        None => None,
    }
}

/// Rewrites the JSON in `text` in compact form.
pub fn compact(text: &str) -> (r: Option<String>)
    ensures
        text_of(r) == json_compact(text@),
{
    match parse(text) {
        Some(doc) => Some(self::text(&doc)),
        None => None,
    }
}

/// A member of a JSON object whose value is a string: `"name":` and the
/// JSON literal of the value. The name is written as it is.
pub open spec fn string_member_text(name: Seq<char>, value: Seq<char>) -> Seq<char> {
    seq!['"'] + name + seq!['"', ':'] + json_string_literal(value)
}

/// Appends `"name":` and the JSON literal of `value`.
pub fn push_string_member(out: &mut String, name: &str, value: &str)
    ensures
        final(out)@ == old(out)@ + string_member_text(name@, value@),
{
    let literal = text(&string_node(value));
    out.push('"');
    out.append(name);
    out.push('"');
    out.push(':');
    out.append(literal.as_str());
    assert(out@ == old(out)@ + string_member_text(name@, value@));
}

} // verus!
