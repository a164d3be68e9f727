//! The JSON values that documents are read from and written to.
//!
//! Parsing and printing are done by `serde_json`. What a `serde_json::Value`
//! holds is described by a tree of plain values, and every call into
//! `serde_json` is stated over that tree.

use serde_json::Value;
use vstd::prelude::*;

verus! {

/// A JSON number as `serde_json` keeps it.
pub enum JsonNumber {
    /// A non-negative integer that fits in 64 bits.
    Unsigned(u64),
    /// A negative integer that fits in 64 bits.
    Negative(i64),
    /// Any other number, by the bit pattern of its 64-bit binary form.
    Real(u64),
}

/// What a JSON value holds.
pub enum JsonTree {
    Null,
    Bool(bool),
    Number(JsonNumber),
    Text(Seq<char>),
    Array(Seq<JsonTree>),
    Object(Map<Seq<char>, JsonTree>),
}

/// A JSON value of `serde_json`, known here only by the tree it holds.
#[verifier::external_type_specification]
#[verifier::external_body]
pub struct ExJsonValue(serde_json::Value);

/// The error of parsing or printing with `serde_json`.
#[verifier::external_type_specification]
#[verifier::external_body]
pub struct ExJsonError(serde_json::Error);

/// What a `serde_json::Value` holds.
pub uninterp spec fn json_tree(value: serde_json::Value) -> JsonTree;

/// The value that `serde_json` reads from a text, or the words of its error
/// when the text is not one JSON value.
pub uninterp spec fn json_parsed(text: Seq<char>) -> Result<JsonTree, Seq<char>>;

/// The indented text that `serde_json` prints for a value, or the words of
/// its error when it refuses to print it. A function of the tree because
/// `serde_json` keeps the members of an object sorted by key.
pub uninterp spec fn json_pretty(tree: JsonTree) -> Result<Seq<char>, Seq<char>>;

/// The words of a `serde_json::Error`, as its `Display` writes them.
pub uninterp spec fn json_error_message(error: serde_json::Error) -> Seq<char>;

/// The outcome of a parse that gives `tree`.
pub open spec fn parsing(tree: JsonTree) -> Result<JsonTree, Seq<char>> {
    Ok(tree)
}

/// The outcome of a parse that fails with the words `cause`.
pub open spec fn parsing_fault(cause: Seq<char>) -> Result<JsonTree, Seq<char>> {
    Err(cause)
}

/// The outcome of a print that gives `text`.
pub open spec fn printing(text: Seq<char>) -> Result<Seq<char>, Seq<char>> {
    Ok(text)
}

/// The outcome of a print that fails with the words `cause`.
pub open spec fn printing_fault(cause: Seq<char>) -> Result<Seq<char>, Seq<char>> {
    Err(cause)
}

/// The member of an object under a key; `None` when the key is absent or the
/// value is not an object.
pub open spec fn tree_member(tree: JsonTree, key: Seq<char>) -> Option<JsonTree> {
    match tree {
        JsonTree::Object(members) => if members.dom().contains(key) {
            Some(members[key])
        } else {
            None
        },
        _ => None,
    }
}

/// What each value of a sequence holds.
pub open spec fn json_trees(values: Seq<Value>) -> Seq<JsonTree> {
    Seq::new(values.len(), |i: int| json_tree(values[i]))
}

/// Parses with `serde_json::from_str` into a `Value`: the named value on
/// success; when the text is not one JSON value, the error whose words the
/// name holds.
#[verifier::external_body]
pub(crate) fn parse_json(text: &str) -> (r: Result<Value, serde_json::Error>)
    ensures
        match r {
            Ok(value) => json_parsed(text@) == parsing(json_tree(value)),
            Err(e) => json_parsed(text@) == parsing_fault(json_error_message(e)),
        },
{
    serde_json::from_str::<Value>(text)
}

/// Prints with `serde_json::to_string_pretty`: the named text on success,
/// else the error whose words the name holds.
#[verifier::external_body]
pub(crate) fn pretty_json(value: &Value) -> (r: Result<String, serde_json::Error>)
    ensures
        match r {
            Ok(text) => json_pretty(json_tree(*value)) == printing(text@),
            Err(e) => json_pretty(json_tree(*value)) == printing_fault(json_error_message(e)),
        },
{
    serde_json::to_string_pretty(value)
}

/// The words of a `serde_json::Error`, written by its `Display`.
#[verifier::external_body]
pub(crate) fn json_error_text(error: &serde_json::Error) -> (text: String)
    ensures
        text@ == json_error_message(*error),
{
    format!("{}", error)
}

/// Looks a key up with `Value::get`: the member when the value is an object
/// that has the key.
#[verifier::external_body]
pub(crate) fn json_get<'a>(value: &'a Value, key: &str) -> (r: Option<&'a Value>)
    ensures
        match r {
            Some(member) => tree_member(json_tree(*value), key@) == Some(json_tree(*member)),
            None => tree_member(json_tree(*value), key@) is None,
        },
{
    value.get(key)
}

/// Reads a string with `Value::as_str`: `Some` exactly for a JSON string.
#[verifier::external_body]
pub(crate) fn json_as_text<'a>(value: &'a Value) -> (r: Option<&'a str>)
    ensures
        match r {
            Some(text) => json_tree(*value) == JsonTree::Text(text@),
            None => !(json_tree(*value) is Text),
        },
{
    value.as_str()
}

/// Reads a boolean with `Value::as_bool`: `Some` exactly for `true` and
/// `false`.
#[verifier::external_body]
pub(crate) fn json_as_flag(value: &Value) -> (r: Option<bool>)
    ensures
        match r {
            Some(flag) => json_tree(*value) == JsonTree::Bool(flag),
            None => !(json_tree(*value) is Bool),
        },
{
    value.as_bool()
}

/// Reads an integer with `Value::as_u64`: `Some` exactly for a number kept
/// as a non-negative 64-bit integer.
#[verifier::external_body]
pub(crate) fn json_as_unsigned(value: &Value) -> (r: Option<u64>)
    ensures
        match r {
            Some(n) => json_tree(*value) == JsonTree::Number(JsonNumber::Unsigned(n)),
            None => !(json_tree(*value) matches JsonTree::Number(JsonNumber::Unsigned(_))),
        },
{
    value.as_u64()
}

/// `Value::is_null`.
#[verifier::external_body]
pub(crate) fn json_is_null(value: &Value) -> (r: bool)
    ensures
        r == (json_tree(*value) is Null),
{
    value.is_null()
}

/// `Value::is_number`.
#[verifier::external_body]
pub(crate) fn json_is_number(value: &Value) -> (r: bool)
    ensures
        r == (json_tree(*value) is Number),
{
    value.is_number()
}

/// `Value::is_object`.
#[verifier::external_body]
pub(crate) fn json_is_object(value: &Value) -> (r: bool)
    ensures
        r == (json_tree(*value) is Object),
{
    value.is_object()
}

/// `Value`'s own `Clone`: the copy is the same value.
pub assume_specification[ <serde_json::Value as Clone>::clone ](
    value: &serde_json::Value,
) -> (copy: serde_json::Value)
    ensures
        copy == *value,
;

/// Takes the items out of `Value::Array`; `None` for any other value.
#[verifier::external_body]
pub(crate) fn json_into_items(value: Value) -> (r: Option<Vec<Value>>)
    ensures
        match r {
            Some(items) => json_tree(value) == JsonTree::Array(json_trees(items@)),
            None => !(json_tree(value) is Array),
        },
{
    match value {
        Value::Array(items) => Some(items),
        _ => None,
    }
}

/// `Value::Null`.
#[verifier::external_body]
pub(crate) fn json_null() -> (value: Value)
    ensures
        json_tree(value) == JsonTree::Null,
{
    Value::Null
}

/// `Value::Bool`.
#[verifier::external_body]
pub(crate) fn json_from_flag(flag: bool) -> (value: Value)
    ensures
        json_tree(value) == JsonTree::Bool(flag),
{
    Value::Bool(flag)
}

/// `Value::from` on a `u64`: a number kept as a non-negative integer.
#[verifier::external_body]
pub(crate) fn json_from_unsigned(n: u64) -> (value: Value)
    ensures
        json_tree(value) == JsonTree::Number(JsonNumber::Unsigned(n)),
{
    Value::from(n)
}

/// `Value::from` on a `&str`: a JSON string with the same text.
#[verifier::external_body]
pub(crate) fn json_from_text(text: &str) -> (value: Value)
    ensures
        json_tree(value) == JsonTree::Text(text@),
{
    Value::from(text)
}

/// `Value::Array` of the items given.
#[verifier::external_body]
pub(crate) fn json_from_items(items: Vec<Value>) -> (value: Value)
    ensures
        json_tree(value) == JsonTree::Array(json_trees(items@)),
{
    Value::Array(items)
}

/// `Value::Object` of an empty `serde_json::Map`.
#[verifier::external_body]
pub(crate) fn json_empty_object() -> (value: Value)
    ensures
        json_tree(value) == JsonTree::Object(Map::empty()),
{
    Value::Object(serde_json::Map::new())
}

/// Sets a member by assigning through `Value`'s index by key, which panics
/// unless the value is an object or null. The member is added under the key,
/// taking the place of one already there.
#[verifier::external_body]
pub(crate) fn json_set_member(object: &mut Value, key: &str, member: Value)
    requires
        json_tree(*old(object)) is Object,
    ensures
        json_tree(*final(object)) == JsonTree::Object(
            json_tree(*old(object))->Object_0.insert(key@, json_tree(member)),
        ),
{
    object[key] = member;
}

} // verus!
