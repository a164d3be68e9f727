//! Reading the members of a JSON document, and the errors of loading and
//! saving one.

use crate::codec::CodecError;
use crate::codec::CodecFault;
use crate::json::json_as_flag;
use crate::json::json_as_text;
use crate::json::json_as_unsigned;
use crate::json::json_error_text;
use crate::json::json_from_text;
use crate::json::json_from_unsigned;
use crate::json::json_get;
use crate::json::json_is_null;
use crate::json::json_is_number;
use crate::json::json_is_object;
use crate::json::json_null;
use crate::json::json_parsed;
use crate::json::json_pretty;
use crate::json::json_tree;
use crate::json::parse_json;
use crate::json::pretty_json;
use crate::json::tree_member;
use crate::json::JsonNumber;
use crate::json::JsonTree;
use serde_json::Value;
use vstd::prelude::*;
use vstd::string::*;

verus! {

/// Why a document could not be loaded, as plain values.
pub enum LoadFault {
    /// The text is not JSON; holds the parser's words.
    Syntax(Seq<char>),
    /// The document is not the kind of JSON value it has to be.
    Shape,
    /// A member that has to be there is absent.
    Missing(Seq<char>),
    /// A member holds a value of the wrong kind or out of range.
    Invalid(Seq<char>),
}

/// Why a document could not be loaded.
#[derive(Debug, Clone, PartialEq, Eq)]
pub enum LoadError {
    /// The text is not JSON; holds the parser's words.
    Syntax(String),
    /// The document is not the kind of JSON value it has to be.
    Shape,
    /// The named member has to be there and is absent.
    MissingField(String),
    /// The named member holds a value of the wrong kind or out of range.
    InvalidField(String),
}

impl View for LoadError {
    type V = LoadFault;

    open spec fn view(&self) -> LoadFault {
        match *self {
            LoadError::Syntax(cause) => LoadFault::Syntax(cause@),
            LoadError::Shape => LoadFault::Shape,
            LoadError::MissingField(name) => LoadFault::Missing(name@),
            LoadError::InvalidField(name) => LoadFault::Invalid(name@),
        }
    }
}

/// Why a document could not be saved, as plain values.
pub enum SaveFault {
    /// The credential could not be encrypted.
    Encrypt(CodecFault),
    /// The document could not be printed; holds the printer's words.
    Serialize(Seq<char>),
}

/// Why a document could not be saved.
#[derive(Debug, Clone, PartialEq, Eq)]
pub enum SaveError {
    /// The credential could not be encrypted.
    Encrypt(CodecError),
    /// The document could not be printed; holds the printer's words.
    Serialize(String),
}

impl View for SaveError {
    type V = SaveFault;

    open spec fn view(&self) -> SaveFault {
        match *self {
            SaveError::Encrypt(e) => SaveFault::Encrypt(e@),
            SaveError::Serialize(cause) => SaveFault::Serialize(cause@),
        }
    }
}

/// A member that has to be a string.
pub open spec fn text_field(tree: JsonTree, key: Seq<char>) -> Result<Seq<char>, LoadFault> {
    match tree_member(tree, key) {
        None => Err(LoadFault::Missing(key)),
        Some(JsonTree::Text(text)) => Ok(text),
        Some(_) => Err(LoadFault::Invalid(key)),
    }
}

/// A member that has to be a boolean.
pub open spec fn flag_field(tree: JsonTree, key: Seq<char>) -> Result<bool, LoadFault> {
    match tree_member(tree, key) {
        None => Err(LoadFault::Missing(key)),
        Some(JsonTree::Bool(flag)) => Ok(flag),
        Some(_) => Err(LoadFault::Invalid(key)),
    }
}

/// A member that has to be a non-negative integer of at most `max`.
pub open spec fn unsigned_field(tree: JsonTree, key: Seq<char>, max: u64) -> Result<
    u64,
    LoadFault,
> {
    match tree_member(tree, key) {
        None => Err(LoadFault::Missing(key)),
        Some(JsonTree::Number(JsonNumber::Unsigned(n))) => if n <= max {
            Ok(n)
        } else {
            Err(LoadFault::Invalid(key))
        },
        Some(_) => Err(LoadFault::Invalid(key)),
    }
}

/// A member that has to be a number of any kind.
pub open spec fn number_field(tree: JsonTree, key: Seq<char>) -> Result<JsonTree, LoadFault> {
    match tree_member(tree, key) {
        None => Err(LoadFault::Missing(key)),
        Some(member) => if member is Number {
            Ok(member)
        } else {
            Err(LoadFault::Invalid(key))
        },
    }
}

/// A member that has to be an object.
pub open spec fn object_field(tree: JsonTree, key: Seq<char>) -> Result<JsonTree, LoadFault> {
    match tree_member(tree, key) {
        None => Err(LoadFault::Missing(key)),
        Some(member) => if member is Object {
            Ok(member)
        } else {
            Err(LoadFault::Invalid(key))
        },
    }
}

/// A string member that may be absent or null.
pub open spec fn optional_text_field(tree: JsonTree, key: Seq<char>) -> Result<
    Option<Seq<char>>,
    LoadFault,
> {
    match tree_member(tree, key) {
        None => Ok(None),
        Some(JsonTree::Null) => Ok(None),
        Some(JsonTree::Text(text)) => Ok(Some(text)),
        Some(_) => Err(LoadFault::Invalid(key)),
    }
}

/// A non-negative integer member that may be absent or null.
pub open spec fn optional_unsigned_field(tree: JsonTree, key: Seq<char>) -> Result<
    Option<u64>,
    LoadFault,
> {
    match tree_member(tree, key) {
        None => Ok(None),
        Some(JsonTree::Null) => Ok(None),
        Some(JsonTree::Number(JsonNumber::Unsigned(n))) => Ok(Some(n)),
        Some(_) => Err(LoadFault::Invalid(key)),
    }
}

/// A boolean member that takes a default when it is absent.
pub open spec fn flag_field_or(tree: JsonTree, key: Seq<char>, default: bool) -> Result<
    bool,
    LoadFault,
> {
    match tree_member(tree, key) {
        None => Ok(default),
        Some(JsonTree::Bool(flag)) => Ok(flag),
        Some(_) => Err(LoadFault::Invalid(key)),
    }
}

/// A string member that takes a default when it is absent.
pub open spec fn text_field_or(tree: JsonTree, key: Seq<char>, default: Seq<char>) -> Result<
    Seq<char>,
    LoadFault,
> {
    match tree_member(tree, key) {
        None => Ok(default),
        Some(JsonTree::Text(text)) => Ok(text),
        Some(_) => Err(LoadFault::Invalid(key)),
    }
}

/// The view of an outcome that carries a plain value.
pub open spec fn value_read<T>(r: Result<T, LoadError>) -> Result<T, LoadFault> {
    match r {
        Ok(value) => Ok(value),
        Err(e) => Err(e@),
    }
}

/// The view of an outcome that carries text.
pub open spec fn text_read(r: Result<String, LoadError>) -> Result<Seq<char>, LoadFault> {
    match r {
        Ok(text) => Ok(text@),
        Err(e) => Err(e@),
    }
}

/// The view of an outcome that carries optional text.
pub open spec fn optional_text_read(r: Result<Option<String>, LoadError>) -> Result<
    Option<Seq<char>>,
    LoadFault,
> {
    match r {
        Ok(Some(text)) => Ok(Some(text@)),
        Ok(None) => Ok(None),
        Err(e) => Err(e@),
    }
}

/// The view of an outcome that carries a JSON value.
pub open spec fn tree_read(r: Result<Value, LoadError>) -> Result<JsonTree, LoadFault> {
    match r {
        Ok(value) => Ok(json_tree(value)),
        Err(e) => Err(e@),
    }
}

/// The view of an outcome that carries a borrowed JSON value.
pub open spec fn member_read(r: Result<&Value, LoadError>) -> Result<JsonTree, LoadFault> {
    match r {
        Ok(value) => Ok(json_tree(*value)),
        Err(e) => Err(e@),
    }
}

fn missing(key: &str) -> (e: LoadError)
    ensures
        e@ == LoadFault::Missing(key@),
{
    LoadError::MissingField(String::from_str(key))
}

fn invalid(key: &str) -> (e: LoadError)
    ensures
        e@ == LoadFault::Invalid(key@),
{
    LoadError::InvalidField(String::from_str(key))
}

/// Reads a member that has to be a string.
pub fn read_text(object: &Value, key: &str) -> (r: Result<String, LoadError>)
    ensures
        text_read(r) == text_field(json_tree(*object), key@),
{
    match json_get(object, key) {
        None => Err(missing(key)),
        Some(member) => match json_as_text(member) {
            Some(text) => Ok(String::from_str(text)),
            None => Err(invalid(key)),
        },
    }
}

/// Reads a member that has to be a boolean.
pub fn read_flag(object: &Value, key: &str) -> (r: Result<bool, LoadError>)
    ensures
        value_read(r) == flag_field(json_tree(*object), key@),
{
    match json_get(object, key) {
        None => Err(missing(key)),
        Some(member) => match json_as_flag(member) {
            Some(flag) => Ok(flag),
            None => Err(invalid(key)),
        },
    }
}

/// Reads a member that has to be a non-negative integer of at most `max`.
pub fn read_unsigned(object: &Value, key: &str, max: u64) -> (r: Result<u64, LoadError>)
    ensures
        value_read(r) == unsigned_field(json_tree(*object), key@, max),
{
    match json_get(object, key) {
        None => Err(missing(key)),
        Some(member) => match json_as_unsigned(member) {
            Some(n) => if n <= max {
                Ok(n)
            } else {
                Err(invalid(key))
            },
            None => Err(invalid(key)),
        },
    }
}

/// Reads a member that has to be a number of any kind.
pub fn read_number<'a>(object: &'a Value, key: &str) -> (r: Result<&'a Value, LoadError>)
    ensures
        member_read(r) == number_field(json_tree(*object), key@),
{
    match json_get(object, key) {
        None => Err(missing(key)),
        Some(member) => if json_is_number(member) {
            Ok(member)
        } else {
            Err(invalid(key))
        },
    }
}

/// Reads a member that has to be an object.
pub fn read_object<'a>(object: &'a Value, key: &str) -> (r: Result<&'a Value, LoadError>)
    ensures
        member_read(r) == object_field(json_tree(*object), key@),
{
    match json_get(object, key) {
        None => Err(missing(key)),
        Some(member) => if json_is_object(member) {
            Ok(member)
        } else {
            Err(invalid(key))
        },
    }
}

/// Reads a string member that may be absent or null.
pub fn read_optional_text(object: &Value, key: &str) -> (r: Result<Option<String>, LoadError>)
    ensures
        optional_text_read(r) == optional_text_field(json_tree(*object), key@),
{
    match json_get(object, key) {
        None => Ok(None),
        Some(member) => if json_is_null(member) {
            Ok(None)
        } else {
            match json_as_text(member) {
                Some(text) => Ok(Some(String::from_str(text))),
                None => Err(invalid(key)),
            }
        },
    }
}

/// Reads a non-negative integer member that may be absent or null.
pub fn read_optional_unsigned(object: &Value, key: &str) -> (r: Result<Option<u64>, LoadError>)
    ensures
        value_read(r) == optional_unsigned_field(json_tree(*object), key@),
{
    match json_get(object, key) {
        None => Ok(None),
        Some(member) => if json_is_null(member) {
            Ok(None)
        } else {
            match json_as_unsigned(member) {
                Some(n) => Ok(Some(n)),
                None => Err(invalid(key)),
            }
        },
    }
}

/// Reads a boolean member that takes a default when it is absent.
pub fn read_flag_or(object: &Value, key: &str, default: bool) -> (r: Result<bool, LoadError>)
    ensures
        value_read(r) == flag_field_or(json_tree(*object), key@, default),
{
    match json_get(object, key) {
        None => Ok(default),
        Some(member) => match json_as_flag(member) {
            Some(flag) => Ok(flag),
            None => Err(invalid(key)),
        },
    }
}

/// Reads a string member that takes a default when it is absent.
pub fn read_text_or(object: &Value, key: &str, default: String) -> (r: Result<String, LoadError>)
    ensures
        text_read(r) == text_field_or(json_tree(*object), key@, default@),
{
    match json_get(object, key) {
        None => Ok(default),
        Some(member) => match json_as_text(member) {
            Some(text) => Ok(String::from_str(text)),
            None => Err(invalid(key)),
        },
    }
}

/// The view of the outcome of a save.
pub open spec fn save_outcome(r: Result<String, SaveError>) -> Result<Seq<char>, SaveFault> {
    match r {
        Ok(text) => Ok(text@),
        Err(e) => Err(e@),
    }
}

/// The text a document is written as, or the fault of printing it.
pub open spec fn printed(tree: JsonTree) -> Result<Seq<char>, SaveFault> {
    match json_pretty(tree) {
        Ok(text) => Ok(text),
        Err(cause) => Err(SaveFault::Serialize(cause)),
    }
}

/// Prints a document as indented JSON.
pub fn print_document(document: &Value) -> (r: Result<String, SaveError>)
    ensures
        save_outcome(r) == printed(json_tree(*document)),
{
    match pretty_json(document) {
        Ok(text) => Ok(text),
        Err(e) => Err(SaveError::Serialize(json_error_text(&e))),
    }
}

/// The view of optional text that is borrowed.
pub open spec fn content_view(content: Option<&str>) -> Option<Seq<char>> {
    match content {
        Some(text) => Some(text@),
        None => None,
    }
}

/// What parsing the text of a document gives: its tree, or the syntax
/// error with the parser's words.
pub open spec fn parsed_document(text: Seq<char>) -> Result<JsonTree, LoadFault> {
    match json_parsed(text) {
        Ok(tree) => Ok(tree),
        Err(cause) => Err(LoadFault::Syntax(cause)),
    }
}

/// Parses the text of a document.
pub fn parse_document(text: &str) -> (r: Result<Value, LoadError>)
    ensures
        tree_read(r) == parsed_document(text@),
{
    match parse_json(text) {
        Ok(document) => Ok(document),
        Err(e) => Err(LoadError::Syntax(json_error_text(&e))),
    }
}

/// The JSON value of a non-negative integer.
pub open spec fn unsigned_tree(n: u64) -> JsonTree {
    JsonTree::Number(JsonNumber::Unsigned(n))
}

/// The JSON value of optional text: the text, or null.
pub open spec fn optional_text_tree(text: Option<Seq<char>>) -> JsonTree {
    match text {
        Some(t) => JsonTree::Text(t),
        None => JsonTree::Null,
    }
}

/// The JSON value of an optional integer: the number, or null.
pub open spec fn optional_unsigned_tree(n: Option<u64>) -> JsonTree {
    match n {
        Some(n) => unsigned_tree(n),
        None => JsonTree::Null,
    }
}

/// The view of optional text.
pub open spec fn optional_text_view(text: Option<String>) -> Option<Seq<char>> {
    match text {
        Some(t) => Some(t@),
        None => None,
    }
}

/// Writes optional text: a JSON string, or null.
pub fn write_optional_text(text: &Option<String>) -> (value: Value)
    ensures
        json_tree(value) == optional_text_tree(optional_text_view(*text)),
{
    match text {
        Some(t) => json_from_text(t.as_str()),
        None => json_null(),
    }
}

/// Writes an optional integer: a JSON number, or null.
pub fn write_optional_unsigned(n: Option<u64>) -> (value: Value)
    ensures
        json_tree(value) == optional_unsigned_tree(n),
{
    match n {
        Some(n) => json_from_unsigned(n),
        None => json_null(),
    }
}

} // verus!
