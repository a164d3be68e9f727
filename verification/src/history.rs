//! The chat history document: a JSON array of records whose content belongs
//! to the caller. Records are kept in order and as they are.

use crate::document::content_view;
use crate::document::parse_document;
use crate::document::parsed_document;
use crate::document::print_document;
use crate::document::printed;
use crate::document::save_outcome;
use crate::document::LoadError;
use crate::document::LoadFault;
use crate::document::SaveError;
use crate::json::json_from_items;
use crate::json::json_into_items;
use crate::json::json_tree;
use crate::json::json_trees;
use crate::json::JsonTree;
use serde_json::Value;
use vstd::prelude::*;

verus! {

/// The records that a JSON document holds: the items of an array.
pub open spec fn history_of(tree: JsonTree) -> Result<Seq<JsonTree>, LoadFault> {
    match tree {
        JsonTree::Array(records) => Ok(records),
        _ => Err(LoadFault::Shape),
    }
}

/// The JSON document written for a history: the array of its records.
pub open spec fn history_tree(records: Seq<JsonTree>) -> JsonTree {
    JsonTree::Array(records)
}

/// What loading the history gives: no records when there is no file, else
/// the records that the text of the file holds.
pub open spec fn loaded_history(content: Option<Seq<char>>) -> Result<Seq<JsonTree>, LoadFault> {
    match content {
        None => Ok(Seq::empty()),
        Some(text) => match parsed_document(text) {
            Ok(tree) => history_of(tree),
            Err(fault) => Err(fault),
        },
    }
}

/// The view of an outcome that carries records.
pub open spec fn history_read(r: Result<Vec<Value>, LoadError>) -> Result<
    Seq<JsonTree>,
    LoadFault,
> {
    match r {
        Ok(records) => Ok(json_trees(records@)),
        Err(e) => Err(e@),
    }
}

/// Takes the records out of a parsed document.
pub fn history_from_json(document: Value) -> (r: Result<Vec<Value>, LoadError>)
    ensures
        history_read(r) == history_of(json_tree(document)),
{
    match json_into_items(document) {
        Some(records) => Ok(records),
        None => Err(LoadError::Shape),
    }
}

/// Loads the history from the content of the history file, `None` standing
/// for a file that does not exist.
pub fn load_chat_history(content: Option<&str>) -> (r: Result<Vec<Value>, LoadError>)
    ensures
        history_read(r) == loaded_history(content_view(content)),
        content is None ==> (r matches Ok(records) && records@.len() == 0),
{
    match content {
        None => {
            let records: Vec<Value> = Vec::new();
            assert(json_trees(records@) =~= Seq::<JsonTree>::empty());
            Ok(records)
        },
        Some(text) => {
            let document = parse_document(text)?;
            history_from_json(document)
        },
    }
}

/// The text to write to the history file: the records as an indented JSON
/// array, in their order.
pub fn save_chat_history(history: Vec<Value>) -> (r: Result<String, SaveError>)
    ensures
        save_outcome(r) == printed(history_tree(json_trees(history@))),
{
    let document = json_from_items(history);
    print_document(&document)
}

/// Reading the JSON document written for a history gives the same records
/// in the same order.
pub proof fn lemma_history_round_trip(records: Seq<JsonTree>)
    ensures
        history_of(history_tree(records)) == Ok::<Seq<JsonTree>, LoadFault>(records),
{
}

} // verus!
