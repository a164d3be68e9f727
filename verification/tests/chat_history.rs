use ipet::document::LoadError;
use ipet::history::history_from_json;
use ipet::history::load_chat_history;
use ipet::history::save_chat_history;
use serde_json::Value;

fn parse(text: &str) -> Value {
    serde_json::from_str(text).unwrap()
}

fn records() -> Vec<Value> {
    vec![
        parse(r#"{"role": "user", "text": "xin chào", "at": 1700000000000}"#),
        parse(r#"{"role": "pet", "text": "meow 🐾", "mood": {"happiness": 75.5}}"#),
        parse(r#"{"role": "user", "text": "", "attachments": [1, [2, 3], null]}"#),
    ]
}

#[test]
fn no_file_is_an_empty_history() {
    assert_eq!(load_chat_history(None), Ok(vec![]));
}

#[test]
fn saved_history_comes_back_in_order() {
    let text = save_chat_history(records()).unwrap();
    assert_eq!(load_chat_history(Some(&text)), Ok(records()));
    let mut reversed = records();
    reversed.reverse();
    let text = save_chat_history(reversed.clone()).unwrap();
    assert_eq!(load_chat_history(Some(&text)), Ok(reversed));
}

#[test]
fn empty_history_is_an_empty_array() {
    assert_eq!(save_chat_history(vec![]).unwrap(), "[]");
    assert_eq!(load_chat_history(Some("[]")), Ok(vec![]));
}

#[test]
fn history_is_written_as_this_text() {
    let history = vec![parse(r#"{"role": "user", "text": "hi"}"#), parse(r#"{"n": [1, 2]}"#)];
    let expected = r#"[
  {
    "role": "user",
    "text": "hi"
  },
  {
    "n": [
      1,
      2
    ]
  }
]"#;
    assert_eq!(save_chat_history(history).unwrap(), expected);
}

#[test]
fn records_repeat_and_are_kept_as_they_are() {
    let history = vec![parse(r#"{"a": 1}"#), parse(r#"{"a": 1}"#), parse("{}")];
    let text = save_chat_history(history.clone()).unwrap();
    assert_eq!(load_chat_history(Some(&text)), Ok(history));
}

#[test]
fn history_takes_the_items_of_an_array() {
    assert_eq!(history_from_json(parse("[1, \"two\", null]")), Ok(vec![parse("1"), parse("\"two\""), parse("null")]));
    assert_eq!(history_from_json(parse("{}")), Err(LoadError::Shape));
}

#[test]
fn document_that_is_not_an_array_is_refused() {
    for text in ["{}", "null", "\"history\"", "0"] {
        assert_eq!(load_chat_history(Some(text)), Err(LoadError::Shape));
    }
}

#[test]
fn history_text_that_is_not_json_is_a_load_error() {
    for text in ["", "[", "[1,]", "history"] {
        assert!(matches!(load_chat_history(Some(text)), Err(LoadError::Syntax(_))));
    }
}
