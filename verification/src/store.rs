//! Where the documents live and how a failure to read or write one is
//! worded.
//!
//! All three documents are files in one hidden directory under the user's
//! home directory, or under the working directory when the home directory is
//! not known.

use crate::codec::codec_message;
use crate::document::LoadError;
use crate::document::LoadFault;
use crate::document::SaveError;
use crate::document::SaveFault;
use std::path::PathBuf;
use vstd::prelude::*;
use vstd::string::*;
use vstd::utf8::encode_utf8;

verus! {

/// A path of the file system, known here only by the bytes it holds.
#[verifier::external_type_specification]
#[verifier::external_body]
pub struct ExPathBuf(std::path::PathBuf);

/// The bytes a path holds, as `OsStr::as_encoded_bytes` gives them: for
/// Unicode text, its UTF-8 form.
pub uninterp spec fn path_bytes(path: PathBuf) -> Seq<u8>;

/// The bytes of the path that `Path::join` makes of a path and a name, the
/// separator being the platform's.
pub uninterp spec fn joined_bytes(base: Seq<u8>, name: Seq<char>) -> Seq<u8>;

/// Makes a path of a text with `PathBuf::from`: the path holds the text.
#[verifier::external_body]
fn path_from_text(text: &str) -> (path: PathBuf)
    ensures
        path_bytes(path) == encode_utf8(text@),
{
    PathBuf::from(text)
}

/// Adjoins a name to a path with `Path::join`.
#[verifier::external_body]
fn join_path(base: &PathBuf, name: &str) -> (path: PathBuf)
    ensures
        path_bytes(path) == joined_bytes(path_bytes(*base), name@),
{
    base.join(name)
}

/// Asks `dirs::home_dir` for the user's home directory. Nothing is claimed
/// of the answer: it depends on the account and the environment.
#[verifier::external_body]
fn home_dir() -> (home: Option<PathBuf>) {
    dirs::home_dir()
}

/// One of the three documents.
#[derive(Debug, Clone, Copy, PartialEq, Eq, Structural)]
pub enum DocumentKind {
    Settings,
    Mood,
    ChatHistory,
}

/// A step of loading or saving a document that can fail.
#[derive(Debug, Clone, Copy, PartialEq, Eq, Structural)]
pub enum StoreStep {
    Read,
    Parse,
    CreateDirectory,
    Serialize,
    Write,
}

impl DocumentKind {
    /// The name of the document's file.
    pub open spec fn file_name(self) -> Seq<char> {
        match self {
            DocumentKind::Settings => "settings.json"@,
            DocumentKind::Mood => "mood.json"@,
            DocumentKind::ChatHistory => "chat_history.json"@,
        }
    }

    /// What the document is called in messages.
    pub open spec fn label(self) -> Seq<char> {
        match self {
            DocumentKind::Settings => "settings"@,
            DocumentKind::Mood => "mood"@,
            DocumentKind::ChatHistory => "chat history"@,
        }
    }
}

/// The bytes of an optional path.
pub open spec fn optional_path_bytes(path: Option<PathBuf>) -> Option<Seq<u8>> {
    match path {
        Some(p) => Some(path_bytes(p)),
        None => None,
    }
}

/// The directory of the documents for a home directory: `.ipet` under it,
/// or under `.` when there is none.
pub open spec fn settings_dir_under(home: Option<Seq<u8>>) -> Seq<u8> {
    joined_bytes(
        match home {
            Some(dir) => dir,
            None => encode_utf8("."@),
        },
        ".ipet"@,
    )
}

/// The path of a document for a home directory.
pub open spec fn document_path_under(home: Option<Seq<u8>>, kind: DocumentKind) -> Seq<u8> {
    joined_bytes(settings_dir_under(home), kind.file_name())
}

/// The directory of the documents for a home directory that was looked up.
pub fn settings_dir_in(home: Option<PathBuf>) -> (dir: PathBuf)
    ensures
        path_bytes(dir) == settings_dir_under(optional_path_bytes(home)),
{
    let base = match home {
        Some(dir) => dir,
        None => path_from_text("."),
    };
    join_path(&base, ".ipet")
}

/// The path of a document in a directory.
pub fn document_path(dir: &PathBuf, kind: DocumentKind) -> (path: PathBuf)
    ensures
        path_bytes(path) == joined_bytes(path_bytes(*dir), kind.file_name()),
{
    match kind {
        DocumentKind::Settings => join_path(dir, "settings.json"),
        DocumentKind::Mood => join_path(dir, "mood.json"),
        DocumentKind::ChatHistory => join_path(dir, "chat_history.json"),
    }
}

/// The path of a document of the current user.
pub fn current_document_path(kind: DocumentKind) -> (path: PathBuf)
    ensures
        exists|home: Option<Seq<u8>>| path_bytes(path) == #[trigger] document_path_under(home, kind),
{
    let home = home_dir();
    let path = document_path(&settings_dir_in(home), kind);
    assert(path_bytes(path) == document_path_under(optional_path_bytes(home), kind));
    path
}

/// The directory of the documents of the current user: `.ipet` under the
/// home directory that the system reports, or under `.`.
pub fn get_settings_dir() -> (dir: PathBuf)
    ensures
        exists|home: Option<Seq<u8>>| path_bytes(dir) == #[trigger] settings_dir_under(home),
{
    let home = home_dir();
    let dir = settings_dir_in(home);
    assert(path_bytes(dir) == settings_dir_under(optional_path_bytes(home)));
    dir
}

/// The path of the settings file of the current user.
pub fn get_settings_path() -> (path: PathBuf)
    ensures
        exists|home: Option<Seq<u8>>|
            path_bytes(path) == #[trigger] document_path_under(home, DocumentKind::Settings),
{
    current_document_path(DocumentKind::Settings)
}

/// The path of the mood file of the current user.
pub fn get_mood_path() -> (path: PathBuf)
    ensures
        exists|home: Option<Seq<u8>>|
            path_bytes(path) == #[trigger] document_path_under(home, DocumentKind::Mood),
{
    current_document_path(DocumentKind::Mood)
}

/// The path of the chat history file of the current user.
pub fn get_chat_history_path() -> (path: PathBuf)
    ensures
        exists|home: Option<Seq<u8>>|
            path_bytes(path) == #[trigger] document_path_under(home, DocumentKind::ChatHistory),
{
    current_document_path(DocumentKind::ChatHistory)
}

/// How the failure of a step is introduced, before the cause.
pub open spec fn failure_prefix(step: StoreStep, kind: DocumentKind) -> Seq<char> {
    match step {
        StoreStep::Read => "Failed to read "@ + kind.label(),
        StoreStep::Parse => "Failed to parse "@ + kind.label(),
        StoreStep::CreateDirectory => if kind == DocumentKind::Settings {
            "Failed to create settings directory"@
        } else {
            "Failed to create directory"@
        },
        StoreStep::Serialize => "Failed to serialize "@ + kind.label(),
        StoreStep::Write => "Failed to write "@ + kind.label(),
    }
}

/// The message for a step that failed: the introduction, a colon and the
/// cause.
pub open spec fn failure_text(step: StoreStep, kind: DocumentKind, cause: Seq<char>) -> Seq<char> {
    failure_prefix(step, kind) + ": "@ + cause
}

/// The cause that a load error names: the parser's words for text that is
/// not JSON, else what is wrong with the document.
pub open spec fn load_cause(fault: LoadFault) -> Seq<char> {
    match fault {
        LoadFault::Syntax(cause) => cause,
        LoadFault::Shape => "unexpected kind of JSON value"@,
        LoadFault::Missing(name) => "missing field `"@ + name + "`"@,
        LoadFault::Invalid(name) => "invalid value for field `"@ + name + "`"@,
    }
}

/// The message for a save error: the codec's own message when the
/// credential could not be encrypted, else that the document could not be
/// serialized, with the printer's words.
pub open spec fn save_failure_text(kind: DocumentKind, fault: SaveFault) -> Seq<char> {
    match fault {
        SaveFault::Encrypt(e) => codec_message(e),
        SaveFault::Serialize(cause) => failure_text(StoreStep::Serialize, kind, cause),
    }
}

fn document_label(kind: DocumentKind) -> (label: &'static str)
    ensures
        label@ == kind.label(),
{
    match kind {
        DocumentKind::Settings => "settings",
        DocumentKind::Mood => "mood",
        DocumentKind::ChatHistory => "chat history",
    }
}

/// Words the failure of a step on a document, with its cause.
pub fn failure_message(step: StoreStep, kind: DocumentKind, cause: &str) -> (text: String)
    ensures
        text@ == failure_text(step, kind, cause@),
{
    let mut text = match step {
        StoreStep::Read => String::from_str("Failed to read ").concat(document_label(kind)),
        StoreStep::Parse => String::from_str("Failed to parse ").concat(document_label(kind)),
        StoreStep::CreateDirectory => match kind {
            DocumentKind::Settings => String::from_str("Failed to create settings directory"),
            _ => String::from_str("Failed to create directory"),
        },
        StoreStep::Serialize => String::from_str("Failed to serialize ").concat(
            document_label(kind),
        ),
        StoreStep::Write => String::from_str("Failed to write ").concat(document_label(kind)),
    };
    text.append(": ");
    text.append(cause);
    text
}

/// Words a load error: the document could not be parsed, with the cause.
pub fn load_failure_message(kind: DocumentKind, error: &LoadError) -> (text: String)
    ensures
        text@ == failure_text(StoreStep::Parse, kind, load_cause(error@)),
{
    let cause = match error {
        LoadError::Syntax(detail) => detail.clone(),
        LoadError::Shape => String::from_str("unexpected kind of JSON value"),
        LoadError::MissingField(name) => String::from_str("missing field `").concat(
            name.as_str(),
        ).concat("`"),
        LoadError::InvalidField(name) => String::from_str("invalid value for field `").concat(
            name.as_str(),
        ).concat("`"),
    };
    failure_message(StoreStep::Parse, kind, cause.as_str())
}

/// Words a save error.
pub fn save_failure_message(kind: DocumentKind, error: &SaveError) -> (text: String)
    ensures
        text@ == save_failure_text(kind, error@),
{
    match error {
        SaveError::Encrypt(e) => e.message(),
        SaveError::Serialize(detail) => failure_message(StoreStep::Serialize, kind, detail.as_str()),
    }
}

} // verus!
