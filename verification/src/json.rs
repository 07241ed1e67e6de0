//! Reading the providers' JSON answers.
//!
//! Parsing is `serde_json`'s. This module says what a parsed document
//! holds, and finds in it the two texts that the pipeline needs.

use vstd::prelude::*;

verus! {

/// `serde_json::Value`, carried as it is; what it holds is named by
/// [`json_tree`].
#[verifier::external_type_specification]
#[verifier::external_body]
pub struct ExValue(serde_json::Value);

/// A JSON document, as far as the pipeline looks into it: numbers are told
/// apart from the other kinds, not from each other.
pub enum JsonTree {
    Null,
    Bool(bool),
    Number,
    Text(Seq<char>),
    List(Seq<JsonTree>),
    Object(Map<Seq<char>, JsonTree>),
}

impl JsonTree {
    /// The member of an object under `key`.
    pub open spec fn member(self, key: Seq<char>) -> Option<JsonTree> {
        match self {
            JsonTree::Object(members) => if members.contains_key(key) {
                Some(members[key])
            } else {
                None
            },
            _ => None,
        }
    }

    /// The item of a list at `index`.
    pub open spec fn item(self, index: int) -> Option<JsonTree> {
        match self {
            JsonTree::List(items) => if 0 <= index < items.len() {
                Some(items[index])
            } else {
                None
            },
            _ => None,
        }
    }

    /// The text of a string.
    pub open spec fn text(self) -> Option<Seq<char>> {
        match self {
            JsonTree::Text(text) => Some(text),
            _ => None,
        }
    }
}

/// The document that a `serde_json::Value` holds: each of its variants as
/// the variant of the same kind, strings by their text, arrays item by
/// item, objects member by member.
pub uninterp spec fn json_tree(value: serde_json::Value) -> JsonTree;

/// The document that `serde_json::from_slice` reads from `bytes`, or `None`
/// where it reports an error.
pub uninterp spec fn parsed_json(bytes: Seq<u8>) -> Option<JsonTree>;

/// Calls `serde_json::from_slice` for a `serde_json::Value` and drops the
/// error's detail. The value, if there is one, holds the document named
/// `parsed_json`.
#[verifier::external_body]
fn parse_value(bytes: &[u8]) -> (parsed: Option<serde_json::Value>)
    ensures
        match parsed {
            Some(value) => parsed_json(bytes@) == Some(json_tree(value)),
            None => parsed_json(bytes@) is None,
        },
{
    serde_json::from_slice::<serde_json::Value>(bytes).ok()
}

/// Calls `serde_json::Value::get` with a string: the member of an object
/// under that key; `None` for a missing key and for a value that is no
/// object.
#[verifier::external_body]
fn value_member<'a>(value: &'a serde_json::Value, key: &str) -> (found: Option<
    &'a serde_json::Value,
>)
    ensures
        match found {
            Some(member) => json_tree(*value).member(key@) == Some(json_tree(*member)),
            None => json_tree(*value).member(key@) is None,
        },
{
    value.get(key)
}

/// Calls `serde_json::Value::get` with a number: the item of an array at
/// that index; `None` past the end and for a value that is no array.
#[verifier::external_body]
fn value_item<'a>(value: &'a serde_json::Value, index: usize) -> (found: Option<
    &'a serde_json::Value,
>)
    ensures
        match found {
            Some(item) => json_tree(*value).item(index as int) == Some(json_tree(*item)),
            None => json_tree(*value).item(index as int) is None,
        },
{
    value.get(index)
}

/// Calls `serde_json::Value::as_str`: the text of a string; `None` for a
/// value of another kind.
#[verifier::external_body]
fn value_text<'a>(value: &'a serde_json::Value) -> (found: Option<&'a str>)
    ensures
        match found {
            Some(text) => json_tree(*value).text() == Some(text@),
            None => json_tree(*value).text() is None,
        },
{
    value.as_str()
}

/// The transcript in a transcription answer: the string under `text`.
pub open spec fn transcript_in(document: JsonTree) -> Option<Seq<char>> {
    match document.member("text"@) {
        Some(member) => member.text(),
        None => None,
    }
}

/// The reply in a chat answer: the string under `content`, in the object
/// under `message`, in the first item of the list under `choices`.
pub open spec fn completion_in(document: JsonTree) -> Option<Seq<char>> {
    match document.member("choices"@) {
        Some(choices) => match choices.item(0) {
            Some(choice) => match choice.member("message"@) {
                Some(message) => match message.member("content"@) {
                    Some(content) => content.text(),
                    None => None,
                },
                None => None,
            },
            None => None,
        },
        None => None,
    }
}

/// Whether `found` is the text `expected`, or its absence.
pub open spec fn is_text(found: Option<String>, expected: Option<Seq<char>>) -> bool {
    match found {
        Some(text) => expected == Some(text@),
        None => expected is None,
    }
}

/// Finds the transcript in a parsed transcription answer.
pub fn transcript_text(value: &serde_json::Value) -> (found: Option<String>)
    ensures
        is_text(found, transcript_in(json_tree(*value))),
{
    let member = value_member(value, "text")?;
    let text = value_text(member)?;
    Some(text.to_owned())
}

/// Finds the reply in a parsed chat answer.
pub fn completion_text(value: &serde_json::Value) -> (found: Option<String>)
    ensures
        is_text(found, completion_in(json_tree(*value))),
{
    let choices = value_member(value, "choices")?;
    let choice = value_item(choices, 0)?;
    let message = value_member(choice, "message")?;
    let content = value_member(message, "content")?;
    let text = value_text(content)?;
    Some(text.to_owned())
}

/// The transcript in the body of a transcription answer, if the body is
/// JSON and holds one.
pub open spec fn transcript_of_body(body: Seq<u8>) -> Option<Seq<char>> {
    match parsed_json(body) {
        Some(document) => transcript_in(document),
        None => None,
    }
}

/// The reply in the body of a chat answer, if the body is JSON and holds
/// one.
pub open spec fn completion_of_body(body: Seq<u8>) -> Option<Seq<char>> {
    match parsed_json(body) {
        Some(document) => completion_in(document),
        None => None,
    }
}

/// Parses the body of a transcription answer and finds the transcript.
pub fn read_transcript(body: &[u8]) -> (found: Option<String>)
    ensures
        is_text(found, transcript_of_body(body@)),
{
    match parse_value(body) {
        Some(value) => transcript_text(&value),
        None => None,
    }
}

/// Parses the body of a chat answer and finds the reply.
pub fn read_completion(body: &[u8]) -> (found: Option<String>)
    ensures
        is_text(found, completion_of_body(body@)),
{
    match parse_value(body) {
        Some(value) => completion_text(&value),
        None => None,
    }
}

} // verus!
