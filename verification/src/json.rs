//! Reading JSON documents: the shape of a document, and the few lookups the
//! plugin makes in one.

use crate::text;
use crate::text::join3;
use serde_json::Value;
use vstd::prelude::*;

verus! {

/// What a JSON document holds.
///
/// A number is kept as the text it is printed with. An object is a map from its
/// keys, so the order in which they were written is not part of it.
pub enum JsonTree {
    Null,
    Bool(bool),
    Number(Seq<char>),
    Text(Seq<char>),
    Array(Seq<JsonTree>),
    Object(Map<Seq<char>, JsonTree>),
}

impl JsonTree {
    /// The value under `key`, if this is an object that has one.
    pub open spec fn field(self, key: Seq<char>) -> Option<JsonTree> {
        match self {
            JsonTree::Object(fields) => if fields.contains_key(key) {
                Some(fields[key])
            } else {
                None
            },
            _ => None,
        }
    }

    /// The characters of a JSON string.
    pub open spec fn text(self) -> Option<Seq<char>> {
        match self {
            JsonTree::Text(text) => Some(text),
            _ => None,
        }
    }
}

/// The outside type `serde_json::Value`, a parsed JSON document.
#[verifier::external_type_specification]
#[verifier::external_body]
pub struct ExValue(serde_json::Value);

/// What a parsed document holds.
pub uninterp spec fn json_tree(value: serde_json::Value) -> JsonTree;

/// What `serde_json::from_str` makes of a text: the document, or nothing where the
/// text is not one JSON document.
pub uninterp spec fn json_of_text(text: Seq<char>) -> Option<JsonTree>;

/// What `serde_json::from_slice` makes of bytes: the document, or the words in which
/// it says why the bytes are not one JSON document.
pub uninterp spec fn json_of_bytes(bytes: Seq<u8>) -> Result<JsonTree, Seq<char>>;

/// How a document is printed on one line.
pub uninterp spec fn json_text(tree: JsonTree) -> Seq<char>;

/// `serde_json::from_str`, its error dropped. The document that comes back, and
/// whether one does, depend on the text alone.
#[verifier::external_body]
fn json_from_str(text: &str) -> (value: Option<Value>)
    ensures
        (match value {
            Some(value) => json_of_text(text@) == Some(json_tree(value)),
            None => json_of_text(text@) is None,
        }),
{
    serde_json::from_str(text).ok()
}

/// `serde_json::from_slice`, its error given as the text it is shown with. The
/// document or the error depends on the bytes alone.
#[verifier::external_body]
pub(crate) fn json_from_slice(bytes: &[u8]) -> (value: Result<Value, String>)
    ensures
        (match value {
            Ok(value) => json_of_bytes(bytes@) == Ok::<JsonTree, Seq<char>>(json_tree(value)),
            Err(error) => json_of_bytes(bytes@) == Err::<JsonTree, Seq<char>>(error@),
        }),
{
    serde_json::from_slice(bytes).map_err(|error| error.to_string())
}

/// `to_string` of `serde_json::Value`: the document printed on one line, which
/// depends on what the document holds alone (the keys of an object are printed in
/// their order as strings).
#[verifier::external_body]
fn json_to_string(value: &Value) -> (text: String)
    ensures
        text@ == json_text(json_tree(*value)),
{
    value.to_string()
}

/// `serde_json::Value::get` with a string key: the value under the key, where the
/// document is an object that has the key, and `None` otherwise.
#[verifier::external_body]
fn json_get<'a>(value: &'a Value, key: &str) -> (found: Option<&'a Value>)
    ensures
        (match found {
            Some(found) => json_tree(*value).field(key@) == Some(json_tree(*found)),
            None => json_tree(*value).field(key@) is None,
        }),
{
    value.get(key)
}

/// `serde_json::Value::as_str`: the characters where the document is a JSON
/// string, and `None` otherwise.
#[verifier::external_body]
fn json_as_str(value: &Value) -> (text: Option<&str>)
    ensures
        (match text {
            Some(text) => json_tree(*value).text() == Some(text@),
            None => json_tree(*value).text() is None,
        }),
{
    value.as_str()
}

/// The value found by following `path` through nested objects.
pub open spec fn walk(tree: JsonTree, path: Seq<Seq<char>>) -> Option<JsonTree>
    decreases path.len(),
{
    if path.len() == 0 {
        Some(tree)
    } else {
        match tree.field(path.first()) {
            Some(inner) => walk(inner, path.drop_first()),
            None => None,
        }
    }
}

/// The nonempty string at the end of `path`.
pub open spec fn text_at(tree: JsonTree, path: Seq<Seq<char>>) -> Option<Seq<char>> {
    match walk(tree, path) {
        Some(end) => match end.text() {
            Some(text) => if text.len() > 0 {
                Some(text)
            } else {
                None
            },
            None => None,
        },
        None => None,
    }
}

/// The views of a list of keys.
pub open spec fn keys(path: Seq<&str>) -> Seq<Seq<char>> {
    path.map_values(|key: &str| key@)
}

/// The nonempty string found by following the keys of `path` through nested
/// objects.
pub fn string_at(value: &Value, path: &[&str]) -> (text: Option<String>)
    ensures
        text::opt_text(text) == text_at(json_tree(*value), keys(path@)),
{
    let mut current = value;
    let mut i: usize = 0;
    assert(keys(path@).skip(0) == keys(path@));
    while i < path.len()
        invariant
            i <= path.len(),
            walk(json_tree(*value), keys(path@)) == walk(json_tree(*current), keys(path@).skip(i as int)),
        decreases path.len() - i,
    {
        let ghost rest = keys(path@).skip(i as int);
        assert(rest.drop_first() == keys(path@).skip(i + 1));
        match json_get(current, path[i]) {
            Some(inner) => {
                current = inner;
            },
            None => {
                return None;
            },
        }
        i += 1;
    }
    match json_as_str(current) {
        Some(text) => if text.is_empty() {
            None
        } else {
            Some(text.to_owned())
        },
        None => None,
    }
}

/// The nonempty string under `key` of a document, or one level down under `outer`,
/// which comes first.
pub open spec fn nested_or_own(tree: JsonTree, outer: Seq<char>, key: Seq<char>) -> Option<
    Seq<char>,
> {
    match text_at(tree, seq![outer, key]) {
        Some(text) => Some(text),
        None => text_at(tree, seq![key]),
    }
}

/// The tab that an event is about, and the workspace if the event names one.
pub open spec fn tab_info(tree: JsonTree) -> Option<(Seq<char>, Option<Seq<char>>)> {
    match nested_or_own(tree, "data"@, "tab_id"@) {
        Some(tab_id) => Some((tab_id, nested_or_own(tree, "data"@, "workspace_id"@))),
        None => None,
    }
}

/// The characters of what an event was found to be about.
pub open spec fn info_view(info: Option<(String, Option<String>)>) -> Option<
    (Seq<char>, Option<Seq<char>>),
> {
    match info {
        Some((tab_id, workspace_id)) => Some((tab_id@, text::opt_text(workspace_id))),
        None => None,
    }
}

/// The tab that a parsed event is about: `data.tab_id`, or else `tab_id`. With it
/// comes the workspace, `data.workspace_id` or else `workspace_id`.
pub fn event_tab_info(value: &Value) -> (info: Option<(String, Option<String>)>)
    ensures
        info_view(info) == tab_info(json_tree(*value)),
{
    assert(keys(["data", "tab_id"]@) == seq!["data"@, "tab_id"@]);
    assert(keys(["tab_id"]@) == seq!["tab_id"@]);
    assert(keys(["data", "workspace_id"]@) == seq!["data"@, "workspace_id"@]);
    assert(keys(["workspace_id"]@) == seq!["workspace_id"@]);
    let tab_id = match string_at(value, &["data", "tab_id"]) {
        Some(tab_id) => tab_id,
        None => match string_at(value, &["tab_id"]) {
            Some(tab_id) => tab_id,
            None => {
                return None;
            },
        },
    };
    let workspace_id = match string_at(value, &["data", "workspace_id"]) {
        Some(workspace_id) => Some(workspace_id),
        None => string_at(value, &["workspace_id"]),
    };
    Some((tab_id, workspace_id))
}

/// The tab that an event is about, and the workspace if the event names one, from
/// the event's JSON text. A text that is not JSON is about no tab.
pub open spec fn tab_info_of_text(raw: Seq<char>) -> Option<(Seq<char>, Option<Seq<char>>)> {
    match json_of_text(raw) {
        Some(tree) => tab_info(tree),
        None => None,
    }
}

/// The tab that an event is about, and the workspace if the event names one.
pub fn parse_event_tab_info(raw: &str) -> (info: Option<(String, Option<String>)>)
    ensures
        info_view(info) == tab_info_of_text(raw@),
{
    match json_from_str(raw) {
        Some(value) => event_tab_info(&value),
        None => None,
    }
}

/// The workspace that a command's context names, from the context's JSON text.
pub open spec fn context_of_text(raw: Seq<char>) -> Option<Seq<char>> {
    match json_of_text(raw) {
        Some(tree) => text_at(tree, seq!["workspace_id"@]),
        None => None,
    }
}

/// The workspace that a command's context names.
pub fn parse_context_workspace_id(raw: &str) -> (workspace_id: Option<String>)
    ensures
        text::opt_text(workspace_id) == context_of_text(raw@),
{
    assert(keys(["workspace_id"]@) == seq!["workspace_id"@]);
    match json_from_str(raw) {
        Some(value) => string_at(&value, &["workspace_id"]),
        None => None,
    }
}

/// The words of an error that Herdr answered with: its code and its message, or the
/// one of them that is there, or else the whole error as JSON. A document without
/// an `error` is no error.
pub open spec fn error_text(tree: JsonTree) -> Option<Seq<char>> {
    match tree.field("error"@) {
        None => None,
        Some(error) => Some(
            match (string_field(error, "code"@), string_field(error, "message"@)) {
                (Some(code), Some(message)) => code + ": "@ + message,
                (Some(code), None) => code,
                (None, Some(message)) => message,
                (None, None) => json_text(error),
            },
        ),
    }
}

/// The string under `key`, empty or not.
pub open spec fn string_field(tree: JsonTree, key: Seq<char>) -> Option<Seq<char>> {
    match tree.field(key) {
        Some(field) => field.text(),
        None => None,
    }
}

fn json_string_field<'a>(value: &'a Value, key: &str) -> (text: Option<&'a str>)
    ensures
        (match text {
            Some(text) => string_field(json_tree(*value), key@) == Some(text@),
            None => string_field(json_tree(*value), key@) is None,
        }),
{
    match json_get(value, key) {
        Some(field) => json_as_str(field),
        None => None,
    }
}

/// The error that Herdr answered with, if it answered with one.
pub fn herdr_error_message(value: &Value) -> (message: Option<String>)
    ensures
        text::opt_text(message) == error_text(json_tree(*value)),
{
    let error = match json_get(value, "error") {
        Some(error) => error,
        None => {
            return None;
        },
    };
    let code = json_string_field(error, "code");
    let message = json_string_field(error, "message");
    match (code, message) {
        (Some(code), Some(message)) => Some(join3(code, ": ", message)),
        (Some(code), None) => Some(code.to_owned()),
        (None, Some(message)) => Some(message.to_owned()),
        (None, None) => Some(json_to_string(error)),
    }
}

} // verus!
