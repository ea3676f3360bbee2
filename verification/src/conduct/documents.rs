//! What is found in JSON documents.

use crate::conduct;
use crate::json;
use crate::json::{
    event_tab_info, herdr_error_message, parse_context_workspace_id, parse_event_tab_info,
    string_at, JsonTree,
};
use serde_json::Value;
use vstd::prelude::*;

verus! {

/// Whether this is the value under `key` of an object.
pub open spec fn is_under(outer: JsonTree, key: Seq<char>, inner: JsonTree) -> bool {
    outer matches JsonTree::Object(fields) && fields.contains_key(key) && fields[key] == inner
}

/// Whether `path` leads step by step through these documents.
pub open spec fn leads_through(path: Seq<Seq<char>>, trees: Seq<JsonTree>) -> bool {
    &&& trees.len() == path.len() + 1
    &&& forall|k: int| 0 <= k < path.len() ==> is_under(#[trigger] trees[k], path[k], trees[k + 1])
}

/// Whether `path` leads from a document to a string that is not empty.
pub open spec fn leads_to(tree: JsonTree, path: Seq<Seq<char>>, text: Seq<char>) -> bool {
    &&& text.len() > 0
    &&& exists|trees: Seq<JsonTree>| #[trigger]
        leads_through(path, trees) && trees.first() == tree && trees.last() == JsonTree::Text(text)
}

proof fn lemma_walk(tree: JsonTree, path: Seq<Seq<char>>, trees: Seq<JsonTree>)
    requires
        leads_through(path, trees),
        trees.first() == tree,
    ensures
        json::walk(tree, path) == Some(trees.last()),
    decreases path.len(),
{
    if path.len() > 0 {
        let rest = trees.drop_first();
        assert(is_under(trees[0], path[0], trees[1]));
        assert forall|k: int| 0 <= k < path.len() - 1 implies is_under(
            #[trigger] rest[k],
            path.drop_first()[k],
            rest[k + 1],
        ) by {
            assert(is_under(trees[k + 1], path[k + 1], trees[k + 2]));
        }
        lemma_walk(trees[1], path.drop_first(), rest);
    }
}

proof fn lemma_walked(tree: JsonTree, path: Seq<Seq<char>>) -> (trees: Seq<JsonTree>)
    requires
        json::walk(tree, path) is Some,
    ensures
        leads_through(path, trees),
        trees.first() == tree,
        json::walk(tree, path) == Some(trees.last()),
    decreases path.len(),
{
    if path.len() == 0 {
        seq![tree]
    } else {
        let inner = tree.field(path.first())->0;
        let rest = lemma_walked(inner, path.drop_first());
        let trees = seq![tree] + rest;
        assert forall|k: int| 0 <= k < path.len() implies is_under(
            #[trigger] trees[k],
            path[k],
            trees[k + 1],
        ) by {
            if k > 0 {
                assert(is_under(rest[k - 1], path.drop_first()[k - 1], rest[k]));
            }
        }
        trees
    }
}

/// What is found at the end of a path is the string, if it is not empty, to which the
/// path leads, and nothing exactly if it leads to none.
pub proof fn paths_lead_to_texts(tree: JsonTree, path: Seq<Seq<char>>)
    ensures
        forall|text: Seq<char>| #[trigger]
            leads_to(tree, path, text) <==> json::text_at(tree, path) == Some(text),
{
    assert forall|text: Seq<char>| #[trigger]
        leads_to(tree, path, text) <==> json::text_at(tree, path) == Some(text) by {
        if leads_to(tree, path, text) {
            let trees = choose|trees: Seq<JsonTree>| #[trigger]
                leads_through(path, trees) && trees.first() == tree && trees.last()
                    == JsonTree::Text(text);
            lemma_walk(tree, path, trees);
        }
        if json::text_at(tree, path) == Some(text) {
            let trees = lemma_walked(tree, path);
            assert(leads_through(path, trees));
        }
    }
}

/// `string_at` gives the string to which the keys lead, and nothing exactly if they lead
/// to none.
pub proof fn strings_are_found_by_path(
    value: &Value,
    path: &[&str],
    keys: Seq<Seq<char>>,
    found: Option<String>,
)
    requires
        call_ensures(string_at, (value, path), found),
        keys.len() == path@.len(),
        forall|k: int| 0 <= k < keys.len() ==> #[trigger] keys[k] == path@[k]@,
    ensures
        forall|text: Seq<char>| #[trigger]
            leads_to(json::json_tree(*value), keys, text) <==> conduct::chars(found) == Some(text),
{
    assert(json::keys(path@) =~= keys);
    paths_lead_to_texts(json::json_tree(*value), keys);
}

/// The path to a key of a document.
pub open spec fn own(key: Seq<char>) -> Seq<Seq<char>> {
    seq![key]
}

/// The path to a key one level down, under `data`.
pub open spec fn nested(key: Seq<char>) -> Seq<Seq<char>> {
    seq!["data"@, key]
}

/// Whether this is the string under a key of a document, or one level down, under `data`,
/// which comes first.
pub open spec fn says(tree: JsonTree, key: Seq<char>, text: Seq<char>) -> bool {
    ||| leads_to(tree, nested(key), text)
    ||| leads_to(tree, own(key), text) && forall|other: Seq<char>|
        !#[trigger] leads_to(tree, nested(key), other)
}

/// Whether an event is about this tab, and this workspace if it names one.
pub open spec fn is_about(tree: JsonTree, info: Option<(String, Option<String>)>) -> bool {
    match info {
        Some((tab_id, workspace_id)) => {
            &&& says(tree, "tab_id"@, tab_id@)
            &&& workspace_id is Some ==> says(tree, "workspace_id"@, workspace_id->0@)
            &&& workspace_id is None ==> forall|text: Seq<char>|
                !#[trigger] says(tree, "workspace_id"@, text)
        },
        None => forall|text: Seq<char>| !#[trigger] says(tree, "tab_id"@, text),
    }
}

proof fn lemma_says(tree: JsonTree, key: Seq<char>)
    ensures
        forall|text: Seq<char>| #[trigger]
            says(tree, key, text) <==> json::nested_or_own(tree, "data"@, key) == Some(text),
{
    paths_lead_to_texts(tree, nested(key));
    paths_lead_to_texts(tree, own(key));
    assert forall|text: Seq<char>| #[trigger]
        says(tree, key, text) <==> json::nested_or_own(tree, "data"@, key) == Some(text) by {
        if let Some(inner) = json::text_at(tree, nested(key)) {
            assert(leads_to(tree, nested(key), inner));
        }
    }
}

proof fn lemma_is_about(tree: JsonTree, info: Option<(String, Option<String>)>)
    requires
        json::info_view(info) == json::tab_info(tree),
    ensures
        is_about(tree, info),
{
    lemma_says(tree, "tab_id"@);
    lemma_says(tree, "workspace_id"@);
}

/// `event_tab_info` gives the tab that an event is about, and the workspace that it names.
pub proof fn events_are_about_a_tab(value: &Value, info: Option<(String, Option<String>)>)
    requires
        call_ensures(event_tab_info, (value,), info),
    ensures
        is_about(json::json_tree(*value), info),
{
    lemma_is_about(json::json_tree(*value), info);
}

/// `parse_event_tab_info` gives the tab that an event is about, and nothing where the
/// text is no JSON.
pub proof fn event_texts_are_about_a_tab(raw: &str, info: Option<(String, Option<String>)>)
    requires
        call_ensures(parse_event_tab_info, (raw,), info),
    ensures
        json::json_of_text(raw@) is None ==> info is None,
        json::json_of_text(raw@) matches Some(tree) ==> is_about(tree, info),
{
    if let Some(tree) = json::json_of_text(raw@) {
        lemma_is_about(tree, info);
    }
}

/// `parse_context_workspace_id` gives the workspace that a context names, and nothing
/// where the text is no JSON.
pub proof fn context_texts_name_a_workspace(raw: &str, workspace_id: Option<String>)
    requires
        call_ensures(parse_context_workspace_id, (raw,), workspace_id),
    ensures
        json::json_of_text(raw@) is None ==> workspace_id is None,
        json::json_of_text(raw@) matches Some(tree) ==> forall|text: Seq<char>| #[trigger]
            leads_to(tree, own("workspace_id"@), text) <==> conduct::chars(workspace_id) == Some(
                text,
            ),
{
    if let Some(tree) = json::json_of_text(raw@) {
        paths_lead_to_texts(tree, own("workspace_id"@));
    }
}

/// Whether this is a string under a key, empty or not.
pub open spec fn has_text(tree: JsonTree, key: Seq<char>, text: Seq<char>) -> bool {
    is_under(tree, key, JsonTree::Text(text))
}

/// `herdr_error_message` gives the words of an error exactly if the document has one: the
/// code and the message, or the one of them that is a string, or else the error as it is
/// printed.
pub proof fn errors_are_put_into_words(value: &Value, message: Option<String>)
    requires
        call_ensures(herdr_error_message, (value,), message),
    ensures
        message is Some <==> exists|error: JsonTree| #[trigger]
            is_under(json::json_tree(*value), "error"@, error),
        forall|error: JsonTree, code: Seq<char>, words: Seq<char>|
            is_under(json::json_tree(*value), "error"@, error) && #[trigger] has_text(
                error,
                "code"@,
                code,
            ) && #[trigger] has_text(error, "message"@, words) ==> conduct::chars(message) == Some(
                code + ": "@ + words,
            ),
        forall|error: JsonTree, code: Seq<char>|
            is_under(json::json_tree(*value), "error"@, error) && #[trigger] has_text(
                error,
                "code"@,
                code,
            ) && (forall|words: Seq<char>| !#[trigger] has_text(error, "message"@, words))
                ==> conduct::chars(message) == Some(code),
        forall|error: JsonTree, words: Seq<char>|
            is_under(json::json_tree(*value), "error"@, error) && #[trigger] has_text(
                error,
                "message"@,
                words,
            ) && (forall|code: Seq<char>| !#[trigger] has_text(error, "code"@, code))
                ==> conduct::chars(message) == Some(words),
        forall|error: JsonTree| #[trigger]
            is_under(json::json_tree(*value), "error"@, error) && (forall|code: Seq<char>|
                !#[trigger] has_text(error, "code"@, code)) && (forall|words: Seq<char>|
                !#[trigger] has_text(error, "message"@, words)) ==> conduct::chars(message) == Some(
                json::json_text(error),
            ),
{
    let tree = json::json_tree(*value);
    if let Some(error) = tree.field("error"@) {
        assert(is_under(tree, "error"@, error));
        if let Some(code) = json::string_field(error, "code"@) {
            assert(has_text(error, "code"@, code));
        }
        if let Some(words) = json::string_field(error, "message"@) {
            assert(has_text(error, "message"@, words));
        }
    }
}

/// A document has a value under a key exactly if it is an object with that key, and it
/// has characters exactly if it is a string.
pub proof fn documents_are_seen(
    tree: JsonTree,
    key: Seq<char>,
    inner: JsonTree,
    text: Seq<char>,
)
    ensures
        is_under(tree, key, inner) <==> tree.field(key) == Some(inner),
        tree.text() == Some(text) <==> tree == JsonTree::Text(text),
{
}

} // verus!
