//! Reading JSON text. Parsing is left to `serde_json`; what it returns is
//! given a name here, and the functions below are believed to return exactly
//! that. Everything built on them is verified against those names.

use crate::strings::{opt_text, texts};
use vstd::prelude::*;

verus! {

/// The compact spelling that `serde_json` gives to the JSON value spelled by
/// `doc`; `None` where `doc` is not JSON.
pub uninterp spec fn json_canonical(doc: Seq<char>) -> Option<Seq<char>>;

/// The member stored under `key` in the JSON object spelled by `doc`, in
/// compact spelling; `None` where `doc` is not a JSON object or has no such
/// member.
pub uninterp spec fn json_member(doc: Seq<char>, key: Seq<char>) -> Option<Seq<char>>;

/// The elements of the JSON array spelled by `doc`, each in compact spelling;
/// `None` where `doc` is not a JSON array.
pub uninterp spec fn json_elements(doc: Seq<char>) -> Option<Seq<Seq<char>>>;

/// The characters of the JSON string spelled by `doc`; `None` where `doc` is
/// not a JSON string.
pub uninterp spec fn json_text(doc: Seq<char>) -> Option<Seq<char>>;

/// The compact spelling that `serde_json` gives to a list of texts, as a
/// JSON array of strings; `None` where it gives none.
pub uninterp spec fn json_of_texts(items: Seq<Seq<char>>) -> Option<Seq<char>>;

/// The JSON string that `serde_json` spells for a text, quotes and escapes
/// included; `None` where it gives none.
pub uninterp spec fn json_quoted(text: Seq<char>) -> Option<Seq<char>>;

/// The view of an optional list of texts.
pub open spec fn opt_texts(o: Option<Vec<String>>) -> Option<Seq<Seq<char>>> {
    match o {
        Some(v) => Some(texts(v@)),
        None => None,
    }
}

/// Calls `serde_json::from_str` for a `serde_json::Value` and spells the
/// value again with its `Display`. Believed: the result is the compact
/// spelling named by [`json_canonical`], absent exactly when parsing fails.
#[verifier::external_body]
pub(crate) fn canonical(doc: &str) -> (r: Option<String>)
    ensures
        opt_text(r) == json_canonical(doc@),
{
    let value: serde_json::Value = serde_json::from_str(doc).ok()?;
    Some(value.to_string())
}

/// Calls `serde_json::from_str` and then `Value::get` with a text key, and
/// spells what was found with `Display`. Believed: the result is the member
/// named by [`json_member`], absent when parsing fails, when the value is no
/// object and when the object has no such key.
#[verifier::external_body]
pub(crate) fn member(doc: &str, key: &str) -> (r: Option<String>)
    ensures
        opt_text(r) == json_member(doc@, key@),
{
    let value: serde_json::Value = serde_json::from_str(doc).ok()?;
    Some(value.get(key)?.to_string())
}

/// Calls `serde_json::from_str` and then `Value::as_array`, and spells each
/// element with `Display`. Believed: the result is the list named by
/// [`json_elements`], absent when parsing fails and when the value is no
/// array.
#[verifier::external_body]
pub(crate) fn elements(doc: &str) -> (r: Option<Vec<String>>)
    ensures
        opt_texts(r) == json_elements(doc@),
{
    let value: serde_json::Value = serde_json::from_str(doc).ok()?;
    let items = value.as_array()?;
    let mut out: Vec<String> = Vec::new();
    for item in items {
        out.push(item.to_string());
    }
    Some(out)
}

/// Calls `serde_json::from_str` and then `Value::as_str`. Believed: the
/// result is the text named by [`json_text`], absent when parsing fails and
/// when the value is no string.
#[verifier::external_body]
pub(crate) fn text(doc: &str) -> (r: Option<String>)
    ensures
        opt_text(r) == json_text(doc@),
{
    let value: serde_json::Value = serde_json::from_str(doc).ok()?;
    Some(value.as_str()?.to_owned())
}

/// Calls `serde_json::to_string` on a list of texts. Believed: the result
/// is the spelling named by [`json_of_texts`], absent exactly when the call
/// fails.
#[verifier::external_body]
pub(crate) fn spell_texts(items: &Vec<String>) -> (r: Option<String>)
    ensures
        opt_text(r) == json_of_texts(texts(items@)),
{
    serde_json::to_string(items).ok()
}

/// Calls `serde_json::to_string` on a text. Believed: the result is the
/// JSON string named by [`json_quoted`], absent exactly when the call fails.
#[verifier::external_body]
pub(crate) fn quote(text: &str) -> (r: Option<String>)
    ensures
        opt_text(r) == json_quoted(text@),
{
    serde_json::to_string(text).ok()
}

/// The JSON string for a text, or the empty JSON string where the text
/// cannot be spelled.
pub open spec fn quoted(text: Seq<char>) -> Seq<char> {
    match json_quoted(text) {
        Some(q) => q,
        None => "\"\""@,
    }
}

/// Spells a text as a JSON string.
pub fn to_json_string(text: &str) -> (r: String)
    ensures
        r@ == quoted(text@),
{
    match quote(text) {
        Some(q) => q,
        None => "\"\"".to_string(),
    }
}

/// The text stored under `key` in the JSON object spelled by `doc`; `None`
/// where there is no such member or it is not a string.
pub open spec fn json_text_member(doc: Seq<char>, key: Seq<char>) -> Option<Seq<char>> {
    match json_member(doc, key) {
        Some(m) => json_text(m),
        None => None,
    }
}

/// Reads the text stored under `key` in a JSON object.
pub fn text_member(doc: &str, key: &str) -> (r: Option<String>)
    ensures
        opt_text(r) == json_text_member(doc@, key@),
{
    match member(doc, key) {
        Some(m) => text(m.as_str()),
        None => None,
    }
}

} // verus!
