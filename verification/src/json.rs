//! JSON questions answered by `serde_json`.
//!
//! A JSON value is held as the text that `serde_json` writes of it. The texts are
//! read with their members left raw, so that none is nested too deep to be read.

use vstd::prelude::*;

use crate::outcome::outcome;

verus! {

/// The string member `key` of the JSON object that a text holds, as
/// `serde_json` reads it.
pub uninterp spec fn root_string_member(text: Seq<char>, key: Seq<char>) -> Option<Seq<char>>;

/// Looks up a string member of a JSON object with `serde_json::from_str`: the
/// object is read with its members left raw, and the wanted one as a string.
///
/// Taken on trust: the answer depends on the text and the key alone. `None`
/// stands for a text that is no JSON, a root that is no object, a missing
/// member, and a member that is no string.
#[verifier::external_body]
pub(crate) fn json_string_member(text: &str, key: &str) -> (r: Option<String>)
    ensures
        r.deep_view() == root_string_member(text@, key@),
{
    let members: std::collections::BTreeMap<String, Box<serde_json::value::RawValue>> =
        serde_json::from_str(text).ok()?;
    serde_json::from_str(members.get(key)?.get()).ok()
}

/// Whether a character is white space between the tokens of a JSON text.
pub open spec fn is_json_space(c: char) -> bool {
    c == ' ' || c == '\n' || c == '\t' || c == '\r'
}

/// Whether a text starts or ends with white space.
pub open spec fn edged_by_space(text: Seq<char>) -> bool {
    text.len() > 0 && (is_json_space(text[0]) || is_json_space(text.last()))
}

/// A JSON text as `serde_json` writes it when it has read it raw, or the message
/// of the error that stopped it.
pub uninterp spec fn written_json(text: Seq<char>) -> Result<Seq<char>, Seq<char>>;

/// Reads a JSON text raw with `serde_json::from_str` and writes it with
/// `serde_json::to_string`.
///
/// Taken on trust: what is written, or the error message, depends on the text
/// alone, and a text without white space at its ends is written as it is.
#[verifier::external_body]
pub(crate) fn write_json_text(text: &str) -> (r: Result<String, String>)
    ensures
        outcome(r) == written_json(text@),
        r is Ok && !edged_by_space(text@) ==> r->Ok_0@ == text@,
{
    let value: Box<serde_json::value::RawValue> =
        serde_json::from_str(text).map_err(|error| error.to_string())?;
    serde_json::to_string(&value).map_err(|error| error.to_string())
}

} // verus!
