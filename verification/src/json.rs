//! Reading one string member out of a JSON document, through `serde_json`.

use vstd::prelude::*;

verus! {

/// What `serde_json` makes of `text` when asked for the string member `key`
/// of the document: `Err` with the parser's message when `text` is not JSON,
/// `Ok(None)` when the document has no member `key` holding a string, and
/// `Ok(Some(value))` when it has one.
pub uninterp spec fn json_string_member(text: Seq<char>, key: Seq<char>) -> Result<
    Option<Seq<char>>,
    Seq<char>,
>;

/// The views of a member lookup's result.
pub open spec fn member_view(r: Result<Option<String>, String>) -> Result<
    Option<Seq<char>>,
    Seq<char>,
> {
    match r {
        Ok(Some(v)) => Ok(Some(v@)),
        Ok(None) => Ok(None),
        Err(e) => Err(e@),
    }
}

/// `serde_json::from_str::<serde_json::Value>` on `text`, then
/// `Value::get(key)` and `Value::as_str` on what it parsed; the parser's
/// error is turned into its message. The contract says only that the
/// result is `json_string_member(text, key)`: the JSON grammar is not
/// written out here.
#[verifier::external_body]
pub(crate) fn json_str_member(text: &str, key: &str) -> (r: Result<Option<String>, String>)
    ensures
        member_view(r) == json_string_member(text@, key@),
{
    match serde_json::from_str::<serde_json::Value>(text) {
        Ok(v) => Ok(v.get(key).and_then(|m| m.as_str()).map(|m| m.to_string())),
        Err(e) => Err(e.to_string()),
    }
}

} // verus!
