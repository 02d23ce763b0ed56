//! JSON values are carried through the library unopened; parsing and
//! pretty-printing are done by `serde_json`.

use vstd::prelude::*;

verus! {

#[verifier::external_type_specification]
#[verifier::external_body]
pub struct ExJsonValue(serde_json::Value);

/// Cloning a JSON value gives an equal value.
pub assume_specification[ <serde_json::Value as Clone>::clone ](
    value: &serde_json::Value,
) -> (copy: serde_json::Value)
    ensures
        copy == *value,
;

/// The value that `serde_json::from_str` reads from `text`, or `None` where
/// it reports an error.
pub uninterp spec fn json_parsed(text: Seq<char>) -> Option<serde_json::Value>;

/// The text that `serde_json::to_string_pretty` writes for `value`, or `None`
/// where it reports an error.
pub uninterp spec fn json_pretty(value: serde_json::Value) -> Option<Seq<char>>;

/// Calls `serde_json::from_str` for a `Value`. Trusted: the outcome depends
/// on the text alone; an error becomes `None`.
#[verifier::external_body]
pub(crate) fn parse_json(text: &str) -> (value: Option<serde_json::Value>)
    ensures
        value == json_parsed(text@),
{
    match serde_json::from_str::<serde_json::Value>(text) {
        Ok(value) => Some(value),
        Err(_) => None,
    }
}

/// Calls `serde_json::to_string_pretty`. Trusted: the outcome depends on the
/// value alone; an error becomes `None`.
#[verifier::external_body]
pub(crate) fn pretty_json(value: &serde_json::Value) -> (text: Option<String>)
    ensures
        text is Some == json_pretty(*value) is Some,
        text matches Some(t) ==> json_pretty(*value) == Some(t@),
{
    match serde_json::to_string_pretty(value) {
        Ok(text) => Some(text),
        Err(_) => None,
    }
}

} // verus!
