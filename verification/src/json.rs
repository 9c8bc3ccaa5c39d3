//! JSON text for the serialized form of a block's transactions.

use vstd::prelude::*;

verus! {

/// The JSON string literal for `text`: the text between double quotes, with
/// quotes, backslashes and control characters escaped.
pub uninterp spec fn json_string_text(text: Seq<char>) -> Seq<char>;

/// Serializes one string with `serde_json::to_string`.
///
/// Trusted: the JSON literal is a function of the text alone, and it is this
/// function that [`json_string_text`] names.
#[verifier::external_body]
pub(crate) fn json_string(text: &str) -> (quoted: String)
    ensures
        quoted@ == json_string_text(text@),
{
    serde_json::to_string(text).unwrap_or_default()
}

} // verus!
