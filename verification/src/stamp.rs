//! Values that come from outside the ledger: fresh identifiers and the
//! wall clock. Nothing in the library depends on which value comes back.

use chrono::Utc;
use uuid::Uuid;
use vstd::prelude::*;

verus! {

/// The length of a hyphenated UUID: 32 hexadecimal digits and 4 hyphens.
pub const UUID_TEXT_LEN: usize = 36;

/// Draws a random identifier with `uuid::Uuid::new_v4` and prints it with
/// `to_string`.
///
/// Trusted: the printed form is the hyphenated one, 36 characters long.
/// Which identifier is drawn is not stated: two calls may differ.
#[verifier::external_body]
pub(crate) fn fresh_id() -> (id: String)
    ensures
        id@.len() == UUID_TEXT_LEN,
{
    Uuid::new_v4().to_string()
}

/// Reads the clock with `chrono::Utc::now` and prints the instant with
/// `DateTime::to_rfc3339`.
///
/// Trusted: nothing is stated of the text that comes back.
#[verifier::external_body]
pub(crate) fn current_timestamp() -> (stamp: String) {
    Utc::now().to_rfc3339()
}

} // verus!
