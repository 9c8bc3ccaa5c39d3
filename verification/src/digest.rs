//! SHA-256 digests, printed as lower-case hexadecimal text.

use sha2::{Digest, Sha256};
use vstd::prelude::*;

verus! {

/// The SHA-256 digest of the UTF-8 encoding of `text`, written as lower-case
/// hexadecimal characters.
pub uninterp spec fn sha256_hex(text: Seq<char>) -> Seq<char>;

/// Hashes `text` with `sha2::Sha256` (`Digest::new`, `Digest::update` on the
/// UTF-8 bytes, `Digest::finalize`) and formats the output with `{:x}`.
///
/// Trusted: the digest is a function of the text alone, and it is this
/// function that [`sha256_hex`] names. Nothing else is claimed of it.
#[verifier::external_body]
pub(crate) fn sha256_hex_digest(text: &str) -> (digest: String)
    ensures
        digest@ == sha256_hex(text@),
{
    let mut hasher = Sha256::new();
    hasher.update(text.as_bytes());
    format!("{:x}", hasher.finalize())
}

} // verus!
