//! SHA-256, taken from the `sha2` crate.

use sha2::Digest;
use vstd::prelude::*;

verus! {

/// The SHA-256 digest of a byte string.
pub uninterp spec fn sha256(data: Seq<u8>) -> [u8; 32];

/// Calls `sha2::Sha256::digest` (the one-shot `digest` of the `Digest` trait)
/// and moves the 32-byte output into a plain array. Trusted: the output
/// depends on the input bytes alone.
#[verifier::external_body]
pub(crate) fn sha256_digest(data: &[u8]) -> (digest: [u8; 32])
    ensures
        digest == sha256(data@),
{
    sha2::Sha256::digest(data).into()
}

} // verus!
