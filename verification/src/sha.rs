//! SHA-256, as the `sha2` crate computes it.

use sha2::Digest;
use sha2::Sha256;
use vstd::prelude::*;

verus! {

/// The number of bytes in a SHA-256 digest.
pub const DIGEST_LEN: usize = 32;

/// The SHA-256 digest of `input`: what `sha2::Sha256::digest` returns for it.
pub uninterp spec fn sha256(input: Seq<u8>) -> Seq<u8>;

/// Whether `a` and `b` are two different inputs with one SHA-256 digest.
pub open spec fn collide(a: Seq<u8>, b: Seq<u8>) -> bool {
    a != b && sha256(a) == sha256(b)
}

/// Hashes `input` with one call of `sha2::Sha256::digest` and copies the
/// digest out of the array that the call returns.
///
/// Trusted: the result is that function's result, which depends on the bytes
/// of `input` alone, and it is 32 bytes long, the output size that `sha2`
/// declares for `Sha256`.
#[verifier::external_body]
pub(crate) fn sha256_digest(input: &[u8]) -> (out: Vec<u8>)
    ensures
        out@ == sha256(input@),
        out@.len() == DIGEST_LEN,
{
    Sha256::digest(input).to_vec()
}

} // verus!
