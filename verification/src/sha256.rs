//! SHA-256, computed by the `sha2` crate.
//!
//! The hash function is not defined here. It has a name, so that contracts
//! can say which bytes were hashed, and one function that computes it.
use sha2::Digest;
use vstd::prelude::*;

verus! {

/// The SHA-256 digest of `data`: 32 bytes that depend on `data` alone.
pub uninterp spec fn sha256_digest(data: Seq<u8>) -> Seq<u8>;

/// Hashes `data` with `sha2::Sha256::digest`.
///
/// Not verified: the result is taken to be the SHA-256 digest of exactly the
/// bytes of `data`, which is 32 bytes long whatever `data` holds.
#[verifier::external_body]
pub(crate) fn sha256(data: &[u8]) -> (digest: [u8; 32])
    ensures
        digest@ == sha256_digest(data@),
{
    sha2::Sha256::digest(data).into()
}

} // verus!
