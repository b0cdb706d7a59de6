//! The SHA-2 digests of the `sha2` crate.

use sha2::Digest;
use vstd::prelude::*;

verus! {

/// The SHA-256 digest of `data`.
pub uninterp spec fn sha256(data: Seq<u8>) -> Seq<u8>;

/// The SHA-512/256 digest of `data`.
pub uninterp spec fn sha512_256(data: Seq<u8>) -> Seq<u8>;

/// The SHA-512 digest of `data`.
pub uninterp spec fn sha512(data: Seq<u8>) -> Seq<u8>;

/// `Digest::digest` of `sha2::Sha256`: the digest of `data`, which has 32
/// bytes.
#[verifier::external_body]
pub(crate) fn sha256_digest(data: &[u8]) -> (digest: Vec<u8>)
    ensures
        digest@ == sha256(data@),
        digest@.len() == 32,
{
    sha2::Sha256::digest(data).to_vec()
}

/// `Digest::digest` of `sha2::Sha512_256`: the digest of `data`, which has 32
/// bytes.
#[verifier::external_body]
pub(crate) fn sha512_256_digest(data: &[u8]) -> (digest: Vec<u8>)
    ensures
        digest@ == sha512_256(data@),
        digest@.len() == 32,
{
    sha2::Sha512_256::digest(data).to_vec()
}

/// `Digest::digest` of `sha2::Sha512`: the digest of `data`, which has 64
/// bytes.
#[verifier::external_body]
pub(crate) fn sha512_digest(data: &[u8]) -> (digest: Vec<u8>)
    ensures
        digest@ == sha512(data@),
        digest@.len() == 64,
{
    sha2::Sha512::digest(data).to_vec()
}

} // verus!
