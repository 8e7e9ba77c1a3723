//! The 32-byte digests the library commits to.

use vstd::prelude::*;

verus! {

/// The SHA3-256 digest of `input` (FIPS 202).
pub uninterp spec fn sha3_256_digest(input: Seq<u8>) -> Seq<u8>;

/// The BLAKE3 digest of `input`, 32 bytes long.
pub uninterp spec fn blake3_digest(input: Seq<u8>) -> Seq<u8>;

/// Calls `<sha3::Sha3_256 as Digest>::digest`: the 32-byte SHA3-256 digest
/// of `input`, a function of the input bytes alone.
#[verifier::external_body]
fn sha3_digest_bytes(input: &[u8]) -> (res: [u8; 32])
    ensures
        res@ == sha3_256_digest(input@),
{
    <sha3::Sha3_256 as sha3::Digest>::digest(input).into()
}

/// Calls `blake3::hash`: the 32-byte BLAKE3 digest of `input`, a function
/// of the input bytes alone.
#[verifier::external_body]
fn blake3_hash_bytes(input: &[u8]) -> (res: [u8; 32])
    ensures
        res@ == blake3_digest(input@),
{
    blake3::hash(input).into()
}

/// Compute a SHA3-256 hash.
pub fn sha3_256(input: &[u8]) -> (res: [u8; 32])
    ensures
        res@ == sha3_256_digest(input@),
{
    sha3_digest_bytes(input)
}

/// The BLAKE3 digest of a receipt's canonical encoding: the commitment a
/// receipt sink stamps.
pub fn receipt_digest(canonical: &[u8]) -> (res: [u8; 32])
    ensures
        res@ == blake3_digest(canonical@),
{
    blake3_hash_bytes(canonical)
}

} // verus!
