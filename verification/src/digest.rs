//! The difficulty that the bytes of a proof reach.
use vstd::prelude::*;

verus! {

/// The double SHA-256 digest of `data`, its first eight bytes read as a
/// little-endian number.
pub uninterp spec fn sha256d_as_u64(data: Seq<u8>) -> u64;

/// Calls `snarkvm_algorithms::crypto_hash::sha256d_to_u64`, which hashes the
/// bytes twice with SHA-256 and reads the first eight bytes of the digest as
/// a little-endian `u64`. The result depends on the bytes alone and is what
/// [`sha256d_as_u64`] names; nothing more is claimed of it.
#[verifier::external_body]
fn sha256d_to_u64(data: &Vec<u8>) -> (digest: u64)
    ensures
        digest == sha256d_as_u64(data@),
{
    snarkvm_algorithms::crypto_hash::sha256d_to_u64(data)
}

/// The difficulty of a proof: a lower value is harder to reach.
pub fn hash_difficulty(proof_bytes: &Vec<u8>) -> (difficulty: u64)
    ensures
        difficulty == sha256d_as_u64(proof_bytes@),
{
    sha256d_to_u64(proof_bytes)
}

} // verus!
