//! The fixed-size integrity digest used to chain ceremony states.
//!
//! The digest function itself is an external collaborator (BLAKE2b-512); the
//! orchestration only needs that it is a function of the input bytes alone
//! and that its output is 64 bytes long. Its value on given bytes is named by
//! [`hash_of`] and never re-stated here.

use vstd::prelude::*;
use blake2::Digest;

verus! {

/// The 64-byte BLAKE2b-512 digest of `input`, named but not re-specified:
/// it depends on the input bytes alone.
pub uninterp spec fn hash_of(input: Seq<u8>) -> Seq<u8>;

/// Relies on `blake2::Blake2b512` through the `digest::Digest` interface:
/// feeding all input bytes and finalizing yields the 64-byte BLAKE2b-512
/// digest, a pure function of the input bytes.
#[verifier::external_body]
fn blake2b512_digest(input: &[u8]) -> (r: Vec<u8>)
    ensures
        r@ == hash_of(input@),
        r@.len() == 64,
{
    let mut hasher = blake2::Blake2b512::new();
    hasher.update(input);
    let digest = hasher.finalize();
    digest.as_slice().to_vec()
}

/// The fixed-size digest of a ceremony state: the hash both ends of the
/// hash chain are computed with.
pub fn calculate_hash(input: &[u8]) -> (r: Vec<u8>)
    ensures
        r@ == hash_of(input@),
        r@.len() == 64,
{
    blake2b512_digest(input)
}

} // verus!
