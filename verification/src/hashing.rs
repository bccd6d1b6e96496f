//! The fixed collision-resistant hash used for cache-key derivation and for
//! general-purpose content fingerprinting.

use vstd::prelude::*;

verus! {

/// The digest that the hash function assigns to a byte sequence. The hash is
/// a pure function of its input, so the digest can be named; nothing further
/// is assumed of its value.
pub uninterp spec fn blake3_of(data: Seq<u8>) -> Seq<u8>;

/// Relies on `blake3::hash`: a pure, deterministic function of the input
/// bytes whose digest is always 32 bytes (`blake3::OUT_LEN`).
#[verifier::external_body]
fn blake3_digest(data: &[u8]) -> (r: Vec<u8>)
    ensures
        r@ == blake3_of(data@),
        r@.len() == 32,
{
    blake3::hash(data).as_bytes().to_vec()
}

/// Fingerprint arbitrary bytes: a total function over all byte sequences,
/// including the empty one, with a fixed 32-byte digest.
pub fn blake3_hash(data: &[u8]) -> (r: Vec<u8>)
    ensures
        r@ == blake3_of(data@),
        r@.len() == 32,
{
    blake3_digest(data)
}

} // verus!
