//! The deterministic keypair service: the one entry point that gives
//! "randomness" a determinism contract.
//!
//! For a given (algorithm, seed) pair the service hashes
//! `domain_tag || seed` into a cache key, consults the persistent cache, and
//! on a miss mints a fresh keypair and commits it before returning. The
//! keypair is never computed from the seed; determinism is achieved purely by
//! replaying the first stored result, and holds only while the cache
//! directory survives.
//!
//! The cache performs no cross-process locking: two concurrent first
//! derivations for one cache key may both miss, both generate, and both
//! write. The last writer wins, and the loser holds a keypair that later
//! reads will not reproduce. This gap is accepted behaviour, not repaired
//! here; callers needing single-writer semantics must serialize externally.

use crate::algorithm::Algorithm;
use crate::hashing::blake3_hash;
use crate::hashing::blake3_of;
use crate::provider::generate_keypair;
use crate::record::decode_record;
use crate::record::encode_record;
use crate::record::lemma_record_round_trip;
use crate::record::spec_decode_record;
use crate::record::spec_encode_record;
use crate::record::spec_record_wf;
use vstd::prelude::*;
use vstd::slice::slice_index_get;

verus! {

broadcast use vstd::seq::group_seq_axioms;

/// The bytes hashed into a cache key: the algorithm's domain tag, then the
/// raw seed. The tag prefix keeps two algorithms given the same seed from
/// ever sharing a hash input.
pub open spec fn spec_cache_key_input(alg: Algorithm, seed: Seq<u8>) -> Seq<u8> {
    alg.spec_domain_tag() + seed
}

/// Build the hash input `domain_tag || seed`.
pub fn cache_key_input(alg: Algorithm, seed: &[u8]) -> (r: Vec<u8>)
    ensures
        r@ == spec_cache_key_input(alg, seed@),
{
    let mut r = alg.domain_tag();
    let mut i: usize = 0;
    while i < seed.len()
        invariant
            i <= seed@.len(),
            r@ == alg.spec_domain_tag() + seed@.take(i as int),
        decreases seed@.len() - i,
    {
        r.push(*slice_index_get(seed, i));
        i += 1;
    }
    proof {
        assert(seed@.take(seed@.len() as int) == seed@);
    }
    r
}

/// The cache key of a derivation: the 32-byte digest of the tagged seed. It
/// is the sole identifier of the cached keypair.
pub fn cache_key(alg: Algorithm, seed: &[u8]) -> (r: Vec<u8>)
    ensures
        r@ == blake3_of(spec_cache_key_input(alg, seed@)),
        r@.len() == 32,
{
    let input = cache_key_input(alg, seed);
    blake3_hash(input.as_slice())
}

/// How one derivation was resolved against the persistent cache.
pub enum DeriveOutcome {
    /// The cache held a well-formed record; its stored keypair is replayed
    /// without re-validation and without invoking key generation.
    Cached { public_key: Vec<u8>, secret_key: Vec<u8> },
    /// The cache held nothing usable; a fresh keypair was minted and `record`
    /// is its serialized form, which must be persisted before the keypair is
    /// handed out.
    Generated { public_key: Vec<u8>, secret_key: Vec<u8>, record: Vec<u8> },
}

/// Resolve one derivation against the raw content of the cache file for this
/// derivation's cache key (`None` when the file or its directory is absent).
///
/// A well-formed record is a hit and is returned exactly as stored. A short
/// or torn file counts as a miss: a fresh keypair of the scheme's fixed
/// lengths is minted, and the returned record — which parses back to exactly
/// that keypair — is what the caller must write (create or overwrite) at the
/// cache path before returning the keypair.
pub fn resolve_derive(alg: Algorithm, cached: Option<Vec<u8>>) -> (r: DeriveOutcome)
    ensures
        r is Cached <==> (cached matches Some(d) && spec_record_wf(d@)),
        r matches DeriveOutcome::Cached { public_key, secret_key } ==> (cached matches Some(d)
            && spec_decode_record(d@) == Some((public_key@, secret_key@))),
        r matches DeriveOutcome::Generated { public_key, secret_key, record } ==> ({
            &&& public_key@.len() == alg.spec_pk_len()
            &&& secret_key@.len() == alg.spec_sk_len()
            &&& record@ == spec_encode_record(public_key@, secret_key@)
            &&& spec_decode_record(record@) == Some((public_key@, secret_key@))
        }),
{
    let hit: Option<(Vec<u8>, Vec<u8>)> = match &cached {
        Some(data) => decode_record(data),
        None => None,
    };
    match hit {
        Some((public_key, secret_key)) => DeriveOutcome::Cached { public_key, secret_key },
        None => {
            let (public_key, secret_key) = generate_keypair(alg);
            assert(alg.spec_pk_len() <= u32::MAX);
            let record = encode_record(&public_key, &secret_key);
            proof {
                lemma_record_round_trip(public_key@, secret_key@);
            }
            DeriveOutcome::Generated { public_key, secret_key, record }
        },
    }
}

/// Law: for one algorithm, distinct seeds always hash distinct inputs, so two
/// seeds can only collide on a cache key through a collision of the hash
/// itself.
pub proof fn lemma_distinct_seeds_distinct_inputs(alg: Algorithm, seed1: Seq<u8>, seed2: Seq<u8>)
    requires
        seed1 != seed2,
    ensures
        spec_cache_key_input(alg, seed1) != spec_cache_key_input(alg, seed2),
{
    let t = alg.spec_domain_tag();
    if spec_cache_key_input(alg, seed1) == spec_cache_key_input(alg, seed2) {
        assert((t + seed1).len() == t.len() + seed1.len());
        assert((t + seed2).len() == t.len() + seed2.len());
        assert(t + seed1 == t + seed2);
        assert(seed1.len() == seed2.len());
        assert forall|i: int| 0 <= i < seed1.len() implies seed1[i] == seed2[i] by {
            assert((t + seed1)[t.len() + i] == seed1[i]);
            assert((t + seed2)[t.len() + i] == seed2[i]);
        }
        assert(seed1 =~= seed2);
    }
}

/// Law: distinct algorithms always hash distinct inputs, even for the very
/// same seed bytes — indeed for any two seeds: the domain tags already
/// differ in their first byte, so the tagged inputs differ there too.
pub proof fn lemma_distinct_algorithms_distinct_inputs(
    alg1: Algorithm,
    alg2: Algorithm,
    seed1: Seq<u8>,
    seed2: Seq<u8>,
)
    requires
        alg1 != alg2,
    ensures
        spec_cache_key_input(alg1, seed1) != spec_cache_key_input(alg2, seed2),
{
    let t1 = alg1.spec_domain_tag();
    let t2 = alg2.spec_domain_tag();
    assert(t1[0] != t2[0]);
    assert(spec_cache_key_input(alg1, seed1)[0] == t1[0]);
    assert(spec_cache_key_input(alg2, seed2)[0] == t2[0]);
}

} // verus!
