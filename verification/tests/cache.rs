use bastille_crypto::algorithm::Algorithm;
use bastille_crypto::record::decode_record;
use bastille_crypto::record::encode_record;
use bastille_crypto::service::cache_key;
use bastille_crypto::service::cache_key_input;
use bastille_crypto::service::resolve_derive;
use bastille_crypto::service::DeriveOutcome;

#[test]
fn record_format_is_exact() {
    // A record for pk_len = 5 and sk_len = 3 occupies exactly 4 + 5 + 3
    // bytes, with the first four decoding little-endian to 5.
    let pk = vec![9u8, 8, 7, 6, 5];
    let sk = vec![1u8, 2, 3];
    let record = encode_record(&pk, &sk);
    assert_eq!(record, vec![5u8, 0, 0, 0, 9, 8, 7, 6, 5, 1, 2, 3]);
    assert_eq!(record.len(), 4 + pk.len() + sk.len());
}

#[test]
fn record_round_trips() {
    let pk = vec![9u8, 8, 7, 6, 5];
    let sk = vec![1u8, 2, 3];
    let record = encode_record(&pk, &sk);
    assert_eq!(decode_record(&record), Some((pk, sk)));
}

#[test]
fn empty_keys_round_trip() {
    let record = encode_record(&Vec::new(), &Vec::new());
    assert_eq!(record, vec![0u8, 0, 0, 0]);
    assert_eq!(decode_record(&record), Some((Vec::new(), Vec::new())));
}

#[test]
fn short_file_is_treated_as_absent() {
    // Fewer than 4 bytes: no length prefix survives.
    assert_eq!(decode_record(&vec![]), None);
    assert_eq!(decode_record(&vec![5u8]), None);
    assert_eq!(decode_record(&vec![5u8, 0, 0]), None);
}

#[test]
fn truncated_file_is_treated_as_absent() {
    // A record cut to 4 + pk_len - 1 bytes declares more public-key bytes
    // than it holds and must read as absent, never as a shorter key.
    let pk = vec![9u8, 8, 7, 6, 5];
    let sk = vec![1u8, 2, 3];
    let record = encode_record(&pk, &sk);
    let torn: Vec<u8> = record[..4 + pk.len() - 1].to_vec();
    assert_eq!(decode_record(&torn), None);
    // Cut inside the prefix as well.
    assert_eq!(decode_record(&record[..3].to_vec()), None);
}

#[test]
fn derivation_regenerates_over_torn_file() {
    let alg = Algorithm::SphincsPlusShake128f;
    let torn = vec![200u8, 0, 0, 0, 1, 2, 3];  // declares 200 bytes, holds 3
    match resolve_derive(alg, Some(torn)) {
        DeriveOutcome::Generated { public_key, secret_key, record } => {
            // The replacement record is well-formed and parses back exactly.
            assert_eq!(decode_record(&record), Some((public_key, secret_key)));
        },
        DeriveOutcome::Cached { .. } => panic!("a torn record must be a miss"),
    }
}

#[test]
fn derivation_is_deterministic_under_stable_cache() {
    // Concrete scenario: seed of 32 zero bytes, first scheme. The first call
    // sees an empty cache and generates; the second call sees the record the
    // first one persisted and replays the identical bytes. The outcome
    // variant is the generation probe: `Cached` means key generation was not
    // invoked again.
    let alg = Algorithm::Dilithium2;
    let (first_pk, first_sk, record) = match resolve_derive(alg, None) {
        DeriveOutcome::Generated { public_key, secret_key, record } => {
            (public_key, secret_key, record)
        },
        DeriveOutcome::Cached { .. } => panic!("an empty cache must be a miss"),
    };
    assert_eq!(first_pk.len(), 1312);
    assert_eq!(first_sk.len(), 2560);
    match resolve_derive(alg, Some(record)) {
        DeriveOutcome::Cached { public_key, secret_key } => {
            assert_eq!(public_key, first_pk);
            assert_eq!(secret_key, first_sk);
        },
        DeriveOutcome::Generated { .. } => panic!("a stored record must be a hit"),
    }
}

#[test]
fn distinct_seeds_get_distinct_cache_keys() {
    let alg = Algorithm::Falcon512;
    let k1 = cache_key(alg, &[0u8; 32]);
    let k2 = cache_key(alg, &[1u8; 32]);
    assert_ne!(k1, k2);
    // Seeds of different lengths too.
    assert_ne!(cache_key(alg, b"seed"), cache_key(alg, b"seed2"));
    assert_eq!(cache_key(alg, b"seed"), cache_key(alg, b"seed"));
}

#[test]
fn distinct_algorithms_get_distinct_cache_keys() {
    let seed = [7u8; 32];
    let k_a = cache_key(Algorithm::Dilithium2, &seed);
    let k_b = cache_key(Algorithm::Falcon512, &seed);
    let k_c = cache_key(Algorithm::SphincsPlusShake128f, &seed);
    assert_ne!(k_a, k_b);
    assert_ne!(k_a, k_c);
    assert_ne!(k_b, k_c);
}

#[test]
fn cache_key_is_tagged_digest() {
    // The cache key is the collaborator's digest of `domain_tag || seed`.
    let seed = b"some seed bytes";
    let mut tagged = b"dilithium2_v1:".to_vec();
    tagged.extend_from_slice(seed);
    let expected = blake3::hash(&tagged).as_bytes().to_vec();
    assert_eq!(cache_key(Algorithm::Dilithium2, seed), expected);
    assert_eq!(cache_key_input(Algorithm::Dilithium2, seed), tagged);
    assert_eq!(cache_key_input(Algorithm::Falcon512, b""), b"falcon512_v1:".to_vec());
    assert_eq!(
        cache_key_input(Algorithm::SphincsPlusShake128f, b""),
        b"sphincsplus_v1:".to_vec()
    );
}

#[test]
fn cross_algorithm_records_never_collide() {
    // Same seed, different algorithms: the stored records differ already in
    // their length prefixes, since the schemes' public-key lengths differ.
    let mut prefixes: Vec<Vec<u8>> = Vec::new();
    for alg in [
        Algorithm::Dilithium2,
        Algorithm::Falcon512,
        Algorithm::SphincsPlusShake128f,
    ] {
        match resolve_derive(alg, None) {
            DeriveOutcome::Generated { record, .. } => {
                prefixes.push(record[..4].to_vec());
            },
            DeriveOutcome::Cached { .. } => panic!("an empty cache must be a miss"),
        }
    }
    assert_ne!(prefixes[0], prefixes[1]);
    assert_ne!(prefixes[0], prefixes[2]);
    assert_ne!(prefixes[1], prefixes[2]);
}
