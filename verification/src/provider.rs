//! The signature-algorithm capability set: keypair generation, signing and
//! verification, one interchangeable variant per supported scheme.
//!
//! The cryptographic primitives themselves are external collaborators; each
//! is reached through one trusted call whose contract states only what the
//! primitive's source shows of byte lengths and length checks. Signing fails
//! loudly on a malformed secret key; verification collapses every malformed
//! input into `false`, so callers cannot tell a bad input from a bad
//! signature. That asymmetry is deliberate and preserved here.

use crate::algorithm::Algorithm;
use crate::CryptoError;
use pqcrypto_dilithium::dilithium2;
use pqcrypto_falcon::falcon512;
use pqcrypto_sphincsplus::sphincsshake128fsimple;
use pqcrypto_traits::sign::DetachedSignature;
use pqcrypto_traits::sign::PublicKey;
use pqcrypto_traits::sign::SecretKey;
use vstd::prelude::*;

verus! {

/// The error the cryptographic crates raise when bytes have the wrong length
/// for the key or signature they should encode.
#[verifier::external_type_specification]
#[verifier::external_body]
pub struct ExPqError(pqcrypto_traits::Error);

/// The signature `dilithium2::detached_sign` produces for a message and a
/// well-formed secret key. The scheme signs deterministically (its
/// implementations zero the signing randomizer), so the signature is a pure
/// function of these two inputs and can be named; nothing further is assumed
/// of its bytes.
pub uninterp spec fn dilithium2_sig_of(msg: Seq<u8>, sk: Seq<u8>) -> Seq<u8>;

/// The outcome of dilithium2 signature verification: a pure, deterministic
/// function of signature, message and public key — verification draws no
/// randomness.
pub uninterp spec fn dilithium2_verify_of(sig: Seq<u8>, msg: Seq<u8>, pk: Seq<u8>) -> bool;

/// The outcome of falcon512 signature verification: a pure, deterministic
/// function of signature, message and public key.
pub uninterp spec fn falcon512_verify_of(sig: Seq<u8>, msg: Seq<u8>, pk: Seq<u8>) -> bool;

/// The outcome of SPHINCS+-SHAKE-128f-simple signature verification: a pure,
/// deterministic function of signature, message and public key.
pub uninterp spec fn sphincsplus_verify_of(sig: Seq<u8>, msg: Seq<u8>, pk: Seq<u8>) -> bool;

/// Relies on `pqcrypto_dilithium::dilithium2::keypair`: a fresh keypair from
/// secure randomness; the public key is exactly 1312 bytes and the secret key
/// exactly 2560 bytes (the scheme's fixed array sizes).
#[verifier::external_body]
fn dilithium2_keypair_bytes() -> (r: (Vec<u8>, Vec<u8>))
    ensures
        r.0@.len() == 1312,
        r.1@.len() == 2560,
{
    let (pk, sk) = dilithium2::keypair();
    (pk.as_bytes().to_vec(), sk.as_bytes().to_vec())
}

/// Relies on `pqcrypto_falcon::falcon512::keypair`: a fresh keypair from
/// secure randomness; the public key is exactly 897 bytes and the secret key
/// exactly 1281 bytes.
#[verifier::external_body]
fn falcon512_keypair_bytes() -> (r: (Vec<u8>, Vec<u8>))
    ensures
        r.0@.len() == 897,
        r.1@.len() == 1281,
{
    let (pk, sk) = falcon512::keypair();
    (pk.as_bytes().to_vec(), sk.as_bytes().to_vec())
}

/// Relies on `pqcrypto_sphincsplus::sphincsshake128fsimple::keypair`: a fresh
/// keypair from secure randomness; the public key is exactly 32 bytes and the
/// secret key exactly 64 bytes.
#[verifier::external_body]
fn sphincsplus_keypair_bytes() -> (r: (Vec<u8>, Vec<u8>))
    ensures
        r.0@.len() == 32,
        r.1@.len() == 64,
{
    let (pk, sk) = sphincsshake128fsimple::keypair();
    (pk.as_bytes().to_vec(), sk.as_bytes().to_vec())
}

/// Relies on `dilithium2::SecretKey::from_bytes`, which accepts exactly 2560
/// bytes and fails otherwise, and `dilithium2::detached_sign`: the scheme
/// signs deterministically (both its implementations zero the signing
/// randomizer before deriving the sampling seed), and every signature is
/// exactly 2420 bytes.
#[verifier::external_body]
fn dilithium2_sign_bytes(message: &[u8], sk: &[u8]) -> (r: Result<
    Vec<u8>,
    pqcrypto_traits::Error,
>)
    ensures
        r is Ok <==> sk@.len() == 2560,
        r matches Ok(sig) ==> sig@ == dilithium2_sig_of(message@, sk@),
        r matches Ok(sig) ==> sig@.len() == 2420,
{
    match dilithium2::SecretKey::from_bytes(sk) {
        Ok(k) => Ok(dilithium2::detached_sign(message, &k).as_bytes().to_vec()),
        Err(e) => Err(e),
    }
}

/// Relies on `falcon512::SecretKey::from_bytes`, which accepts exactly 1281
/// bytes and fails otherwise, and `falcon512::detached_sign`, whose
/// randomized, variable-length signature occupies at most 752 bytes. The
/// binding exposes no failure signal from the signing core, so on a
/// right-length but structurally malformed key the call still returns `Ok`,
/// with bytes that no verification will accept; nothing more than the length
/// bound can be promised of the signature.
#[verifier::external_body]
fn falcon512_sign_bytes(message: &[u8], sk: &[u8]) -> (r: Result<
    Vec<u8>,
    pqcrypto_traits::Error,
>)
    ensures
        r is Ok <==> sk@.len() == 1281,
        r matches Ok(sig) ==> sig@.len() <= 752,
{
    match falcon512::SecretKey::from_bytes(sk) {
        Ok(k) => Ok(falcon512::detached_sign(message, &k).as_bytes().to_vec()),
        Err(e) => Err(e),
    }
}

/// Relies on `sphincsshake128fsimple::SecretKey::from_bytes`, which accepts
/// exactly 64 bytes and fails otherwise, and
/// `sphincsshake128fsimple::detached_sign`: signing mixes in fresh
/// randomness, so the signature bytes cannot be named, but every signature
/// is exactly 17088 bytes.
#[verifier::external_body]
fn sphincsplus_sign_bytes(message: &[u8], sk: &[u8]) -> (r: Result<
    Vec<u8>,
    pqcrypto_traits::Error,
>)
    ensures
        r is Ok <==> sk@.len() == 64,
        r matches Ok(sig) ==> sig@.len() == 17088,
{
    match sphincsshake128fsimple::SecretKey::from_bytes(sk) {
        Ok(k) => Ok(sphincsshake128fsimple::detached_sign(message, &k).as_bytes().to_vec()),
        Err(e) => Err(e),
    }
}

/// Relies on `dilithium2::verify_detached_signature` and the `from_bytes`
/// length checks around it: verification draws no randomness, so the outcome
/// is a pure function of the three inputs; a signature longer than 2420
/// bytes or a public key not exactly 1312 bytes never verifies.
#[verifier::external_body]
fn dilithium2_verify_bytes(sig: &[u8], message: &[u8], pk: &[u8]) -> (r: bool)
    ensures
        r == dilithium2_verify_of(sig@, message@, pk@),
        sig@.len() > 2420 ==> r == false,
        pk@.len() != 1312 ==> r == false,
{
    match (dilithium2::DetachedSignature::from_bytes(sig), dilithium2::PublicKey::from_bytes(pk)) {
        (Ok(s), Ok(p)) => dilithium2::verify_detached_signature(&s, message, &p).is_ok(),
        _ => false,
    }
}

/// Relies on `falcon512::verify_detached_signature` and the `from_bytes`
/// length checks around it: verification draws no randomness, so the outcome
/// is a pure function of the three inputs; a signature longer than 752 bytes
/// or a public key not exactly 897 bytes never verifies.
#[verifier::external_body]
fn falcon512_verify_bytes(sig: &[u8], message: &[u8], pk: &[u8]) -> (r: bool)
    ensures
        r == falcon512_verify_of(sig@, message@, pk@),
        sig@.len() > 752 ==> r == false,
        pk@.len() != 897 ==> r == false,
{
    match (falcon512::DetachedSignature::from_bytes(sig), falcon512::PublicKey::from_bytes(pk)) {
        (Ok(s), Ok(p)) => falcon512::verify_detached_signature(&s, message, &p).is_ok(),
        _ => false,
    }
}

/// Relies on `sphincsshake128fsimple::verify_detached_signature` and the
/// `from_bytes` length checks around it: verification draws no randomness,
/// so the outcome is a pure function of the three inputs; a signature longer
/// than 17088 bytes or a public key not exactly 32 bytes never verifies.
#[verifier::external_body]
fn sphincsplus_verify_bytes(sig: &[u8], message: &[u8], pk: &[u8]) -> (r: bool)
    ensures
        r == sphincsplus_verify_of(sig@, message@, pk@),
        sig@.len() > 17088 ==> r == false,
        pk@.len() != 32 ==> r == false,
{
    match (
        sphincsshake128fsimple::DetachedSignature::from_bytes(sig),
        sphincsshake128fsimple::PublicKey::from_bytes(pk),
    ) {
        (Ok(s), Ok(p)) => sphincsshake128fsimple::verify_detached_signature(&s, message, &p).is_ok(),
        _ => false,
    }
}

/// Mint a fresh keypair of the given scheme from secure randomness. The byte
/// lengths are the scheme's fixed ones; the key values are random, so no two
/// calls are related. Infallible under a correct entropy source.
pub fn generate_keypair(alg: Algorithm) -> (r: (Vec<u8>, Vec<u8>))
    ensures
        r.0@.len() == alg.spec_pk_len(),
        r.1@.len() == alg.spec_sk_len(),
{
    match alg {
        Algorithm::Dilithium2 => dilithium2_keypair_bytes(),
        Algorithm::Falcon512 => falcon512_keypair_bytes(),
        Algorithm::SphincsPlusShake128f => sphincsplus_keypair_bytes(),
    }
}

/// Produce a detached signature on `message`. Succeeds exactly when
/// `secret_key` has the scheme's secret-key length; any other input fails
/// loudly with `InvalidKeyEncoding` and is not retried. The first scheme
/// signs deterministically, so its signature is pinned as a function of
/// message and key; the other two mix in fresh randomness. Key parsing in
/// the underlying primitives checks only the length, so a right-length but
/// structurally malformed key still signs — the result is then a signature
/// that no verification will accept.
pub fn sign(alg: Algorithm, message: &[u8], secret_key: &[u8]) -> (r: Result<Vec<u8>, CryptoError>)
    ensures
        r is Ok <==> secret_key@.len() == alg.spec_sk_len(),
        r matches Ok(sig) ==> sig@.len() <= alg.spec_sig_max_len(),
        r matches Err(e) ==> e == CryptoError::InvalidKeyEncoding,
        r matches Ok(sig) ==> (alg == Algorithm::Dilithium2 ==> sig@ == dilithium2_sig_of(
            message@,
            secret_key@,
        ) && sig@.len() == 2420),
        r matches Ok(sig) ==> (alg == Algorithm::SphincsPlusShake128f ==> sig@.len() == 17088),
{
    let out = match alg {
        Algorithm::Dilithium2 => dilithium2_sign_bytes(message, secret_key),
        Algorithm::Falcon512 => falcon512_sign_bytes(message, secret_key),
        Algorithm::SphincsPlusShake128f => sphincsplus_sign_bytes(message, secret_key),
    };
    match out {
        Ok(sig) => Ok(sig),
        Err(_) => Err(CryptoError::InvalidKeyEncoding),
    }
}

/// Check a detached signature. Returns `false` — never an error — on a
/// malformed signature, a malformed public key, or a genuine mismatch;
/// in particular an over-long signature or a public key of the wrong length
/// never verifies. The outcome is deterministic: each scheme's verification
/// is a pure function of signature, message and public key.
pub fn verify(alg: Algorithm, signature: &[u8], message: &[u8], public_key: &[u8]) -> (r: bool)
    ensures
        alg == Algorithm::Dilithium2 ==> r == dilithium2_verify_of(
            signature@,
            message@,
            public_key@,
        ),
        alg == Algorithm::Falcon512 ==> r == falcon512_verify_of(
            signature@,
            message@,
            public_key@,
        ),
        alg == Algorithm::SphincsPlusShake128f ==> r == sphincsplus_verify_of(
            signature@,
            message@,
            public_key@,
        ),
        signature@.len() > alg.spec_sig_max_len() ==> r == false,
        public_key@.len() != alg.spec_pk_len() ==> r == false,
{
    match alg {
        Algorithm::Dilithium2 => dilithium2_verify_bytes(signature, message, public_key),
        Algorithm::Falcon512 => falcon512_verify_bytes(signature, message, public_key),
        Algorithm::SphincsPlusShake128f => sphincsplus_verify_bytes(signature, message, public_key),
    }
}

} // verus!
