//! A uniform signing/verification facade over three post-quantum signature
//! schemes, together with a content-addressed persistent key cache that makes
//! key generation reproducible across process restarts.
//!
//! Reproducibility is cache-based: the first derivation for a given
//! (algorithm, seed) pair mints a fresh keypair and persists it; every later
//! derivation replays the stored bytes. The keypair is not computed from the
//! seed, so the determinism guarantee lasts exactly as long as the cache does.

pub mod algorithm;
pub mod hashing;
pub mod naming;
pub mod provider;
pub mod record;
pub mod service;

use vstd::prelude::*;

verus! {

/// Typed failure outcomes of the signing facade.
#[derive(Clone, Copy, PartialEq, Eq, Structural, Debug)]
pub enum CryptoError {
    /// The secret key bytes do not parse as a key of the stated algorithm
    /// (wrong length or malformed structure). Raised by `sign`, never retried.
    InvalidKeyEncoding,
    /// The persistent cache could not be written (directory creation or file
    /// write failed). Fatal for a derivation: returning an unpersisted keypair
    /// would silently break determinism on the next restart.
    CacheWrite,
}

} // verus!
