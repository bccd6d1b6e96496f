//! The on-disk record format of the persistent key cache.
//!
//! A record is one file per cache key: a 4-byte little-endian length prefix
//! giving the public-key byte length, the public-key bytes, then the
//! secret-key bytes, whose length is implicit (the remainder of the file).
//! There is no version field and no checksum. A file shorter than
//! `4 + pk_len` is treated as absent, never as a usable record, so a torn
//! write from a crashed process can never surface as a truncated key.

use vstd::bytes::lemma_auto_spec_u32_to_from_le_bytes;
use vstd::bytes::spec_u32_from_le_bytes;
use vstd::bytes::spec_u32_to_le_bytes;
use vstd::bytes::u32_from_le_bytes;
use vstd::bytes::u32_to_le_bytes;
use vstd::prelude::*;
use vstd::slice::slice_subrange;

verus! {

/// The byte layout of a stored record: length prefix, public key, secret key.
pub open spec fn spec_encode_record(pk: Seq<u8>, sk: Seq<u8>) -> Seq<u8> {
    spec_u32_to_le_bytes(pk.len() as u32) + pk + sk
}

/// Whether a file's bytes form a well-formed record: at least 4 bytes, and at
/// least as many bytes after the prefix as the prefix declares for the public
/// key.
pub open spec fn spec_record_wf(data: Seq<u8>) -> bool {
    data.len() >= 4 && data.len() >= 4 + spec_u32_from_le_bytes(data.subrange(0, 4))
}

/// The keypair a well-formed record stores: the declared number of public-key
/// bytes after the prefix, then all remaining bytes as the secret key. A
/// malformed record parses to nothing.
pub open spec fn spec_decode_record(data: Seq<u8>) -> Option<(Seq<u8>, Seq<u8>)> {
    if spec_record_wf(data) {
        let pk_len = spec_u32_from_le_bytes(data.subrange(0, 4)) as int;
        Some((data.subrange(4, 4 + pk_len), data.subrange(4 + pk_len, data.len() as int)))
    } else {
        None
    }
}

/// Serialize a keypair into the record layout.
pub fn encode_record(pk: &Vec<u8>, sk: &Vec<u8>) -> (r: Vec<u8>)
    requires
        pk@.len() <= u32::MAX,
    ensures
        r@ == spec_encode_record(pk@, sk@),
        r@.len() == 4 + pk@.len() + sk@.len(),
        spec_u32_from_le_bytes(r@.subrange(0, 4)) == pk@.len(),
        spec_record_wf(r@),
{
    proof {
        lemma_auto_spec_u32_to_from_le_bytes();
    }
    let mut r: Vec<u8> = u32_to_le_bytes(pk.len() as u32);
    let mut i: usize = 0;
    while i < pk.len()
        invariant
            i <= pk@.len(),
            r@ == spec_u32_to_le_bytes(pk@.len() as u32) + pk@.take(i as int),
        decreases pk@.len() - i,
    {
        r.push(pk[i]);
        i += 1;
    }
    assert(pk@.take(pk@.len() as int) == pk@);
    let mut j: usize = 0;
    while j < sk.len()
        invariant
            j <= sk@.len(),
            r@ == spec_u32_to_le_bytes(pk@.len() as u32) + pk@ + sk@.take(j as int),
        decreases sk@.len() - j,
    {
        r.push(sk[j]);
        j += 1;
    }
    assert(sk@.take(sk@.len() as int) == sk@);
    proof {
        assert(r@.subrange(0, 4) =~= spec_u32_to_le_bytes(pk@.len() as u32));
    }
    r
}

/// Parse a record file's bytes. Returns the stored keypair exactly when the
/// bytes are well-formed; a short or torn file yields `None`, which callers
/// treat as a cache miss.
pub fn decode_record(data: &Vec<u8>) -> (r: Option<(Vec<u8>, Vec<u8>)>)
    ensures
        r is Some <==> spec_record_wf(data@),
        r matches Some(p) ==> spec_decode_record(data@) == Some((p.0@, p.1@)),
        r is None ==> spec_decode_record(data@) is None,
{
    if data.len() < 4 {
        return None;
    }
    let prefix: &[u8] = slice_subrange(data.as_slice(), 0, 4);
    let pk_len: usize = u32_from_le_bytes(prefix) as usize;
    proof {
        assert(prefix@ =~= data@.subrange(0, 4));
    }
    if data.len() - 4 < pk_len {
        return None;
    }
    let end: usize = 4 + pk_len;
    let mut pk: Vec<u8> = Vec::new();
    let mut i: usize = 4;
    while i < end
        invariant
            4 <= i <= end,
            end == 4 + pk_len,
            end <= data@.len(),
            pk@ == data@.subrange(4, i as int),
        decreases end - i,
    {
        pk.push(data[i]);
        proof {
            assert(pk@ =~= data@.subrange(4, i + 1 as int));
        }
        i += 1;
    }
    let mut sk: Vec<u8> = Vec::new();
    let mut j: usize = end;
    while j < data.len()
        invariant
            4 + pk_len <= j <= data@.len(),
            sk@ == data@.subrange(4 + pk_len as int, j as int),
        decreases data@.len() - j,
    {
        sk.push(data[j]);
        proof {
            assert(sk@ =~= data@.subrange(4 + pk_len as int, j + 1 as int));
        }
        j += 1;
    }
    Some((pk, sk))
}

/// Law: a record always reads back as exactly the keypair that was stored.
/// Derivation is therefore deterministic under a stable cache: whatever a
/// first derivation persisted, every later lookup of the same record yields
/// the byte-identical keypair.
pub proof fn lemma_record_round_trip(pk: Seq<u8>, sk: Seq<u8>)
    requires
        pk.len() <= u32::MAX,
    ensures
        spec_decode_record(spec_encode_record(pk, sk)) == Some((pk, sk)),
{
    lemma_auto_spec_u32_to_from_le_bytes();
    let data = spec_encode_record(pk, sk);
    assert(data.subrange(0, 4) =~= spec_u32_to_le_bytes(pk.len() as u32));
    assert(spec_u32_from_le_bytes(data.subrange(0, 4)) == pk.len());
    assert(data.subrange(4, 4 + pk.len() as int) =~= pk);
    assert(data.subrange(4 + pk.len() as int, data.len() as int) =~= sk);
}

/// Law: a record cut anywhere before the end of its public key no longer
/// parses — a torn write is a cache miss, never a shorter key that still
/// "parses". `n` is the surviving length: either under 4 bytes, or under
/// `4 + pk_len` where `pk_len` is what the intact prefix declares.
pub proof fn lemma_truncated_record_rejected(data: Seq<u8>, n: int)
    requires
        0 <= n <= data.len(),
        n < 4 || n < 4 + spec_u32_from_le_bytes(data.subrange(0, 4)),
    ensures
        spec_decode_record(data.take(n)) is None,
{
    let cut = data.take(n);
    if n >= 4 {
        assert(cut.subrange(0, 4) =~= data.subrange(0, 4));
    }
}

} // verus!
