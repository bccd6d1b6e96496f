//! File naming of the persistent key cache: one file per cache key, named by
//! the lower-case hexadecimal form of the key's digest with the `.keypair`
//! suffix.

use vstd::prelude::*;
use vstd::string::StringExecFns;

verus! {

/// The lower-case hexadecimal digit of a nibble.
pub open spec fn spec_hex_digit(n: u8) -> char
    recommends
        n < 16,
{
    if n < 10 {
        ((48 + n) as char)  // '0' through '9'
    } else {
        ((87 + n) as char)  // 'a' through 'f'
    }
}

/// The lower-case hexadecimal form of a byte sequence: two digits per byte,
/// high nibble first.
pub open spec fn spec_hex(b: Seq<u8>) -> Seq<char> {
    Seq::new(
        b.len() * 2,
        |i: int|
            if i % 2 == 0 {
                spec_hex_digit(b[i / 2] >> 4)
            } else {
                spec_hex_digit(b[i / 2] & 0xf)
            },
    )
}

/// Relies on `hex::encode`: lower-case hexadecimal, two digits per byte,
/// high nibble first.
#[verifier::external_body]
fn hex_encode(b: &[u8]) -> (r: String)
    ensures
        r@ == spec_hex(b@),
{
    hex::encode(b)
}

/// The cache file name for a cache key: its lower-case hexadecimal form
/// followed by `.keypair`.
pub fn cache_file_name(cache_key: &[u8]) -> (r: String)
    ensures
        r@ == spec_hex(cache_key@) + ".keypair"@,
{
    let mut r = hex_encode(cache_key);
    r.append(".keypair");
    r
}

} // verus!
