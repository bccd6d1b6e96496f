//! The closed set of supported signature schemes, with their fixed key and
//! signature sizes and the domain tags used for cache-key derivation.

use vstd::prelude::*;

verus! {

/// One of the three supported post-quantum signature schemes: two
/// lattice-based schemes (the second with compact signatures) and one
/// hash-based scheme.
#[derive(Clone, Copy, PartialEq, Eq, Structural, Debug)]
pub enum Algorithm {
    /// Dilithium2, lattice-based.
    Dilithium2,
    /// Falcon-512, lattice-based with compact signatures.
    Falcon512,
    /// SPHINCS+-SHAKE-128f-simple, hash-based.
    SphincsPlusShake128f,
}

impl Algorithm {
    /// The domain tag mixed into the hash input ahead of the seed bytes, so
    /// that two algorithms given the same seed never share a cache key.
    /// The tags are the ASCII bytes of `dilithium2_v1:`, `falcon512_v1:` and
    /// `sphincsplus_v1:`; they are used only for cache-key derivation and are
    /// never stored.
    pub open spec fn spec_domain_tag(self) -> Seq<u8> {
        match self {
            Algorithm::Dilithium2 => seq![
                100u8, 105u8, 108u8, 105u8, 116u8, 104u8, 105u8, 117u8, 109u8,
                50u8, 95u8, 118u8, 49u8, 58u8,
            ],
            Algorithm::Falcon512 => seq![
                102u8, 97u8, 108u8, 99u8, 111u8, 110u8, 53u8, 49u8, 50u8,
                95u8, 118u8, 49u8, 58u8,
            ],
            Algorithm::SphincsPlusShake128f => seq![
                115u8, 112u8, 104u8, 105u8, 110u8, 99u8, 115u8, 112u8, 108u8,
                117u8, 115u8, 95u8, 118u8, 49u8, 58u8,
            ],
        }
    }

    /// Public-key length in bytes, fixed per scheme.
    pub open spec fn spec_pk_len(self) -> nat {
        match self {
            Algorithm::Dilithium2 => 1312,
            Algorithm::Falcon512 => 897,
            Algorithm::SphincsPlusShake128f => 32,
        }
    }

    /// Secret-key length in bytes, fixed per scheme.
    pub open spec fn spec_sk_len(self) -> nat {
        match self {
            Algorithm::Dilithium2 => 2560,
            Algorithm::Falcon512 => 1281,
            Algorithm::SphincsPlusShake128f => 64,
        }
    }

    /// Largest possible detached-signature length in bytes; signatures of the
    /// second scheme are variable-length up to this bound.
    pub open spec fn spec_sig_max_len(self) -> nat {
        match self {
            Algorithm::Dilithium2 => 2420,
            Algorithm::Falcon512 => 752,
            Algorithm::SphincsPlusShake128f => 17088,
        }
    }

    /// The domain tag as bytes.
    pub fn domain_tag(&self) -> (r: Vec<u8>)
        ensures
            r@ == self.spec_domain_tag(),
    {
        let mut r: Vec<u8> = Vec::new();
        match self {
            Algorithm::Dilithium2 => {
                r.push(100);
                r.push(105);
                r.push(108);
                r.push(105);
                r.push(116);
                r.push(104);
                r.push(105);
                r.push(117);
                r.push(109);
                r.push(50);
                r.push(95);
                r.push(118);
                r.push(49);
                r.push(58);
            },
            Algorithm::Falcon512 => {
                r.push(102);
                r.push(97);
                r.push(108);
                r.push(99);
                r.push(111);
                r.push(110);
                r.push(53);
                r.push(49);
                r.push(50);
                r.push(95);
                r.push(118);
                r.push(49);
                r.push(58);
            },
            Algorithm::SphincsPlusShake128f => {
                r.push(115);
                r.push(112);
                r.push(104);
                r.push(105);
                r.push(110);
                r.push(99);
                r.push(115);
                r.push(112);
                r.push(108);
                r.push(117);
                r.push(115);
                r.push(95);
                r.push(118);
                r.push(49);
                r.push(58);
            },
        }
        proof {
            assert(r@ =~= self.spec_domain_tag());
        }
        r
    }

    /// Public-key length in bytes.
    pub fn pk_len(&self) -> (r: usize)
        ensures
            r == self.spec_pk_len(),
    {
        match self {
            Algorithm::Dilithium2 => 1312,
            Algorithm::Falcon512 => 897,
            Algorithm::SphincsPlusShake128f => 32,
        }
    }

    /// Secret-key length in bytes.
    pub fn sk_len(&self) -> (r: usize)
        ensures
            r == self.spec_sk_len(),
    {
        match self {
            Algorithm::Dilithium2 => 2560,
            Algorithm::Falcon512 => 1281,
            Algorithm::SphincsPlusShake128f => 64,
        }
    }

    /// Largest possible detached-signature length in bytes.
    pub fn sig_max_len(&self) -> (r: usize)
        ensures
            r == self.spec_sig_max_len(),
    {
        match self {
            Algorithm::Dilithium2 => 2420,
            Algorithm::Falcon512 => 752,
            Algorithm::SphincsPlusShake128f => 17088,
        }
    }

    /// The scheme's external identifier.
    pub fn name(&self) -> (r: String)
        ensures
            self == Algorithm::Dilithium2 ==> r@ == "dilithium2"@,
            self == Algorithm::Falcon512 ==> r@ == "falcon512"@,
            self == Algorithm::SphincsPlusShake128f ==> r@ == "sphincsplus_shake128f"@,
    {
        match self {
            Algorithm::Dilithium2 => "dilithium2".to_owned(),
            Algorithm::Falcon512 => "falcon512".to_owned(),
            Algorithm::SphincsPlusShake128f => "sphincsplus_shake128f".to_owned(),
        }
    }
}

/// All supported schemes, in their fixed external order.
pub fn list_supported_algorithms() -> (r: Vec<Algorithm>)
    ensures
        r@ == seq![
            Algorithm::Dilithium2,
            Algorithm::Falcon512,
            Algorithm::SphincsPlusShake128f,
        ],
{
    let mut r: Vec<Algorithm> = Vec::new();
    r.push(Algorithm::Dilithium2);
    r.push(Algorithm::Falcon512);
    r.push(Algorithm::SphincsPlusShake128f);
    proof {
        assert(r@ =~= seq![
            Algorithm::Dilithium2,
            Algorithm::Falcon512,
            Algorithm::SphincsPlusShake128f,
        ]);
    }
    r
}

/// The external identifiers of all supported schemes, in the same order as
/// `list_supported_algorithms`.
pub fn get_algorithm_info() -> (r: Vec<String>)
    ensures
        r@.len() == 3,
        r@[0]@ == "dilithium2"@,
        r@[1]@ == "falcon512"@,
        r@[2]@ == "sphincsplus_shake128f"@,
{
    let mut r: Vec<String> = Vec::new();
    r.push(Algorithm::Dilithium2.name());
    r.push(Algorithm::Falcon512.name());
    r.push(Algorithm::SphincsPlusShake128f.name());
    r
}

} // verus!
