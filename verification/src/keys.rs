//! Key material: uniform scalar sampling, and key-pair generation from a
//! sampled secret exponent.
use vstd::prelude::*;

use crate::codec::Base64Convertible;
use crate::codec::DecodeError;
use crate::codec::b64_of;
use crate::codec::spec_decode_scalar;
use crate::group::GroupElement;
use crate::group::GroupScalar;
use crate::group::basepoint;
use crate::group::basepoint_bytes;
use crate::group::point_mul;
use crate::group::point_valid;
use crate::group::random_scalar;
use crate::group::scalar_valid;
use crate::group::spec_point_mul;

verus! {

/// Draws exponents uniformly from below the group order out of a
/// cryptographically secure source. The production sampler is not
/// deterministic and not seedable; a sampler holding a fixed scalar exists
/// so that key generation and encryption can be made reproducible.
pub struct ScalarSampler {
    fixed: Option<GroupScalar>,
}

impl ScalarSampler {
    /// The substituted scalar, if this is the reproducible variant.
    pub closed spec fn fixed_scalar(&self) -> Option<Seq<u8>> {
        match self.fixed {
            Option::Some(s) => Option::Some(s@),
            Option::None => Option::None,
        }
    }

    pub closed spec fn wf(&self) -> bool {
        self.fixed_scalar() matches Some(b) ==> scalar_valid(b)
    }

    /// The production sampler: fresh secure randomness on every draw.
    pub fn secure() -> (r: ScalarSampler)
        ensures
            r.wf(),
            r.fixed_scalar() is None,
    {
        ScalarSampler { fixed: None }
    }

    /// The reproducible variant: every draw returns the given scalar.
    pub fn fixed(s: GroupScalar) -> (r: ScalarSampler)
        requires
            s.wf(),
        ensures
            r.wf(),
            r.fixed_scalar() == Some(s@),
    {
        ScalarSampler { fixed: Some(s) }
    }

    /// The reproducible variant, built from serialized scalar text.
    pub fn fixed_from_base64(data: &str) -> (r: Result<ScalarSampler, DecodeError>)
        ensures
            (r matches Ok(sampler) ==> sampler.wf() && (spec_decode_scalar(data@) matches Ok(b)
                && sampler.fixed_scalar() == Some(b))),
            (r matches Err(e) ==> spec_decode_scalar(data@) == Result::<
                Seq<u8>,
                DecodeError,
            >::Err(e)),
    {
        match GroupScalar::from_base64(data) {
            Result::Ok(s) => Result::Ok(ScalarSampler::fixed(s)),
            Result::Err(e) => Result::Err(e),
        }
    }

    /// A scalar drawn uniformly from below the group order — or, under the
    /// reproducible variant, the substituted scalar.
    pub fn sample(&self) -> (r: GroupScalar)
        requires
            self.wf(),
        ensures
            r.wf(),
            self.fixed_scalar() matches Some(b) ==> r@ == b,
    {
        match &self.fixed {
            Option::Some(s) => s.duplicate(),
            Option::None => random_scalar(),
        }
    }
}

/// A public key and the secret exponent it was derived from: the public key
/// is always the fixed generator raised to the secret scalar.
pub struct KeyPair {
    pub(crate) pk: GroupElement,
    pub(crate) sk: GroupScalar,
}

impl KeyPair {
    pub closed spec fn pk_bytes(&self) -> Seq<u8> {
        self.pk@
    }

    pub closed spec fn sk_bytes(&self) -> Seq<u8> {
        self.sk@
    }

    pub open spec fn wf(&self) -> bool {
        &&& point_valid(self.pk_bytes())
        &&& scalar_valid(self.sk_bytes())
        &&& self.pk_bytes() == spec_point_mul(basepoint_bytes(), self.sk_bytes())
    }

    /// Derives the key pair of a secret exponent: the public key is the
    /// generator raised to it.
    pub fn from_secret(sk: GroupScalar) -> (r: KeyPair)
        requires
            sk.wf(),
        ensures
            r.wf(),
            r.sk_bytes() == sk@,
    {
        let g = basepoint();
        let pk = point_mul(&g, &sk);
        KeyPair { pk, sk }
    }

    /// The two halves of the pair, public key first.
    pub fn into_parts(self) -> (r: (GroupElement, GroupScalar))
        ensures
            r.0@ == self.pk_bytes(),
            r.1@ == self.sk_bytes(),
    {
        let KeyPair { pk, sk } = self;
        (pk, sk)
    }

    /// The public key in wire form.
    pub fn public_key(&self) -> (r: String)
        ensures
            r@ == b64_of(self.pk_bytes()),
    {
        self.pk.to_base64()
    }

    /// The secret key in wire form.
    pub fn secret_key(&self) -> (r: String)
        ensures
            r@ == b64_of(self.sk_bytes()),
    {
        self.sk.to_base64()
    }
}

/// Produces key pairs: a sampled secret exponent and the generator raised to
/// it.
pub struct KeyGenerator {
    sampler: ScalarSampler,
}

impl KeyGenerator {
    pub closed spec fn fixed_scalar(&self) -> Option<Seq<u8>> {
        self.sampler.fixed_scalar()
    }

    pub closed spec fn wf(&self) -> bool {
        self.sampler.wf()
    }

    /// A generator drawing fresh secure randomness for every key pair.
    pub fn new() -> (r: KeyGenerator)
        ensures
            r.wf(),
            r.fixed_scalar() is None,
    {
        KeyGenerator::with_sampler(ScalarSampler::secure())
    }

    /// A generator drawing from the given sampler; with a fixed sampler
    /// every generated key pair is the same, for reproducible fixtures.
    pub fn with_sampler(sampler: ScalarSampler) -> (r: KeyGenerator)
        requires
            sampler.wf(),
        ensures
            r.wf(),
            r.fixed_scalar() == sampler.fixed_scalar(),
    {
        KeyGenerator { sampler }
    }

    /// Samples a secret scalar and derives its key pair.
    pub fn generate(&self) -> (r: KeyPair)
        requires
            self.wf(),
        ensures
            r.wf(),
            self.fixed_scalar() matches Some(b) ==> r.sk_bytes() == b,
    {
        KeyPair::from_secret(self.sampler.sample())
    }
}

/// Key generation is a pure function of the sampled secret: two well-formed
/// key pairs over the same secret scalar carry the same public key. In
/// particular, a generator whose sampler is stubbed to a fixed scalar returns
/// the same public key on every invocation.
pub proof fn lemma_generate_deterministic(kp1: KeyPair, kp2: KeyPair)
    requires
        kp1.wf(),
        kp2.wf(),
        kp1.sk_bytes() == kp2.sk_bytes(),
    ensures
        kp1.pk_bytes() == kp2.pk_bytes(),
{
}

} // verus!
