//! The encryption engine: randomized ElGamal encryption of a single bit and
//! its decryption, over the fixed generator.
use vstd::prelude::*;

use crate::codec::Base64Convertible;
use crate::codec::DecodeError;
use crate::codec::b64_of;
use crate::codec::spec_decode_element;
use crate::group::GroupElement;
use crate::group::GroupScalar;
use crate::group::basepoint;
use crate::group::basepoint_bytes;
use crate::group::plaintext_bytes;
use crate::group::plaintext_point;
use crate::group::point_add;
use crate::group::point_mul;
use crate::group::point_neg;
use crate::group::point_valid;
use crate::group::random_scalar;
use crate::group::scalar_valid;
use crate::group::spec_point_add;
use crate::group::spec_point_mul;
use crate::group::spec_point_neg;
use crate::keys::KeyPair;
use crate::keys::ScalarSampler;

verus! {

/// Why an operation of the engine fails: the wire text was rejected, a
/// decrypted point is neither fixed plaintext element, or decryption was
/// asked of an engine that holds no secret key.
#[derive(Clone, Copy, Debug, PartialEq, Eq, Structural)]
pub enum CryptoError {
    Decode(DecodeError),
    InvalidPlaintext,
    MissingKeyMaterial,
}

/// An ephemeral ciphertext: the pair of group elements produced fresh by one
/// encryption.
pub struct Ciphertext {
    pub c1: GroupElement,
    pub c2: GroupElement,
}

impl Ciphertext {
    pub open spec fn wf(&self) -> bool {
        self.c1.wf() && self.c2.wf()
    }

    /// The wire form: the two components independently base64-encoded.
    pub fn to_base64_pair(&self) -> (r: (String, String))
        ensures
            r.0@ == b64_of(self.c1@),
            r.1@ == b64_of(self.c2@),
    {
        (self.c1.to_base64(), self.c2.to_base64())
    }

    /// Decodes a ciphertext from its two wire components; the first
    /// component's error is reported when both are bad.
    pub fn from_base64_pair(c1: &str, c2: &str) -> (r: Result<Ciphertext, DecodeError>)
        ensures
            (r matches Ok(ct) ==> ct.wf() && (spec_decode_element(c1@) matches Ok(b1)
                && ct.c1@ == b1) && (spec_decode_element(c2@) matches Ok(b2) && ct.c2@ == b2)),
            (r matches Err(e) ==> spec_decode_element(c1@) == Result::<Seq<u8>, DecodeError>::Err(e)
                || (spec_decode_element(c1@) is Ok && spec_decode_element(c2@) == Result::<
                Seq<u8>,
                DecodeError,
            >::Err(e))),
    {
        let e1 = match GroupElement::from_base64(c1) {
            Result::Ok(e) => e,
            Result::Err(e) => {
                return Result::Err(e);
            },
        };
        let e2 = match GroupElement::from_base64(c2) {
            Result::Ok(e) => e,
            Result::Err(e) => {
                return Result::Err(e);
            },
        };
        Result::Ok(Ciphertext { c1: e1, c2: e2 })
    }
}

/// The ciphertexts that encrypting `message` under public key `h` can
/// produce: for some canonical ephemeral scalar, the first component is the
/// generator raised to it and the second is the plaintext element plus the
/// public key raised to it.
pub open spec fn is_encryption_of(h: Seq<u8>, message: bool, c1: Seq<u8>, c2: Seq<u8>) -> bool {
    exists|r: Seq<u8>|
        {
            &&& scalar_valid(r)
            &&& c1 == #[trigger] spec_point_mul(basepoint_bytes(), r)
            &&& c2 == spec_point_add(plaintext_bytes(message), spec_point_mul(h, r))
        }
}

/// The point a ciphertext decrypts to under secret scalar `x`: the second
/// component plus the negation of the first raised to `x`.
pub open spec fn spec_decrypt_point(x: Seq<u8>, c1: Seq<u8>, c2: Seq<u8>) -> Seq<u8> {
    spec_point_add(c2, spec_point_neg(spec_point_mul(c1, x)))
}

/// The encryption engine. Constructed either over a public key alone
/// (encrypt-capable) or over a full key pair (encrypt- and decrypt-capable);
/// the key material is fixed at construction and never mutated.
pub struct ElGamal {
    g: GroupElement,
    h: GroupElement,
    x: Option<GroupScalar>,
}

impl ElGamal {
    /// The engine's public key, as canonical bytes.
    pub closed spec fn public_key_bytes(&self) -> Seq<u8> {
        self.h@
    }

    /// The engine's secret scalar, if it holds one.
    pub closed spec fn secret(&self) -> Option<Seq<u8>> {
        match self.x {
            Option::Some(s) => Option::Some(s@),
            Option::None => Option::None,
        }
    }

    pub closed spec fn wf(&self) -> bool {
        &&& self.g@ == basepoint_bytes()
        &&& self.g.wf()
        &&& self.h.wf()
        &&& (self.secret() matches Some(xb) ==> scalar_valid(xb) && self.h@ == spec_point_mul(
            basepoint_bytes(),
            xb,
        ))
    }

    /// A fresh engine over a newly generated key pair: a secret scalar drawn
    /// from the secure source, the fixed generator, and the generator raised
    /// to the secret as public key.
    pub fn new() -> (r: ElGamal)
        ensures
            r.wf(),
            r.secret() is Some,
            (r.secret() matches Some(xb) ==> r.public_key_bytes() == spec_point_mul(
                basepoint_bytes(),
                xb,
            )),
    {
        let x = random_scalar();
        let g = basepoint();
        let h = point_mul(&g, &x);
        ElGamal { g, h, x: Some(x) }
    }

    /// An encrypt-only engine over a public key.
    pub fn from_public_key(pk: GroupElement) -> (r: ElGamal)
        requires
            pk.wf(),
        ensures
            r.wf(),
            r.public_key_bytes() == pk@,
            r.secret() is None,
    {
        let g = basepoint();
        ElGamal { g, h: pk, x: None }
    }

    /// An encrypt- and decrypt-capable engine over a full key pair.
    pub fn from_key_pair(kp: KeyPair) -> (r: ElGamal)
        requires
            kp.wf(),
        ensures
            r.wf(),
            r.public_key_bytes() == kp.pk_bytes(),
            r.secret() == Some(kp.sk_bytes()),
    {
        let g = basepoint();
        let (pk, sk) = kp.into_parts();
        ElGamal { g, h: pk, x: Some(sk) }
    }

    /// The two fixed plaintext group elements, false first: the only valid
    /// decrypted outputs.
    pub fn generate_plaintexts(&self) -> (r: (GroupElement, GroupElement))
        ensures
            r.0@ == plaintext_bytes(false) && r.0.wf(),
            r.1@ == plaintext_bytes(true) && r.1.wf(),
    {
        (plaintext_point(false), plaintext_point(true))
    }

    /// Randomized encryption of one bit under the engine's public key, with
    /// the ephemeral scalar drawn from the given sampler. Under a fixed
    /// sampler the ciphertext is pinned exactly.
    pub fn encrypt_with(&self, sampler: &ScalarSampler, message: bool) -> (r: Ciphertext)
        requires
            self.wf(),
            sampler.wf(),
        ensures
            r.wf(),
            is_encryption_of(self.public_key_bytes(), message, r.c1@, r.c2@),
            (sampler.fixed_scalar() matches Some(k) ==> r.c1@ == spec_point_mul(
                basepoint_bytes(),
                k,
            ) && r.c2@ == spec_point_add(
                plaintext_bytes(message),
                spec_point_mul(self.public_key_bytes(), k),
            )),
    {
        let rs = sampler.sample();
        let m = plaintext_point(message);
        let c1 = point_mul(&self.g, &rs);
        let s = point_mul(&self.h, &rs);
        let c2 = point_add(&m, &s);
        proof {
            assert(c1@ == spec_point_mul(basepoint_bytes(), rs@));
            assert(c2@ == spec_point_add(plaintext_bytes(message), spec_point_mul(self.h@, rs@)));
            assert(is_encryption_of(self.public_key_bytes(), message, c1@, c2@));
        }
        Ciphertext { c1, c2 }
    }

    /// Randomized encryption of one bit under the engine's public key, with
    /// a fresh ephemeral scalar from the secure source; repeated encryptions
    /// of the same bit differ with overwhelming probability.
    pub fn encrypt(&self, message: bool) -> (r: Ciphertext)
        requires
            self.wf(),
        ensures
            r.wf(),
            is_encryption_of(self.public_key_bytes(), message, r.c1@, r.c2@),
    {
        let sampler = ScalarSampler::secure();
        self.encrypt_with(&sampler, message)
    }

    /// Decryption of a ciphertext. Exactly when the engine holds no secret
    /// key the result is `MissingKeyMaterial`; otherwise the decrypted point
    /// decides: the fixed true element gives `true`, the fixed false element
    /// gives `false`, and any other point is `InvalidPlaintext`, never a
    /// default boolean. The last clause is the round-trip law: whatever
    /// encryption of a bit under this engine's secret produced the
    /// ciphertext, that bit comes back.
    pub fn decrypt(&self, c1: &GroupElement, c2: &GroupElement) -> (r: Result<bool, CryptoError>)
        requires
            self.wf(),
            c1.wf(),
            c2.wf(),
        ensures
            (r == Result::<bool, CryptoError>::Err(CryptoError::MissingKeyMaterial) <==> self.secret() is None),
            (self.secret() matches Some(x) ==> {
                let m = spec_decrypt_point(x, c1@, c2@);
                &&& (r == Result::<bool, CryptoError>::Ok(true) <==> m == plaintext_bytes(true))
                &&& (r == Result::<bool, CryptoError>::Ok(false) <==> m == plaintext_bytes(false))
                &&& (r == Result::<bool, CryptoError>::Err(CryptoError::InvalidPlaintext) <==> (m
                    != plaintext_bytes(true) && m != plaintext_bytes(false)))
            }),
            forall|b: bool|
                (self.secret() matches Some(x) && is_encryption_of(
                    spec_point_mul(basepoint_bytes(), x),
                    b,
                    c1@,
                    c2@,
                )) ==> r == Result::<bool, CryptoError>::Ok(b),
    {
        let x = match &self.x {
            Option::None => {
                return Result::Err(CryptoError::MissingKeyMaterial);
            },
            Option::Some(x) => x,
        };
        let s = point_mul(c1, x);
        let neg_s = point_neg(&s);
        let m = point_add(c2, &neg_s);
        let pt_true = plaintext_point(true);
        let pt_false = plaintext_point(false);
        let r: Result<bool, CryptoError> = if m.eq_element(&pt_true) {
            Result::Ok(true)
        } else if m.eq_element(&pt_false) {
            Result::Ok(false)
        } else {
            Result::Err(CryptoError::InvalidPlaintext)
        };
        proof {
            assert(plaintext_bytes(true)[0] == 1u8);
            assert(plaintext_bytes(false)[0] == 0u8);
            let xb = self.secret()->Some_0;
            assert forall|b: bool|
                is_encryption_of(
                    spec_point_mul(basepoint_bytes(), xb),
                    b,
                    c1@,
                    c2@,
                ) implies r == Result::<bool, CryptoError>::Ok(b) by {
                let hb = spec_point_mul(basepoint_bytes(), xb);
                let rb = choose|rb: Seq<u8>|
                    {
                        &&& scalar_valid(rb)
                        &&& c1@ == #[trigger] spec_point_mul(basepoint_bytes(), rb)
                        &&& c2@ == spec_point_add(plaintext_bytes(b), spec_point_mul(hb, rb))
                    };
                assert(c1@ == spec_point_mul(basepoint_bytes(), rb));
                assert(s@ == spec_point_mul(spec_point_mul(basepoint_bytes(), xb), rb));
                assert(s@ == spec_point_mul(hb, rb));
                assert(point_valid(plaintext_bytes(b)));
                assert(c2@ == spec_point_add(plaintext_bytes(b), s@));
                assert(m@ == plaintext_bytes(b));
            }
        }
        r
    }
}

} // verus!
