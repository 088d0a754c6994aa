//! An ElGamal public-key encryption scheme over the prime-order subgroup of
//! Curve25519, restricted to single-bit plaintexts, with a canonical base64
//! wire encoding for keys and ciphertexts.
use vstd::prelude::*;

pub mod codec;
pub mod elgamal;
pub mod group;
pub mod keys;

use crate::codec::Base64Convertible;
use crate::codec::DecodeError;
use crate::codec::b64_of;
use crate::codec::spec_decode_element;
use crate::codec::spec_decode_scalar;
use crate::elgamal::CryptoError;
use crate::elgamal::ElGamal;
use crate::elgamal::is_encryption_of;
use crate::elgamal::spec_decrypt_point;
use crate::group::GroupElement;
use crate::group::GroupScalar;
use crate::group::basepoint_bytes;
use crate::group::plaintext_bytes;
use crate::group::scalar_valid;
use crate::group::spec_point_mul;
use crate::keys::KeyGenerator;
use crate::keys::KeyPair;

verus! {

/// Generates a fresh key pair from the secure source and returns it in wire
/// form, public key first: the secret scalar base64-encoded, and the fixed
/// generator raised to it, compressed and base64-encoded.
pub fn generate_key_pair() -> (r: (String, String))
    ensures
        exists|sk: Seq<u8>|
            {
                &&& scalar_valid(sk)
                &&& r.1@ == #[trigger] b64_of(sk)
                &&& r.0@ == b64_of(spec_point_mul(basepoint_bytes(), sk))
            },
{
    let kg = KeyGenerator::new();
    let kp = kg.generate();
    let pk_text = kp.public_key();
    let sk_text = kp.secret_key();
    (pk_text, sk_text)
}

/// Encrypts one bit under a public key given in wire form. Succeeds exactly
/// when the public-key text decodes, and then returns the two ciphertext
/// components in wire form, each an encryption component of the bit under
/// the decoded key.
pub fn encrypt(public_key: &str, message: bool) -> (r: Result<(String, String), DecodeError>)
    ensures
        (r is Ok <==> spec_decode_element(public_key@) is Ok),
        (r matches Err(e) ==> spec_decode_element(public_key@) == Result::<
            Seq<u8>,
            DecodeError,
        >::Err(e)),
        (r matches Ok(ct) ==> (spec_decode_element(public_key@) matches Ok(h) && exists|
            c1: Seq<u8>,
            c2: Seq<u8>,
        |
            {
                &&& is_encryption_of(h, message, c1, c2)
                &&& ct.0@ == #[trigger] b64_of(c1)
                &&& ct.1@ == #[trigger] b64_of(c2)
            })),
{
    let pk = match GroupElement::from_base64(public_key) {
        Result::Ok(pk) => pk,
        Result::Err(e) => {
            return Result::Err(e);
        },
    };
    let engine = ElGamal::from_public_key(pk);
    let ct = engine.encrypt(message);
    let texts = ct.to_base64_pair();
    Result::Ok(texts)
}

/// Decrypts a ciphertext given in wire form with a secret key given in wire
/// form. A text that does not decode gives its exact decode error, the
/// secret key checked first, then the first component, then the second;
/// otherwise the decrypted point decides the bit, and a point that is
/// neither fixed plaintext element is `InvalidPlaintext`. Whatever
/// encryption of a bit under the decoded secret produced the ciphertext,
/// that bit comes back.
pub fn decrypt(secret_key: &str, c1: &str, c2: &str) -> (r: Result<bool, CryptoError>)
    ensures
        (spec_decode_scalar(secret_key@) matches Err(e) ==> r == Result::<bool, CryptoError>::Err(
            CryptoError::Decode(e),
        )),
        (spec_decode_scalar(secret_key@) is Ok ==> (spec_decode_element(c1@) matches Err(e) ==> r
            == Result::<bool, CryptoError>::Err(CryptoError::Decode(e)))),
        (spec_decode_scalar(secret_key@) is Ok && spec_decode_element(c1@) is Ok ==> (
        spec_decode_element(c2@) matches Err(e) ==> r == Result::<bool, CryptoError>::Err(
            CryptoError::Decode(e),
        ))),
        (spec_decode_scalar(secret_key@) matches Ok(x) ==> (spec_decode_element(c1@) matches Ok(b1)
            ==> (spec_decode_element(c2@) matches Ok(b2) ==> {
            let m = spec_decrypt_point(x, b1, b2);
            &&& (r == Result::<bool, CryptoError>::Ok(true) <==> m == plaintext_bytes(true))
            &&& (r == Result::<bool, CryptoError>::Ok(false) <==> m == plaintext_bytes(false))
            &&& (r == Result::<bool, CryptoError>::Err(CryptoError::InvalidPlaintext) <==> (m
                != plaintext_bytes(true) && m != plaintext_bytes(false)))
        }))),
        forall|b: bool|
            (spec_decode_scalar(secret_key@) matches Ok(x) && (spec_decode_element(
                c1@,
            ) matches Ok(b1) && (spec_decode_element(c2@) matches Ok(b2) && is_encryption_of(
                spec_point_mul(basepoint_bytes(), x),
                b,
                b1,
                b2,
            )))) ==> r == Result::<bool, CryptoError>::Ok(b),
{
    let sk = match GroupScalar::from_base64(secret_key) {
        Result::Ok(s) => s,
        Result::Err(e) => {
            return Result::Err(CryptoError::Decode(e));
        },
    };
    let e1 = match GroupElement::from_base64(c1) {
        Result::Ok(p) => p,
        Result::Err(e) => {
            return Result::Err(CryptoError::Decode(e));
        },
    };
    let e2 = match GroupElement::from_base64(c2) {
        Result::Ok(p) => p,
        Result::Err(e) => {
            return Result::Err(CryptoError::Decode(e));
        },
    };
    let kp = KeyPair::from_secret(sk);
    let engine = ElGamal::from_key_pair(kp);
    engine.decrypt(&e1, &e2)
}

} // verus!
