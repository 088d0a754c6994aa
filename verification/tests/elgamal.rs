use apollo_crypto::codec::Base64Convertible;
use apollo_crypto::codec::DecodeError;
use apollo_crypto::elgamal::CryptoError;
use apollo_crypto::elgamal::ElGamal;
use apollo_crypto::group::GroupElement;
use apollo_crypto::group::GroupScalar;
use apollo_crypto::keys::KeyGenerator;
use apollo_crypto::keys::ScalarSampler;

use curve25519_dalek::constants::ED25519_BASEPOINT_POINT;
use curve25519_dalek::edwards::CompressedEdwardsY;
use curve25519_dalek::scalar::Scalar;

fn scalar_text(v: u64) -> String {
    base64::encode(Scalar::from(v).to_bytes())
}

fn fixed_sampler(v: u64) -> ScalarSampler {
    ScalarSampler::fixed_from_base64(&scalar_text(v)).unwrap()
}

fn plaintext_true_point() -> curve25519_dalek::edwards::EdwardsPoint {
    let mut bytes = [0u8; 32];
    bytes[0] = 1;
    CompressedEdwardsY(bytes).decompress().unwrap()
}

#[test]
fn round_trip_random_keys() {
    for _ in 0..40 {
        let kp = KeyGenerator::new().generate();
        let engine = ElGamal::from_key_pair(kp);
        for message in [false, true] {
            let ct = engine.encrypt(message);
            assert_eq!(engine.decrypt(&ct.c1, &ct.c2), Ok(message));
        }
    }
}

#[test]
fn round_trip_text_api() {
    for _ in 0..10 {
        let (pk, sk) = apollo_crypto::generate_key_pair();
        for message in [false, true] {
            let (c1, c2) = apollo_crypto::encrypt(&pk, message).unwrap();
            assert_eq!(apollo_crypto::decrypt(&sk, &c1, &c2), Ok(message));
        }
    }
}

#[test]
fn fresh_engine_round_trips() {
    let engine = ElGamal::new();
    for message in [false, true] {
        let ct = engine.encrypt(message);
        assert_eq!(engine.decrypt(&ct.c1, &ct.c2), Ok(message));
    }
}

#[test]
fn encryption_is_randomized() {
    let kp = KeyGenerator::new().generate();
    let engine = ElGamal::from_key_pair(kp);
    let mut seen: Vec<(String, String)> = Vec::new();
    for _ in 0..64 {
        let pair = engine.encrypt(true).to_base64_pair();
        assert!(!seen.contains(&pair));
        seen.push(pair);
    }
}

#[test]
fn cross_key_decryption_never_silently_correct() {
    for _ in 0..20 {
        let kp1 = KeyGenerator::new().generate();
        let kp2 = KeyGenerator::new().generate();
        assert_ne!(kp1.public_key(), kp2.public_key());
        let engine1 = ElGamal::from_key_pair(kp1);
        let engine2 = ElGamal::from_key_pair(kp2);
        for message in [false, true] {
            let ct = engine1.encrypt(message);
            let wrong = engine2.decrypt(&ct.c1, &ct.c2);
            assert_ne!(wrong, Ok(message));
            assert_eq!(wrong, Err(CryptoError::InvalidPlaintext));
        }
    }
}

#[test]
fn concrete_scenario_secret_seven_randomness_three() {
    // Key pair with secret x = 7, publicKey = g^7.
    let generator = KeyGenerator::with_sampler(fixed_sampler(7));
    let kp = generator.generate();
    let pk7 = ED25519_BASEPOINT_POINT * Scalar::from(7u64);
    assert_eq!(kp.public_key(), base64::encode(pk7.compress().to_bytes()));
    assert_eq!(kp.secret_key(), scalar_text(7));

    // Encrypting true with ephemeral randomness r = 3.
    let engine = ElGamal::from_key_pair(kp);
    let ct = engine.encrypt_with(&fixed_sampler(3), true);
    let (c1_text, c2_text) = ct.to_base64_pair();
    let expected_c1 = ED25519_BASEPOINT_POINT * Scalar::from(3u64);
    let expected_c2 = plaintext_true_point() + pk7 * Scalar::from(3u64);
    assert_eq!(c1_text, base64::encode(expected_c1.compress().to_bytes()));
    assert_eq!(c2_text, base64::encode(expected_c2.compress().to_bytes()));

    // Decrypting with x = 7 returns true.
    assert_eq!(engine.decrypt(&ct.c1, &ct.c2), Ok(true));
}

#[test]
fn fixed_sampler_key_generation_is_deterministic() {
    let generator = KeyGenerator::with_sampler(fixed_sampler(7));
    let kp1 = generator.generate();
    let kp2 = generator.generate();
    assert_eq!(kp1.public_key(), kp2.public_key());
    assert_eq!(kp1.secret_key(), kp2.secret_key());
    let other = KeyGenerator::with_sampler(fixed_sampler(7)).generate();
    assert_eq!(kp1.public_key(), other.public_key());
}

#[test]
fn fixed_sampler_one_gives_basepoint_key() {
    let kp = KeyGenerator::with_sampler(fixed_sampler(1)).generate();
    let expected = base64::encode(
        curve25519_dalek::constants::ED25519_BASEPOINT_COMPRESSED.to_bytes(),
    );
    assert_eq!(kp.public_key(), expected);
}

#[test]
fn decrypt_without_secret_key_fails() {
    let kp = KeyGenerator::new().generate();
    let pk = GroupElement::from_base64(&kp.public_key()).unwrap();
    let full = ElGamal::from_key_pair(kp);
    let ct = full.encrypt(true);
    let encrypt_only = ElGamal::from_public_key(pk);
    assert_eq!(encrypt_only.decrypt(&ct.c1, &ct.c2), Err(CryptoError::MissingKeyMaterial));
}

#[test]
fn unrelated_point_is_invalid_plaintext() {
    // c1 = g^3, c2 = g^5 under secret 7: the decrypted point is g^(5-21),
    // which is neither fixed plaintext element.
    let c1 = base64::encode((ED25519_BASEPOINT_POINT * Scalar::from(3u64)).compress().to_bytes());
    let c2 = base64::encode((ED25519_BASEPOINT_POINT * Scalar::from(5u64)).compress().to_bytes());
    assert_eq!(
        apollo_crypto::decrypt(&scalar_text(7), &c1, &c2),
        Err(CryptoError::InvalidPlaintext),
    );
}

#[test]
fn generated_plaintexts_are_the_tagged_buffers() {
    let engine = ElGamal::new();
    let (p_false, p_true) = engine.generate_plaintexts();
    assert_eq!(p_false.to_base64(), base64::encode([0u8; 32]));
    let mut one = [0u8; 32];
    one[0] = 1;
    assert_eq!(p_true.to_base64(), base64::encode(one));
}

#[test]
fn text_api_reports_decode_errors() {
    assert_eq!(
        apollo_crypto::encrypt("bad text", true),
        Err(DecodeError::InvalidBase64),
    );
    let (pk, sk) = apollo_crypto::generate_key_pair();
    let (c1, c2) = apollo_crypto::encrypt(&pk, false).unwrap();
    assert_eq!(
        apollo_crypto::decrypt("bad text", &c1, &c2),
        Err(CryptoError::Decode(DecodeError::InvalidBase64)),
    );
    let short = base64::encode([0u8; 4]);
    assert_eq!(
        apollo_crypto::decrypt(&sk, &short, &c2),
        Err(CryptoError::Decode(DecodeError::WrongLength)),
    );
    assert_eq!(
        apollo_crypto::decrypt(&sk, &c1, "####"),
        Err(CryptoError::Decode(DecodeError::InvalidBase64)),
    );
}

#[test]
fn ciphertext_pair_codec_round_trips() {
    let kp = KeyGenerator::with_sampler(fixed_sampler(9)).generate();
    let engine = ElGamal::from_key_pair(kp);
    let ct = engine.encrypt_with(&fixed_sampler(4), false);
    let (c1_text, c2_text) = ct.to_base64_pair();
    let decoded = apollo_crypto::elgamal::Ciphertext::from_base64_pair(&c1_text, &c2_text).unwrap();
    let (c1_again, c2_again) = decoded.to_base64_pair();
    assert_eq!(c1_text, c1_again);
    assert_eq!(c2_text, c2_again);
    assert_eq!(engine.decrypt(&decoded.c1, &decoded.c2), Ok(false));
}

#[test]
fn sampler_substitution_pins_the_ciphertext() {
    let kp = KeyGenerator::with_sampler(fixed_sampler(7)).generate();
    let engine = ElGamal::from_key_pair(kp);
    let first = engine.encrypt_with(&fixed_sampler(3), true).to_base64_pair();
    let second = engine.encrypt_with(&fixed_sampler(3), true).to_base64_pair();
    assert_eq!(first, second);
    let scalar = GroupScalar::from_base64(&scalar_text(3)).unwrap();
    let third = engine.encrypt_with(&ScalarSampler::fixed(scalar), true).to_base64_pair();
    assert_eq!(first, third);
}
