use apollo_crypto::codec::Base64Convertible;
use apollo_crypto::codec::DecodeError;
use apollo_crypto::group::GroupElement;
use apollo_crypto::group::GroupScalar;

fn basepoint_text() -> String {
    base64::encode(curve25519_dalek::constants::ED25519_BASEPOINT_COMPRESSED.to_bytes())
}

#[test]
fn element_round_trip_on_valid_text() {
    let text = basepoint_text();
    let e = GroupElement::from_base64(&text).unwrap();
    assert_eq!(e.to_base64(), text);
}

#[test]
fn element_round_trip_on_random_points() {
    for i in 1u64..30 {
        let p = curve25519_dalek::constants::ED25519_BASEPOINT_POINT
            * curve25519_dalek::scalar::Scalar::from(i * 7 + 1);
        let text = base64::encode(p.compress().to_bytes());
        let e = GroupElement::from_base64(&text).unwrap();
        assert_eq!(e.to_base64(), text);
    }
}

#[test]
fn element_rejects_bad_base64() {
    assert!(matches!(GroupElement::from_base64("!!!not base64!!!"), Err(DecodeError::InvalidBase64)));
}

#[test]
fn element_rejects_wrong_length() {
    let short = base64::encode([0u8; 16]);
    assert!(matches!(GroupElement::from_base64(&short), Err(DecodeError::WrongLength)));
    let long = base64::encode([0u8; 33]);
    assert!(matches!(GroupElement::from_base64(&long), Err(DecodeError::WrongLength)));
}

#[test]
fn element_rejects_off_curve_bytes() {
    let mut found = false;
    for tag in 2u8..=50 {
        let mut bytes = [0u8; 32];
        bytes[0] = tag;
        let text = base64::encode(bytes);
        match GroupElement::from_base64(&text) {
            Err(e) => {
                assert_eq!(e, DecodeError::NotOnCurve);
                found = true;
                break;
            },
            Ok(_) => {},
        }
    }
    assert!(found);
}

#[test]
fn element_decode_normalizes_noncanonical_encoding() {
    // The field prime p, little-endian: the same y-coordinate as 0, encoded
    // above p. Decoding accepts it; re-encoding gives the canonical bytes.
    let mut above_p = [0xffu8; 32];
    above_p[0] = 0xed;
    above_p[31] = 0x7f;
    let noncanonical = base64::encode(above_p);
    let canonical = base64::encode([0u8; 32]);
    let e = GroupElement::from_base64(&noncanonical).unwrap();
    assert_ne!(noncanonical, canonical);
    assert_eq!(e.to_base64(), canonical);
}

#[test]
fn scalar_round_trip_on_valid_text() {
    let mut seven = [0u8; 32];
    seven[0] = 7;
    let text = base64::encode(seven);
    let s = GroupScalar::from_base64(&text).unwrap();
    assert_eq!(s.to_base64(), text);
}

#[test]
fn scalar_rejects_bad_base64() {
    assert!(matches!(GroupScalar::from_base64("@@@@"), Err(DecodeError::InvalidBase64)));
}

#[test]
fn scalar_rejects_wrong_length() {
    let short = base64::encode([1u8; 8]);
    assert!(matches!(GroupScalar::from_base64(&short), Err(DecodeError::WrongLength)));
}

#[test]
fn scalar_rejects_noncanonical_bytes() {
    // 2^255 - 1 is far above the group order.
    let mut huge = [0xffu8; 32];
    huge[31] = 0x7f;
    let text = base64::encode(huge);
    assert!(matches!(GroupScalar::from_base64(&text), Err(DecodeError::NotCanonicalScalar)));
    // The high bit set is never canonical either.
    let text2 = base64::encode([0x80u8; 32]);
    assert!(matches!(GroupScalar::from_base64(&text2), Err(DecodeError::NotCanonicalScalar)));
}

#[test]
fn element_equality_follows_bytes() {
    let text = basepoint_text();
    let a = GroupElement::from_base64(&text).unwrap();
    let b = GroupElement::from_base64(&text).unwrap();
    assert!(a.eq_element(&b));
    let c = a.duplicate();
    assert!(a.eq_element(&c));
    let mut one = [0u8; 32];
    one[0] = 1;
    let identity = GroupElement::from_base64(&base64::encode(one)).unwrap();
    assert!(!a.eq_element(&identity));
}
