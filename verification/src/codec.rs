//! The canonical text serialization of group elements and scalars: the
//! fixed-size byte encoding of the value, then base64 (standard alphabet,
//! padded).
use vstd::prelude::*;

use crate::group::GroupElement;
use crate::group::GroupScalar;
use crate::group::decompress_element;
use crate::group::ed_decompress;
use crate::group::point_valid;
use crate::group::scalar_canonical;
use crate::group::scalar_from_vec;
use crate::group::scalar_valid;

verus! {

/// Names the result of `base64::encode` (standard alphabet, padded).
pub uninterp spec fn b64_of(b: Seq<u8>) -> Seq<char>;

/// Names the result of `base64::decode` (standard alphabet): `Some` of the
/// decoded bytes when the text is acceptable base64, else `None`.
pub uninterp spec fn b64_decoded(s: Seq<char>) -> Option<Seq<u8>>;

/// Why a piece of wire text is rejected: the text is not base64, the decoded
/// byte string has the wrong length, or the bytes name no valid value — no
/// curve point for an element, an integer at or above the group order for a
/// scalar.
#[derive(Clone, Copy, Debug, PartialEq, Eq, Structural)]
pub enum DecodeError {
    InvalidBase64,
    WrongLength,
    NotOnCurve,
    NotCanonicalScalar,
}

/// What decoding group-element text yields: the canonical encoding of the
/// decoded point, or the exact error.
pub open spec fn spec_decode_element(s: Seq<char>) -> Result<Seq<u8>, DecodeError> {
    match b64_decoded(s) {
        Option::None => Result::Err(DecodeError::InvalidBase64),
        Option::Some(b) => if b.len() != 32 {
            Result::Err(DecodeError::WrongLength)
        } else {
            match ed_decompress(b) {
                Option::None => Result::Err(DecodeError::NotOnCurve),
                Option::Some(p) => Result::Ok(p),
            }
        },
    }
}

/// What decoding scalar text yields: the canonical little-endian bytes, or
/// the exact error.
pub open spec fn spec_decode_scalar(s: Seq<char>) -> Result<Seq<u8>, DecodeError> {
    match b64_decoded(s) {
        Option::None => Result::Err(DecodeError::InvalidBase64),
        Option::Some(b) => if b.len() != 32 {
            Result::Err(DecodeError::WrongLength)
        } else if !scalar_canonical(b) {
            Result::Err(DecodeError::NotCanonicalScalar)
        } else {
            Result::Ok(b)
        },
    }
}

/// Relies on `base64::encode` of the base64 crate: deterministic standard
/// padded encoding, and `base64::decode` inverts it.
#[verifier::external_body]
pub(crate) fn b64_encode(b: &Vec<u8>) -> (r: String)
    ensures
        r@ == b64_of(b@),
        b64_decoded(r@) == Some(b@),
{
    base64::encode(b)
}

/// Relies on `base64::decode` of the base64 crate: it accepts every string
/// `base64::encode` produces and then returns the encoded bytes.
#[verifier::external_body]
pub(crate) fn b64_decode(s: &str) -> (r: Option<Vec<u8>>)
    ensures
        (r is Some <==> b64_decoded(s@) is Some),
        (r matches Some(v) ==> b64_decoded(s@) == Some(v@)),
        forall|b: Seq<u8>| s@ == #[trigger] b64_of(b) ==> r is Some && r->0@ == b,
{
    base64::decode(s).ok()
}

/// The one codec abstraction for every serialized value type: canonical text
/// out, and decoding that is exact about what it accepts. Encoding a
/// well-formed value and decoding the text gives the value back.
pub trait Base64Convertible: Sized + View<V = Seq<u8>> {
    /// What decoding yields on any text, pinned per implementing type.
    spec fn spec_from_base64(data: Seq<char>) -> Result<Seq<u8>, DecodeError>;

    /// The well-formed representations: exactly those that decoding can
    /// return.
    spec fn repr_wf(&self) -> bool;

    /// The canonical byte strings of the type: those whose encoded text
    /// decoding accepts and returns unchanged.
    spec fn bytes_wf(b: Seq<u8>) -> bool;

    fn to_base64(&self) -> (r: String)
        ensures
            r@ == b64_of(self@),
            self.repr_wf() ==> Self::spec_from_base64(r@) == Result::<Seq<u8>, DecodeError>::Ok(
                self@,
            ),
    ;

    fn from_base64(data: &str) -> (r: Result<Self, DecodeError>)
        ensures
            (r matches Ok(v) ==> Self::spec_from_base64(data@) == Result::<
                Seq<u8>,
                DecodeError,
            >::Ok(v@) && v.repr_wf()),
            (r matches Err(e) ==> Self::spec_from_base64(data@) == Result::<
                Seq<u8>,
                DecodeError,
            >::Err(e)),
            forall|b: Seq<u8>|
                Self::bytes_wf(b) && data@ == #[trigger] b64_of(b) ==> r is Ok && r->Ok_0@ == b,
    ;
}

impl Base64Convertible for GroupElement {
    open spec fn spec_from_base64(data: Seq<char>) -> Result<Seq<u8>, DecodeError> {
        spec_decode_element(data)
    }

    open spec fn repr_wf(&self) -> bool {
        self.wf()
    }

    open spec fn bytes_wf(b: Seq<u8>) -> bool {
        point_valid(b)
    }

    fn to_base64(&self) -> (r: String) {
        let r = b64_encode(self.as_bytes());
        r
    }

    fn from_base64(data: &str) -> (r: Result<GroupElement, DecodeError>) {
        match b64_decode(data) {
            Option::None => Result::Err(DecodeError::InvalidBase64),
            Option::Some(v) => if v.len() != 32 {
                Result::Err(DecodeError::WrongLength)
            } else {
                match decompress_element(&v) {
                    Option::None => Result::Err(DecodeError::NotOnCurve),
                    Option::Some(e) => Result::Ok(e),
                }
            },
        }
    }
}

impl Base64Convertible for GroupScalar {
    open spec fn spec_from_base64(data: Seq<char>) -> Result<Seq<u8>, DecodeError> {
        spec_decode_scalar(data)
    }

    open spec fn repr_wf(&self) -> bool {
        self.wf()
    }

    open spec fn bytes_wf(b: Seq<u8>) -> bool {
        scalar_valid(b)
    }

    fn to_base64(&self) -> (r: String) {
        let r = b64_encode(self.as_bytes());
        r
    }

    fn from_base64(data: &str) -> (r: Result<GroupScalar, DecodeError>) {
        match b64_decode(data) {
            Option::None => Result::Err(DecodeError::InvalidBase64),
            Option::Some(v) => if v.len() != 32 {
                Result::Err(DecodeError::WrongLength)
            } else if !crate::group::scalar_is_canonical(&v) {
                Result::Err(DecodeError::NotCanonicalScalar)
            } else {
                Result::Ok(scalar_from_vec(v))
            },
        }
    }
}

} // verus!
