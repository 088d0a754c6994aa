//! The elliptic-curve group model: group elements and scalars as their
//! canonical 32-byte encodings, with trusted wrappers around the curve
//! arithmetic of curve25519-dalek.
use vstd::prelude::*;

verus! {

/// Names the result of `CompressedEdwardsY::decompress` followed by
/// `EdwardsPoint::compress`: `Some` of the canonical encoding of the decoded
/// point when the 32 bytes are a valid y-coordinate encoding, else `None`.
pub uninterp spec fn ed_decompress(b: Seq<u8>) -> Option<Seq<u8>>;

/// Names the canonical encoding of the product of the point encoded by `p`
/// and the scalar encoded by `k` (curve25519-dalek's `EdwardsPoint * Scalar`).
pub uninterp spec fn spec_point_mul(p: Seq<u8>, k: Seq<u8>) -> Seq<u8>;

/// Names the canonical encoding of the sum of the points encoded by `a` and
/// `b` (curve25519-dalek's `EdwardsPoint + EdwardsPoint`).
pub uninterp spec fn spec_point_add(a: Seq<u8>, b: Seq<u8>) -> Seq<u8>;

/// Names the canonical encoding of the negation of the point encoded by `a`
/// (curve25519-dalek's `-EdwardsPoint`).
pub uninterp spec fn spec_point_neg(a: Seq<u8>) -> Seq<u8>;

/// Names the result of `Scalar::from_canonical_bytes(b).is_some()`: whether
/// the 32 little-endian bytes hold an integer below the group order.
pub uninterp spec fn scalar_canonical(b: Seq<u8>) -> bool;

/// A byte string is a valid group element exactly when it is the canonical
/// compressed encoding of a curve point: decompressing and recompressing it
/// gives the same bytes back.
pub open spec fn point_valid(b: Seq<u8>) -> bool {
    b.len() == 32 && ed_decompress(b) == Some(b)
}

/// A byte string is a valid scalar exactly when it is the canonical
/// little-endian encoding of an integer below the group order.
pub open spec fn scalar_valid(b: Seq<u8>) -> bool {
    b.len() == 32 && scalar_canonical(b)
}

/// The canonical compressed encoding of the fixed Ed25519 basepoint.
pub open spec fn basepoint_bytes() -> Seq<u8> {
    Seq::new(32, |i: int| if i == 0 { 0x58u8 } else { 0x66u8 })
}

/// The fixed plaintext group element standing for a boolean: a one-byte tag
/// (1 for true, 0 for false) in an otherwise zero-filled 32-byte buffer.
pub open spec fn plaintext_bytes(message: bool) -> Seq<u8> {
    Seq::new(32, |i: int| if message && i == 0 { 1u8 } else { 0u8 })
}

/// A point on the curve, held as its canonical compressed encoding.
pub struct GroupElement {
    bytes: Vec<u8>,
}

/// An integer modulo the group order, held as its canonical little-endian
/// encoding.
pub struct GroupScalar {
    bytes: Vec<u8>,
}

impl View for GroupElement {
    type V = Seq<u8>;

    closed spec fn view(&self) -> Seq<u8> {
        self.bytes@
    }
}

impl View for GroupScalar {
    type V = Seq<u8>;

    closed spec fn view(&self) -> Seq<u8> {
        self.bytes@
    }
}

impl GroupElement {
    pub open spec fn wf(&self) -> bool {
        point_valid(self@)
    }

    /// An exact byte-for-byte comparison; valid elements are equal exactly
    /// when they are the same point, the encoding being canonical.
    pub fn eq_element(&self, other: &GroupElement) -> (r: bool)
        ensures
            r <==> self@ == other@,
    {
        bytes_eq(&self.bytes, &other.bytes)
    }

    pub fn duplicate(&self) -> (r: GroupElement)
        ensures
            r@ == self@,
    {
        GroupElement { bytes: copy_bytes(&self.bytes) }
    }

    pub(crate) fn as_bytes(&self) -> (r: &Vec<u8>)
        ensures
            r@ == self@,
    {
        &self.bytes
    }
}

impl GroupScalar {
    pub open spec fn wf(&self) -> bool {
        scalar_valid(self@)
    }

    pub fn duplicate(&self) -> (r: GroupScalar)
        ensures
            r@ == self@,
    {
        GroupScalar { bytes: copy_bytes(&self.bytes) }
    }

    pub(crate) fn as_bytes(&self) -> (r: &Vec<u8>)
        ensures
            r@ == self@,
    {
        &self.bytes
    }
}

/// Builds a scalar out of bytes already known to be canonical.
pub(crate) fn scalar_from_vec(b: Vec<u8>) -> (r: GroupScalar)
    requires
        scalar_valid(b@),
    ensures
        r@ == b@,
        r.wf(),
{
    GroupScalar { bytes: b }
}

pub(crate) fn copy_bytes(v: &Vec<u8>) -> (r: Vec<u8>)
    ensures
        r@ == v@,
{
    let mut r: Vec<u8> = Vec::new();
    let mut i: usize = 0;
    while i < v.len()
        invariant
            i <= v@.len(),
            r@ == v@.subrange(0, i as int),
        decreases v@.len() - i,
    {
        r.push(v[i]);
        i = i + 1;
        proof {
            assert(r@ =~= v@.subrange(0, i as int));
        }
    }
    proof {
        assert(r@ =~= v@);
    }
    r
}

pub(crate) fn bytes_eq(a: &Vec<u8>, b: &Vec<u8>) -> (r: bool)
    ensures
        r <==> a@ == b@,
{
    if a.len() != b.len() {
        return false;
    }
    let mut i: usize = 0;
    while i < a.len()
        invariant
            a@.len() == b@.len(),
            i <= a@.len(),
            forall|k: int| 0 <= k < i ==> a@[k] == b@[k],
        decreases a@.len() - i,
    {
        if a[i] != b[i] {
            return false;
        }
        i = i + 1;
    }
    proof {
        assert(a@ =~= b@);
    }
    true
}

/// Relies on curve25519-dalek's `ED25519_BASEPOINT_COMPRESSED`: the canonical
/// encoding of the fixed generator, the byte 0x58 followed by 31 bytes 0x66.
#[verifier::external_body]
pub(crate) fn basepoint() -> (r: GroupElement)
    ensures
        r@ == basepoint_bytes(),
        r.wf(),
{
    let bytes = curve25519_dalek::constants::ED25519_BASEPOINT_COMPRESSED.to_bytes().to_vec();
    GroupElement { bytes }
}

/// Relies on curve25519-dalek's `CompressedEdwardsY::decompress`, which
/// returns `None` exactly when the bytes are not a y-coordinate encoding of a
/// curve point, and on `EdwardsPoint::compress`, which re-encodes the decoded
/// point canonically; recompression is the identity on canonical encodings.
#[verifier::external_body]
pub(crate) fn decompress_element(b: &Vec<u8>) -> (r: Option<GroupElement>)
    requires
        b@.len() == 32,
    ensures
        r is Some <==> ed_decompress(b@) is Some,
        (r matches Some(e) ==> Some(e@) == ed_decompress(b@) && e.wf()),
{
    let mut arr = [0u8; 32];
    arr.copy_from_slice(b);
    curve25519_dalek::edwards::CompressedEdwardsY(arr)
        .decompress()
        .map(|p| GroupElement { bytes: p.compress().to_bytes().to_vec() })
}

/// Relies on curve25519-dalek's `Scalar::from_canonical_bytes`, which is
/// `Some` exactly when the 32 little-endian bytes are below the group order.
#[verifier::external_body]
pub(crate) fn scalar_is_canonical(b: &Vec<u8>) -> (r: bool)
    requires
        b@.len() == 32,
    ensures
        r == scalar_canonical(b@),
{
    let mut arr = [0u8; 32];
    arr.copy_from_slice(b);
    bool::from(curve25519_dalek::scalar::Scalar::from_canonical_bytes(arr).is_some())
}

/// Relies on scalar multiplication of curve25519-dalek (`EdwardsPoint *
/// Scalar`). The last clause is the exponent-commutation law of the abelian
/// group: if `p` is `q` raised to `j`, then `p` raised to `k` equals `q`
/// raised to `k` and then to `j`.
#[verifier::external_body]
pub(crate) fn point_mul(p: &GroupElement, k: &GroupScalar) -> (r: GroupElement)
    requires
        p.wf(),
        k.wf(),
    ensures
        r@ == spec_point_mul(p@, k@),
        r.wf(),
        forall|q: Seq<u8>, j: Seq<u8>|
            p@ == #[trigger] spec_point_mul(q, j) ==> r@ == spec_point_mul(
                spec_point_mul(q, k@),
                j,
            ),
{
    let mut pa = [0u8; 32];
    pa.copy_from_slice(&p.bytes);
    let mut ka = [0u8; 32];
    ka.copy_from_slice(&k.bytes);
    let pt = curve25519_dalek::edwards::CompressedEdwardsY(pa).decompress().unwrap();
    let sc = Option::<curve25519_dalek::scalar::Scalar>::from(
        curve25519_dalek::scalar::Scalar::from_canonical_bytes(ka),
    ).unwrap();
    GroupElement { bytes: (pt * sc).compress().to_bytes().to_vec() }
}

/// Relies on point addition of curve25519-dalek (`EdwardsPoint +
/// EdwardsPoint`). The last clause is the cancellation law of the group: when
/// `a` is `m + s` for a valid element `m`, and `b` is `-s`, the sum is `m`.
#[verifier::external_body]
pub(crate) fn point_add(a: &GroupElement, b: &GroupElement) -> (r: GroupElement)
    requires
        a.wf(),
        b.wf(),
    ensures
        r@ == spec_point_add(a@, b@),
        r.wf(),
        forall|m0: Seq<u8>, s0: Seq<u8>|
            point_valid(m0) && a@ == #[trigger] spec_point_add(m0, s0) && b@ == spec_point_neg(s0)
                ==> r@ == m0,
{
    let mut aa = [0u8; 32];
    aa.copy_from_slice(&a.bytes);
    let mut ba = [0u8; 32];
    ba.copy_from_slice(&b.bytes);
    let pa = curve25519_dalek::edwards::CompressedEdwardsY(aa).decompress().unwrap();
    let pb = curve25519_dalek::edwards::CompressedEdwardsY(ba).decompress().unwrap();
    GroupElement { bytes: (pa + pb).compress().to_bytes().to_vec() }
}

/// Relies on point negation of curve25519-dalek (`-EdwardsPoint`).
#[verifier::external_body]
pub(crate) fn point_neg(a: &GroupElement) -> (r: GroupElement)
    requires
        a.wf(),
    ensures
        r@ == spec_point_neg(a@),
        r.wf(),
{
    let mut aa = [0u8; 32];
    aa.copy_from_slice(&a.bytes);
    let pa = curve25519_dalek::edwards::CompressedEdwardsY(aa).decompress().unwrap();
    GroupElement { bytes: (-pa).compress().to_bytes().to_vec() }
}

/// Relies on the thread-local cryptographically secure generator of `rand`
/// and on curve25519-dalek's `Scalar::from_bytes_mod_order_wide`, which
/// reduces 64 uniform bytes modulo the group order; the result is a reduced,
/// hence canonically encoded, scalar. Nothing is stated of which scalar comes
/// back. Entropy-source failure panics inside `rand` and aborts the
/// operation.
#[verifier::external_body]
pub(crate) fn random_scalar() -> (r: GroupScalar)
    ensures
        r.wf(),
{
    let mut wide = [0u8; 64];
    rand::RngCore::fill_bytes(&mut rand::thread_rng(), &mut wide);
    let sc = curve25519_dalek::scalar::Scalar::from_bytes_mod_order_wide(&wide);
    GroupScalar { bytes: sc.to_bytes().to_vec() }
}

/// Relies on curve25519-dalek's `CompressedEdwardsY::decompress` and
/// `EdwardsPoint::compress`: both tagged buffers (a single tag byte 0 or 1,
/// then 31 zero bytes) decompress to curve points — y = 0 has a square
/// x-coordinate because -1 is a square modulo the field prime, and y = 1 is
/// the identity — and both buffers are canonical encodings, so recompression
/// returns the same bytes.
#[verifier::external_body]
pub(crate) fn plaintext_point(message: bool) -> (r: GroupElement)
    ensures
        r@ == plaintext_bytes(message),
        r.wf(),
{
    let mut arr = [0u8; 32];
    if message {
        arr[0] = 1;
    }
    let p = curve25519_dalek::edwards::CompressedEdwardsY(arr).decompress().unwrap();
    GroupElement { bytes: p.compress().to_bytes().to_vec() }
}

} // verus!
