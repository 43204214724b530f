//! The secp256k1 group as this crate sees it: scalars as 32 big-endian bytes,
//! points as their SEC1 uncompressed encoding, and the group law stated over
//! `g_mul`, the encoding of `k·G`.
use vstd::prelude::*;
use k256::elliptic_curve::ff::PrimeField;
use k256::elliptic_curve::ops::{LinearCombination, Reduce};
use k256::elliptic_curve::sec1::{FromEncodedPoint, ToEncodedPoint};

verus! {

/// The order `n` of the secp256k1 group.
pub open spec fn group_order() -> nat {
    0xFFFFFFFFFFFFFFFFFFFFFFFFFFFFFFFEBAAEDCE6AF48A03BBFD25E8CD0364141nat
}

/// The unsigned integer that `s` encodes in big-endian order.
pub open spec fn be_val(s: Seq<u8>) -> nat
    decreases s.len(),
{
    if s.len() == 0 {
        0
    } else {
        be_val(s.drop_last()) * 256 + s.last() as nat
    }
}

/// SEC1 uncompressed encoding of `k·G`, for the secp256k1 generator `G`
/// (the single byte 0 for the identity).
pub uninterp spec fn g_mul(k: int) -> Seq<u8>;

/// The x-coordinate of an encoded point; zero for the identity.
pub open spec fn point_x(e: Seq<u8>) -> Seq<u8> {
    if e.len() == 65 {
        e.subrange(1, 33)
    } else {
        Seq::new(32, |i: int| 0u8)
    }
}

/// The encoded point is not the identity and its y-coordinate is even.
pub open spec fn y_even(e: Seq<u8>) -> bool {
    e.len() == 65 && e[64] % 2 == 0
}

/// `k` is a non-zero scalar whose multiple of `G` is the even-y point with
/// x-coordinate `x`.
pub open spec fn lifts(x: Seq<u8>, k: int) -> bool {
    &&& 1 <= k < group_order()
    &&& point_x(g_mul(k)) == x
    &&& y_even(g_mul(k))
}

/// A scalar of the group, 32 bytes big-endian.
#[derive(Clone, Copy, Debug)]
pub struct Scalar {
    pub bytes: [u8; 32],
}

impl Scalar {
    pub open spec fn val(&self) -> nat {
        be_val(self.bytes@)
    }

    /// The bytes encode a value below the group order.
    pub open spec fn wf(&self) -> bool {
        self.val() < group_order()
    }
}

/// A point of the group, as its SEC1 uncompressed encoding.
#[derive(Clone, Debug)]
pub struct Point {
    pub enc: Vec<u8>,
}

impl Point {
    pub open spec fn view(&self) -> Seq<u8> {
        self.enc@
    }

    /// The point is a multiple of the generator, i.e. on the curve.
    pub open spec fn wf(&self) -> bool {
        exists|k: int| 0 <= k < group_order() && g_mul(k) == self.view()
    }
}

/// Relies on `Scalar::from_be_bytes_reduced` (`Reduce<U256>`): a 256-bit
/// big-endian integer reduced modulo the group order.
#[verifier::external_body]
pub(crate) fn scalar_reduce(b: &[u8; 32]) -> (r: Scalar)
    ensures
        r.val() == be_val(b@) % group_order(),
{
    let s = <k256::Scalar as Reduce<k256::U256>>::from_be_bytes_reduced(k256::FieldBytes::from(*b));
    Scalar { bytes: s.to_bytes().into() }
}

/// Relies on `Scalar + Scalar` (with `Scalar::from_repr` to decode the
/// canonical operands): addition modulo the group order.
#[verifier::external_body]
pub(crate) fn scalar_add(a: &Scalar, b: &Scalar) -> (r: Scalar)
    requires
        a.wf(),
        b.wf(),
    ensures
        r.val() == (a.val() + b.val()) % group_order(),
{
    let x = k256::Scalar::from_repr(k256::FieldBytes::from(a.bytes)).unwrap();
    let y = k256::Scalar::from_repr(k256::FieldBytes::from(b.bytes)).unwrap();
    Scalar { bytes: (x + y).to_bytes().into() }
}

/// Relies on `Scalar - Scalar`: subtraction modulo the group order.
#[verifier::external_body]
pub(crate) fn scalar_sub(a: &Scalar, b: &Scalar) -> (r: Scalar)
    requires
        a.wf(),
        b.wf(),
    ensures
        r.val() == (a.val() + group_order() - b.val()) % (group_order() as int),
{
    let x = k256::Scalar::from_repr(k256::FieldBytes::from(a.bytes)).unwrap();
    let y = k256::Scalar::from_repr(k256::FieldBytes::from(b.bytes)).unwrap();
    Scalar { bytes: (x - y).to_bytes().into() }
}

/// Relies on `-Scalar`: negation modulo the group order.
#[verifier::external_body]
pub(crate) fn scalar_neg(a: &Scalar) -> (r: Scalar)
    requires
        a.wf(),
    ensures
        r.val() == (group_order() - a.val()) % (group_order() as int),
{
    let x = k256::Scalar::from_repr(k256::FieldBytes::from(a.bytes)).unwrap();
    Scalar { bytes: (-x).to_bytes().into() }
}

/// Relies on `ProjectivePoint::GENERATOR`: the encoding of `G = 1·G`.
#[verifier::external_body]
pub(crate) fn generator() -> (r: Point)
    ensures
        r@ == g_mul(1),
{
    let g = k256::ProjectivePoint::GENERATOR.to_affine();
    Point { enc: g.to_encoded_point(false).as_bytes().to_vec() }
}

/// Relies on `Scalar * Scalar`: multiplication modulo the group order.
#[verifier::external_body]
pub(crate) fn scalar_mul(a: &Scalar, b: &Scalar) -> (r: Scalar)
    requires
        a.wf(),
        b.wf(),
    ensures
        r.val() == (a.val() * b.val()) % group_order(),
{
    let x = k256::Scalar::from_repr(k256::FieldBytes::from(a.bytes)).unwrap();
    let y = k256::Scalar::from_repr(k256::FieldBytes::from(b.bytes)).unwrap();
    Scalar { bytes: (x * y).to_bytes().into() }
}

/// Relies on `ProjectivePoint + ProjectivePoint`: the group law, so the sum
/// of `a·G` and `b·G` is `(a + b)·G`.
#[verifier::external_body]
pub(crate) fn point_add(p: &Point, q: &Point) -> (r: Point)
    requires
        p.wf(),
        q.wf(),
    ensures
        forall|a: int, b: int|
            0 <= a < group_order() && 0 <= b < group_order() && #[trigger] g_mul(a) == p@
                && #[trigger] g_mul(b) == q@ ==> r@ == g_mul((a + b) % (group_order() as int)),
{
    let x = k256::AffinePoint::from_encoded_point(&k256::EncodedPoint::from_bytes(&p.enc).unwrap()).unwrap();
    let y = k256::AffinePoint::from_encoded_point(&k256::EncodedPoint::from_bytes(&q.enc).unwrap()).unwrap();
    let s = (k256::ProjectivePoint::from(x) + y).to_affine();
    Point { enc: s.to_encoded_point(false).as_bytes().to_vec() }
}

/// Relies on `ProjectivePoint::lincomb`: `x·k + y·l`, so for `x = a·G` and
/// `y = b·G` the point `(a·k + b·l)·G`, which no other scalar below the group
/// order reaches.
#[verifier::external_body]
pub(crate) fn lincomb(x: &Point, k: &Scalar, y: &Point, l: &Scalar) -> (r: Point)
    requires
        x.wf(),
        y.wf(),
        k.wf(),
        l.wf(),
    ensures
        forall|a: int, b: int|
            0 <= a < group_order() && 0 <= b < group_order() && #[trigger] g_mul(a) == x@
                && #[trigger] g_mul(b) == y@ ==> {
                &&& r@ == g_mul((a * k.val() + b * l.val()) % (group_order() as int))
                &&& forall|j: int|
                    0 <= j < group_order() && #[trigger] g_mul(j) == r@ ==> j == (a * k.val() + b
                        * l.val()) % (group_order() as int)
            },
{
    let xp = k256::AffinePoint::from_encoded_point(&k256::EncodedPoint::from_bytes(&x.enc).unwrap()).unwrap();
    let yp = k256::AffinePoint::from_encoded_point(&k256::EncodedPoint::from_bytes(&y.enc).unwrap()).unwrap();
    let ks = k256::Scalar::from_repr(k256::FieldBytes::from(k.bytes)).unwrap();
    let ls = k256::Scalar::from_repr(k256::FieldBytes::from(l.bytes)).unwrap();
    let r = k256::ProjectivePoint::lincomb(&xp.into(), &ks, &yp.into(), &ls).to_affine();
    Point { enc: r.to_encoded_point(false).as_bytes().to_vec() }
}

/// Relies on `schnorr::VerifyingKey::from_bytes`: the even-y curve point with
/// x-coordinate `x` (BIP-340 `lift_x`), if there is one.
#[verifier::external_body]
pub(crate) fn lift_x(x: &[u8; 32]) -> (r: Option<Point>)
    ensures
        r matches Some(p) ==> p.wf() && y_even(p@) && point_x(p@) == x@,
        r matches Some(p) ==> exists|k: int| #[trigger] lifts(x@, k) && g_mul(k) == p@,
        r matches Some(p) ==> forall|k: int| #[trigger] lifts(x@, k) ==> g_mul(k) == p@,
        r is None ==> forall|k: int| !(#[trigger] lifts(x@, k)),
{
    let vk = k256::schnorr::VerifyingKey::from_bytes(x).ok()?;
    Some(Point { enc: vk.as_affine().to_encoded_point(false).as_bytes().to_vec() })
}

/// Relies on `schnorr::SigningKey::from(NonZeroScalar)`: the secret or its
/// negation, whichever gives an even-y public point, with that point.
#[verifier::external_body]
pub(crate) fn even_key(s: &Scalar) -> (r: (Scalar, Point))
    requires
        s.wf(),
        s.val() != 0,
    ensures
        y_even(g_mul(s.val() as int)) ==> r.0.val() == s.val(),
        !y_even(g_mul(s.val() as int)) ==> r.0.val() == group_order() - s.val(),
        r.1@ == g_mul(r.0.val() as int),
        y_even(r.1@),
{
    let x = k256::Scalar::from_repr(k256::FieldBytes::from(s.bytes)).unwrap();
    let sk = k256::schnorr::SigningKey::from(k256::NonZeroScalar::new(x).unwrap());
    let p = sk.verifying_key().as_affine().to_encoded_point(false);
    (Scalar { bytes: sk.as_nonzero_scalar().to_bytes().into() }, Point { enc: p.as_bytes().to_vec() })
}

} // verus!
