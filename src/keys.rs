//! Keys and signatures: a signing key with its even-y public point, an x-only
//! verifying key, and the 64-byte `(r, s)` signature layout.
use vstd::prelude::*;
use crate::curve::{
    be_val, even_key, g_mul, group_order, lift_x, point_x, y_even, Point, Scalar,
};
use crate::error::SchnorrError;
use k256::elliptic_curve::ff::PrimeField;

verus! {

/// Relies on `Scalar::from_repr`: the bytes decode exactly when they encode
/// a value below the group order.
#[verifier::external_body]
pub(crate) fn decode_scalar(b: &[u8; 32]) -> (r: Option<Scalar>)
    ensures
        r is Some <==> be_val(b@) < group_order(),
        r matches Some(s) ==> s.bytes@ == b@,
{
    let s: Option<k256::Scalar> = k256::Scalar::from_repr(k256::FieldBytes::from(*b)).into();
    s.map(|_| Scalar { bytes: *b })
}

/// Relies on `Scalar::is_zero`.
#[verifier::external_body]
pub(crate) fn scalar_is_zero(s: &Scalar) -> (r: bool)
    requires
        s.wf(),
    ensures
        r == (s.val() == 0),
{
    let x = k256::Scalar::from_repr(k256::FieldBytes::from(s.bytes)).unwrap();
    bool::from(x.is_zero())
}

impl Point {
    /// A copy of the point.
    pub fn copy(&self) -> (r: Point)
        ensures
            r@ == self@,
    {
        let mut enc: Vec<u8> = Vec::new();
        let mut i: usize = 0;
        while i < self.enc.len()
            invariant
                i <= self.enc@.len(),
                enc@ == self.enc@.subrange(0, i as int),
            decreases self.enc@.len() - i,
        {
            enc.push(self.enc[i]);
            i = i + 1;
        }
        assert(enc@ == self.enc@);
        Point { enc }
    }

    /// Whether the two points are the same (their encodings agree).
    pub fn equals(&self, o: &Point) -> (r: bool)
        ensures
            r == (self@ == o@),
    {
        if self.enc.len() != o.enc.len() {
            return false;
        }
        let mut i: usize = 0;
        while i < self.enc.len()
            invariant
                self.enc@.len() == o.enc@.len(),
                i <= self.enc@.len(),
                forall|j: int| 0 <= j < i ==> self.enc@[j] == o.enc@[j],
            decreases self.enc@.len() - i,
        {
            if self.enc[i] != o.enc[i] {
                return false;
            }
            i = i + 1;
        }
        assert(self.enc@ == o.enc@);
        true
    }

    /// The x-coordinate, 32 bytes big-endian (zero for the identity).
    pub fn x_bytes(&self) -> (r: [u8; 32])
        ensures
            r@ == point_x(self@),
    {
        let mut r = [0u8; 32];
        if self.enc.len() == 65 {
            let mut i: usize = 0;
            while i < 32
                invariant
                    self.enc@.len() == 65,
                    i <= 32,
                    forall|j: int| 0 <= j < i ==> r@[j] == self.enc@[j + 1],
                decreases 32 - i,
            {
                r[i] = self.enc[i + 1];
                i = i + 1;
            }
            assert(r@ == point_x(self@));
        } else {
            assert(r@ == point_x(self@));
        }
        r
    }
}

/// A secret key with its public point `P = x·G`, normalised so that `P`
/// has an even y-coordinate.
#[derive(Clone, Debug)]
pub struct SigningKey {
    pub secret: Scalar,
    pub public: Point,
}

impl SigningKey {
    pub open spec fn wf(&self) -> bool {
        &&& self.secret.wf()
        &&& self.secret.val() != 0
        &&& self.public@ == g_mul(self.secret.val() as int)
        &&& y_even(self.public@)
    }

    /// The key for the non-zero scalar `s`, negated where `s·G` has odd y.
    pub fn from_scalar(s: &Scalar) -> (r: SigningKey)
        requires
            s.wf(),
            s.val() != 0,
        ensures
            r.wf(),
            y_even(g_mul(s.val() as int)) ==> r.secret.val() == s.val(),
            !y_even(g_mul(s.val() as int)) ==> r.secret.val() == group_order() - s.val(),
    {
        let (secret, public) = even_key(s);
        SigningKey { secret, public }
    }

    /// Parses a secret key from 32 big-endian bytes; the value must be
    /// non-zero and below the group order.
    pub fn from_bytes(b: &[u8; 32]) -> (r: Result<SigningKey, SchnorrError>)
        ensures
            r is Ok <==> 0 < be_val(b@) < group_order(),
            r is Err ==> r == Err::<SigningKey, SchnorrError>(SchnorrError::InvalidEncoding),
            r matches Ok(k) ==> k.wf() && (if y_even(g_mul(be_val(b@) as int)) {
                k.secret.val() == be_val(b@)
            } else {
                k.secret.val() == group_order() - be_val(b@)
            }),
    {
        match decode_scalar(b) {
            None => Err(SchnorrError::InvalidEncoding),
            Some(s) => {
                if scalar_is_zero(&s) {
                    Err(SchnorrError::InvalidEncoding)
                } else {
                    Ok(SigningKey::from_scalar(&s))
                }
            },
        }
    }

    /// The secret scalar, 32 bytes big-endian.
    pub fn to_bytes(&self) -> (r: [u8; 32])
        ensures
            r@ == self.secret.bytes@,
    {
        self.secret.bytes
    }

    /// The verifying key `P = x·G`.
    pub fn verifying_key(&self) -> (r: VerifyingKey)
        requires
            self.wf(),
        ensures
            r.wf(),
            r.point@ == self.public@,
    {
        VerifyingKey { point: self.public.copy() }
    }
}

/// A BIP-340 public key: a curve point with even y, known by its x-coordinate.
#[derive(Clone, Debug)]
pub struct VerifyingKey {
    pub point: Point,
}

impl VerifyingKey {
    pub open spec fn wf(&self) -> bool {
        self.point.wf() && y_even(self.point@)
    }

    /// Parses an x-only public key: the even-y point with this x-coordinate.
    pub fn from_bytes(x: &[u8; 32]) -> (r: Result<VerifyingKey, SchnorrError>)
        ensures
            r is Err <==> forall|k: int| !(#[trigger] crate::curve::lifts(x@, k)),
            r is Err ==> r == Err::<VerifyingKey, SchnorrError>(SchnorrError::InvalidEncoding),
            r matches Ok(v) ==> v.wf() && point_x(v.point@) == x@,
            r matches Ok(v) ==> forall|k: int| #[trigger] crate::curve::lifts(x@, k) ==> g_mul(k) == v.point@,
    {
        match lift_x(x) {
            None => Err(SchnorrError::InvalidEncoding),
            Some(p) => {
                Ok(VerifyingKey { point: p })
            },
        }
    }

    /// The x-coordinate, 32 bytes big-endian.
    pub fn to_bytes(&self) -> (r: [u8; 32])
        ensures
            r@ == point_x(self.point@),
    {
        self.point.x_bytes()
    }
}

/// A signature or pre-signature: a nonce x-coordinate `r` and a scalar `s`.
#[derive(Clone, Copy, Debug)]
pub struct Signature {
    pub r: [u8; 32],
    pub s: [u8; 32],
}

impl Signature {
    /// Splits 64 bytes at the midpoint into `r` and `s`.
    pub fn from_bytes(b: &[u8; 64]) -> (r: Signature)
        ensures
            r.r@ == b@.subrange(0, 32),
            r.s@ == b@.subrange(32, 64),
    {
        let mut r = [0u8; 32];
        let mut s = [0u8; 32];
        let mut i: usize = 0;
        while i < 32
            invariant
                i <= 32,
                forall|j: int| 0 <= j < i ==> r@[j] == b@[j] && s@[j] == b@[j + 32],
            decreases 32 - i,
        {
            r[i] = b[i];
            s[i] = b[i + 32];
            i = i + 1;
        }
        assert(r@ == b@.subrange(0, 32));
        assert(s@ == b@.subrange(32, 64));
        Signature { r, s }
    }

    /// The 64-byte encoding `r ‖ s`.
    pub fn to_bytes(&self) -> (out: [u8; 64])
        ensures
            out@ == self.r@ + self.s@,
    {
        let mut out = [0u8; 64];
        let mut i: usize = 0;
        while i < 32
            invariant
                i <= 32,
                forall|j: int| 0 <= j < i ==> out@[j] == self.r@[j] && out@[j + 32] == self.s@[j],
            decreases 32 - i,
        {
            out[i] = self.r[i];
            out[i + 32] = self.s[i];
            i = i + 1;
        }
        assert(out@ == self.r@ + self.s@);
        out
    }
}

} // verus!
