//! The adaptor protocol: pre-signing against an adaptor point `T = t·G`,
//! repairing a pre-signature with `t`, and extracting `t` from the pair.
//!
//! Nonce parity: the pre-signature carries only the x-coordinate of `R'`, and
//! repair lifts it to the even-y point. Signing therefore negates the nonce
//! scalar whenever `k'·G` has odd y, so that `R'` always has even y and a
//! genuine pre-signature always repairs. The parity of the combined nonce
//! `R = R' + T` is not controlled: the repaired signature always meets the
//! Schnorr equation `s·G = R + e·P`, and it passes BIP-340 verification
//! exactly when `R` has even y (see `laws::lemma_repair_completes`).
use vstd::prelude::*;
use crate::curve::{
    be_val, g_mul, generator, group_order, lift_x, lifts, lincomb, point_add, point_x, scalar_add,
    scalar_mul, scalar_neg, scalar_reduce, scalar_sub, Scalar,
};
use crate::error::SchnorrError;
use crate::signature::{AdaptorSigner, RepairAdaptorSignature, SecretExtractor};
use crate::keys::{decode_scalar, scalar_is_zero, Signature, SigningKey, VerifyingKey};
use crate::random::{
    append_bytes, challenge_tag, challenge_tag_bytes, even_val, nonce_val, synthetic_random,
    tagged, tagged_hash,
};

verus! {

/// The BIP-340 challenge `H_challenge(r ‖ P_x ‖ m)` reduced modulo the order.
pub open spec fn challenge(r: Seq<u8>, px: Seq<u8>, m: Seq<u8>) -> nat {
    be_val(tagged(challenge_tag(), r + px + m)) % group_order()
}

/// Computes the challenge scalar for nonce x-coordinate `r`, public key
/// x-coordinate `px` and message digest `m`.
pub fn challenge_scalar(r: &[u8; 32], px: &[u8; 32], m: &[u8; 32]) -> (e: Scalar)
    ensures
        e.wf(),
        e.val() == challenge(r@, px@, m@),
{
    let mut data: Vec<u8> = Vec::new();
    append_bytes(&mut data, r);
    append_bytes(&mut data, px);
    append_bytes(&mut data, m);
    let h = tagged_hash(challenge_tag_bytes().as_slice(), data.as_slice());
    scalar_reduce(&h)
}

/// The nonce scalar `k'` that signing derives: the synthetic nonce, negated
/// where needed so that `k'·G` has even y.
pub open spec fn nonce_of(key: SigningKey, msg: Seq<u8>, aux: Seq<u8>) -> nat {
    even_val(nonce_val(key, msg, aux))
}

/// `pre` is the pre-signature `(x(R'), s')` of `key` on `msg` with auxiliary
/// randomness `aux`, bound to the adaptor point `tl·G`: `R' = k'·G` has even
/// y, `R = R' + T`, and `s' = k' + e·x` for `e` the challenge of `x(R)`.
pub open spec fn presigned(key: SigningKey, aux: Seq<u8>, tl: int, msg: Seq<u8>, pre: Signature) -> bool {
    let n = group_order() as int;
    let k = nonce_of(key, msg, aux) as int;
    let e = challenge(point_x(g_mul((k + tl) % n)), point_x(key.public@), msg) as int;
    &&& 1 <= k < n
    &&& pre.r@ == point_x(g_mul(k))
    &&& crate::curve::y_even(g_mul(k))
    &&& be_val(pre.s@) as int == (k + (e * key.secret.val()) % n) % n
}

/// The adaptor relation for the public point `pk = p·G`, nonce `k` and
/// adaptor secret `tl`: `s'·G − e·P = k·G`, where `e` is the challenge of
/// `x(k·G + tl·G)`.
pub open spec fn adaptor_holds(pk: Seq<u8>, p: int, msg: Seq<u8>, s_pre: nat, tl: int, k: int) -> bool {
    let n = group_order() as int;
    let e = challenge(point_x(g_mul((k + tl) % n)), point_x(pk), msg);
    (s_pre + p * ((n - e) % n)) % n == k
}

/// The scalar of the point `s·G − e·P` that BIP-340 verification computes for
/// the signature `(r, s)` under the public point `p·G`.
pub open spec fn verify_point(pk: Seq<u8>, p: int, msg: Seq<u8>, r: Seq<u8>, s: nat) -> int {
    let n = group_order() as int;
    (s + p * ((n - challenge(r, point_x(pk), msg)) % n)) % n
}

/// BIP-340 verification of `(r, s)` on `msg` under the public point `p·G`:
/// `s·G − e·P` has even y and x-coordinate `r`.
pub open spec fn bip340_valid(pk: Seq<u8>, p: int, msg: Seq<u8>, r: Seq<u8>, s: nat) -> bool {
    &&& s < group_order()
    &&& crate::curve::y_even(g_mul(verify_point(pk, p, msg, r, s)))
    &&& point_x(g_mul(verify_point(pk, p, msg, r, s))) == r
}

/// What pre-signing guarantees: it fails (with `NonZeroScalar`) exactly when
/// the synthetic nonce reduces to zero, and otherwise returns the
/// pre-signature of `key` against `t` for every discrete log of `t`.
pub open spec fn sign_post(key: SigningKey, aux: Seq<u8>, t: VerifyingKey, msg: Seq<u8>, r: Result<Signature, SchnorrError>) -> bool {
    &&& (r is Err <==> nonce_val(key, msg, aux) == 0)
    &&& (r is Err ==> r == Err::<Signature, SchnorrError>(SchnorrError::NonZeroScalar))
    &&& (r matches Ok(pre) ==> forall|tl: int|
        0 <= tl < group_order() && #[trigger] g_mul(tl) == t.point@ ==> presigned(key, aux, tl, msg, pre))
}

impl AdaptorSigner for SigningKey {
    open spec fn signer_wf(&self) -> bool {
        self.wf()
    }

    open spec fn presigns(&self, aux: Seq<u8>, t: VerifyingKey, msg: Seq<u8>, r: Result<Signature, SchnorrError>) -> bool {
        sign_post(*self, aux, t, msg, r)
    }

    fn sign_with_rng(&self, aux_rand: &[u8; 32], t: &VerifyingKey, msg_digest: &[u8; 32]) -> (r:
        Result<Signature, SchnorrError>)
    {
        let k = match synthetic_random(self, msg_digest, aux_rand) {
            Ok(k) => k,
            Err(e) => {
                return Err(e);
            },
        };
        let big_r = point_add(&k.public, &t.point);
        let r = big_r.x_bytes();
        let px = self.public.x_bytes();
        let e = challenge_scalar(&r, &px, msg_digest);
        let ex = scalar_mul(&e, &self.secret);
        let s = scalar_add(&k.secret, &ex);
        let pre = Signature { r: k.public.x_bytes(), s: s.bytes };
        proof {
            assert forall|tl: int|
                0 <= tl < group_order() && #[trigger] g_mul(tl) == t.point@ implies presigned(
                *self,
                aux_rand@,
                tl,
                msg_digest@,
                pre,
            ) by {
                assert(g_mul(k.secret.val() as int) == k.public@);
            }
        }
        Ok(pre)
    }
}

/// What repair guarantees: `InvalidEncoding` exactly when the nonce
/// x-coordinate has no even-y point or `s'` is not below the order; otherwise
/// success exactly when the adaptor relation holds for the lifted nonce, with
/// the repaired signature `(x(R' + T), s' + t)`.
pub open spec fn repair_post(pk: VerifyingKey, msg: Seq<u8>, pre: Signature, secret_key: SigningKey, r: Result<Signature, SchnorrError>) -> bool {
    &&& (r == Err::<Signature, SchnorrError>(SchnorrError::InvalidEncoding) <==> (forall|k: int|
        !(#[trigger] lifts(pre.r@, k))) || be_val(pre.s@) >= group_order())
    &&& (r is Err ==> r == Err::<Signature, SchnorrError>(SchnorrError::InvalidEncoding) || r
        == Err::<Signature, SchnorrError>(SchnorrError::IncorrectAdaptorSig))
    &&& forall|p: int, k: int|
        0 <= p < group_order() && #[trigger] g_mul(p) == pk.point@ && #[trigger] lifts(pre.r@, k)
            && be_val(pre.s@) < group_order() ==> {
            &&& (r is Ok <==> adaptor_holds(pk.point@, p, msg, be_val(pre.s@), secret_key.secret.val() as int, k))
            &&& (r matches Ok(sig) ==> sig.r@ == point_x(
                g_mul((k + secret_key.secret.val()) % (group_order() as int)),
            ) && be_val(sig.s@) == (be_val(pre.s@) + secret_key.secret.val()) % group_order())
        }
}

impl RepairAdaptorSignature for VerifyingKey {
    open spec fn repairer_wf(&self) -> bool {
        self.wf()
    }

    open spec fn repairs(&self, msg: Seq<u8>, adaptor_sig: Signature, secret_key: SigningKey, r: Result<Signature, SchnorrError>) -> bool {
        repair_post(*self, msg, adaptor_sig, secret_key, r)
    }

    fn repair_signature(&self, msg_digest: &[u8; 32], adaptor_sig: &Signature, secret_key: &SigningKey) -> (r:
        Result<Signature, SchnorrError>)
    {
        let r_star = match lift_x(&adaptor_sig.r) {
            Some(p) => p,
            None => {
                return Err(SchnorrError::InvalidEncoding);
            },
        };
        let s_star = match decode_scalar(&adaptor_sig.s) {
            Some(s) => s,
            None => {
                return Err(SchnorrError::InvalidEncoding);
            },
        };
        proof {
            let k0 = choose|k: int| #[trigger] lifts(adaptor_sig.r@, k) && g_mul(k) == r_star@;
            assert(lifts(adaptor_sig.r@, k0));
        }
        let big_r = point_add(&r_star, &secret_key.public);
        let r = big_r.x_bytes();
        let px = self.to_bytes();
        let e = challenge_scalar(&r, &px, msg_digest);
        let g = generator();
        let neg_e = scalar_neg(&e);
        let r_expect = lincomb(&g, &s_star, &self.point, &neg_e);
        let same = r_expect.equals(&r_star);
        let ghost t = secret_key.secret.val() as int;
        proof {
            assert forall|p: int, k: int|
                0 <= p < group_order() && #[trigger] g_mul(p) == self.point@ && #[trigger] lifts(
                    adaptor_sig.r@,
                    k,
                ) implies (same <==> adaptor_holds(self.point@, p, msg_digest@, s_star.val(), t, k))
                && r@ == point_x(g_mul((k + t) % (group_order() as int))) by {
                assert(g_mul(k) == r_star@);
                assert(g_mul(t) == secret_key.public@);
                assert(g_mul(1) == g@);
                assert(r_expect@ == g_mul((1 * s_star.val() + p * neg_e.val()) % (group_order() as int)));
            }
        }
        if same {
            let s = scalar_add(&s_star, &secret_key.secret);
            Ok(Signature { r, s: s.bytes })
        } else {
            Err(SchnorrError::IncorrectAdaptorSig)
        }
    }
}

/// What extraction guarantees: `InvalidEncoding` exactly when a scalar is
/// not below the order, `NonZeroScalar` exactly when `s = s'`, and otherwise
/// the non-zero scalar `s − s'`.
pub open spec fn extract_post(sig: Signature, pre: Signature, r: Result<Scalar, SchnorrError>) -> bool {
    &&& (r == Err::<Scalar, SchnorrError>(SchnorrError::InvalidEncoding) <==> be_val(sig.s@)
        >= group_order() || be_val(pre.s@) >= group_order())
    &&& (r == Err::<Scalar, SchnorrError>(SchnorrError::NonZeroScalar) <==> be_val(sig.s@)
        < group_order() && be_val(sig.s@) == be_val(pre.s@))
    &&& (r is Err ==> r == Err::<Scalar, SchnorrError>(SchnorrError::InvalidEncoding) || r
        == Err::<Scalar, SchnorrError>(SchnorrError::NonZeroScalar))
    &&& (r matches Ok(t) ==> t.wf() && t.val() != 0 && t.val() == (be_val(sig.s@) + group_order()
        - be_val(pre.s@)) % (group_order() as int))
}

impl SecretExtractor for Signature {
    open spec fn extracts(&self, tweaked_signature: Signature, r: Result<Scalar, SchnorrError>) -> bool {
        extract_post(*self, tweaked_signature, r)
    }

    fn extract_secret(&self, tweaked_signature: &Signature) -> (r: Result<Scalar, SchnorrError>)
    {
        let s_star = match decode_scalar(&tweaked_signature.s) {
            Some(s) => s,
            None => {
                return Err(SchnorrError::InvalidEncoding);
            },
        };
        let s = match decode_scalar(&self.s) {
            Some(s) => s,
            None => {
                return Err(SchnorrError::InvalidEncoding);
            },
        };
        let t = scalar_sub(&s, &s_star);
        if scalar_is_zero(&t) {
            Err(SchnorrError::NonZeroScalar)
        } else {
            Ok(t)
        }
    }
}

} // verus!
