//! Properties that relate signing, repair and extraction.
use vstd::prelude::*;
use vstd::arithmetic::div_mod::{
    lemma_add_mod_noop, lemma_add_mod_noop_right, lemma_fundamental_div_mod,
    lemma_fundamental_div_mod_converse, lemma_mod_multiples_vanish, lemma_mod_twice,
    lemma_mul_mod_noop_right, lemma_small_mod,
};
use crate::adaptor::{adaptor_holds, bip340_valid, challenge, nonce_of, presigned, verify_point};
use crate::curve::{be_val, g_mul, group_order, lifts, point_x, y_even};
use crate::keys::{Signature, SigningKey};

verus! {

/// Adding `t` to `k + e·x` and subtracting `e·x` again leaves `k + t`.
proof fn lemma_cancel(n: int, k: int, t: int, e: int, x: int)
    requires
        n > 0,
        0 <= k < n,
        0 <= t < n,
        0 <= e < n,
        0 <= x < n,
    ensures
        (((k + (e * x) % n) % n + t) % n + x * ((n - e) % n)) % n == (k + t) % n,
{
    lemma_add_mod_noop_right(k, e * x, n);
    lemma_small_mod(t as nat, n as nat);
    lemma_add_mod_noop(k + e * x, t, n);
    lemma_mul_mod_noop_right(x, n - e, n);
    let b = (k + e * x + t) % n;
    let c = x * ((n - e) % n);
    lemma_add_mod_noop(b, c, n);
    lemma_mod_twice(k + e * x + t, n);
    lemma_add_mod_noop(k + e * x + t, x * (n - e), n);
    assert(e * x + x * (n - e) == n * x) by (nonlinear_arith);
    lemma_mod_multiples_vanish(x, k + t, n);
    assert(k + e * x + t + x * (n - e) == n * x + (k + t));
}

/// Two values below `n` that agree modulo `n` after adding the same `c` are
/// equal.
proof fn lemma_add_cancel(n: int, a: int, b: int, c: int)
    requires
        n > 0,
        0 <= a < n,
        0 <= b < n,
        (a + c) % n == (b + c) % n,
    ensures
        a == b,
{
    lemma_fundamental_div_mod(a + c, n);
    lemma_fundamental_div_mod(b + c, n);
    let qa = (a + c) / n;
    let qb = (b + c) / n;
    let r = (a + c) % n;
    assert(a - b == n * (qa - qb)) by (nonlinear_arith)
        requires
            a + c == n * qa + r,
            b + c == n * qb + r,
    ;
    if qa > qb {
        assert(n * (qa - qb) >= n * 1) by (nonlinear_arith)
            requires
                n > 0,
                qa - qb >= 1,
        ;
        assert(false);
    } else if qa < qb {
        assert(n * (qb - qa) >= n * 1) by (nonlinear_arith)
            requires
                n > 0,
                qb - qa >= 1,
        ;
        assert(a - b == -(n * (qb - qa))) by (nonlinear_arith)
            requires
                a - b == n * (qa - qb),
        ;
        assert(false);
    }
}

/// Big-endian byte strings of one length encode equal values only when equal.
pub proof fn lemma_be_val_injective(a: Seq<u8>, b: Seq<u8>)
    requires
        a.len() == b.len(),
        be_val(a) == be_val(b),
    ensures
        a == b,
    decreases a.len(),
{
    if a.len() > 0 {
        let la = a.last() as int;
        let lb = b.last() as int;
        let pa = be_val(a.drop_last()) as int;
        let pb = be_val(b.drop_last()) as int;
        lemma_fundamental_div_mod_converse(be_val(a) as int, 256, pa, la);
        lemma_fundamental_div_mod_converse(be_val(b) as int, 256, pb, lb);
        lemma_be_val_injective(a.drop_last(), b.drop_last());
        assert(a == a.drop_last().push(a.last()));
        assert(b == b.drop_last().push(b.last()));
    } else {
        assert(a =~= b);
    }
}

/// A pre-signature made by `key` against `T = t·G` repairs with `t`: its
/// nonce x-coordinate lifts back to `R' = k'·G`, `s'·G − e·P = R'` holds, and
/// the repaired signature `(x(R), s' + t)` meets the Schnorr equation
/// `s·G − e·P = R` for `R = R' + T`; it passes BIP-340 verification whenever
/// `R` has even y.
pub proof fn lemma_repair_completes(
    key: SigningKey,
    adaptor_key: SigningKey,
    aux: Seq<u8>,
    msg: Seq<u8>,
    pre: Signature,
)
    requires
        key.wf(),
        adaptor_key.wf(),
        presigned(key, aux, adaptor_key.secret.val() as int, msg, pre),
    ensures
        ({
            let n = group_order() as int;
            let k = nonce_of(key, msg, aux) as int;
            let x = key.secret.val() as int;
            let t = adaptor_key.secret.val() as int;
            let r = point_x(g_mul((k + t) % n));
            let s = (be_val(pre.s@) + t) % n;
            &&& lifts(pre.r@, k)
            &&& be_val(pre.s@) < group_order()
            &&& adaptor_holds(key.public@, x, msg, be_val(pre.s@), t, k)
            &&& verify_point(key.public@, x, msg, r, s as nat) == (k + t) % n
            &&& y_even(g_mul((k + t) % n)) ==> bip340_valid(key.public@, x, msg, r, s as nat)
        }),
{
    let n = group_order() as int;
    let k = nonce_of(key, msg, aux) as int;
    let x = key.secret.val() as int;
    let t = adaptor_key.secret.val() as int;
    let e = challenge(point_x(g_mul((k + t) % n)), point_x(key.public@), msg) as int;
    lemma_cancel(n, k, t, e, x);
    lemma_cancel(n, k, 0, e, x);
    lemma_small_mod(k as nat, n as nat);
}

/// Extraction from a repaired signature and its pre-signature gives back
/// exactly the adaptor secret `t`: `s − s' = t` is non-zero and below the
/// order.
pub proof fn lemma_extract_recovers(
    key: SigningKey,
    adaptor_key: SigningKey,
    aux: Seq<u8>,
    msg: Seq<u8>,
    pre: Signature,
    sig: Signature,
)
    requires
        key.wf(),
        adaptor_key.wf(),
        presigned(key, aux, adaptor_key.secret.val() as int, msg, pre),
        be_val(sig.s@) == (be_val(pre.s@) + adaptor_key.secret.val()) % group_order(),
    ensures
        be_val(sig.s@) < group_order(),
        be_val(pre.s@) < group_order(),
        be_val(sig.s@) != be_val(pre.s@),
        (be_val(sig.s@) + group_order() - be_val(pre.s@)) % (group_order() as int)
            == adaptor_key.secret.val(),
{
    let n = group_order() as int;
    let sp = be_val(pre.s@) as int;
    let t = adaptor_key.secret.val() as int;
    lemma_fundamental_div_mod(sp + t, n);
    if sp + t >= n {
        lemma_fundamental_div_mod_converse(sp + t, n, 1, sp + t - n);
        lemma_fundamental_div_mod_converse(sp + t - n + n - sp, n, 0, t);
    } else {
        lemma_small_mod((sp + t) as nat, n as nat);
        lemma_fundamental_div_mod_converse(sp + t + n - sp, n, 1, t);
    }
}

/// A pre-signature whose scalar is changed to any other value below the
/// order, with the same nonce x-coordinate, fails the adaptor relation, so
/// repair rejects it.
pub proof fn lemma_corrupted_rejected(
    key: SigningKey,
    adaptor_key: SigningKey,
    aux: Seq<u8>,
    msg: Seq<u8>,
    pre: Signature,
    bad: Signature,
)
    requires
        key.wf(),
        adaptor_key.wf(),
        presigned(key, aux, adaptor_key.secret.val() as int, msg, pre),
        bad.r@ == pre.r@,
        be_val(bad.s@) < group_order(),
        be_val(bad.s@) != be_val(pre.s@),
    ensures
        lifts(bad.r@, nonce_of(key, msg, aux) as int),
        !adaptor_holds(
            key.public@,
            key.secret.val() as int,
            msg,
            be_val(bad.s@),
            adaptor_key.secret.val() as int,
            nonce_of(key, msg, aux) as int,
        ),
{
    let n = group_order() as int;
    let k = nonce_of(key, msg, aux) as int;
    let x = key.secret.val() as int;
    let t = adaptor_key.secret.val() as int;
    let e = challenge(point_x(g_mul((k + t) % n)), point_x(key.public@), msg) as int;
    lemma_repair_completes(key, adaptor_key, aux, msg, pre);
    if adaptor_holds(key.public@, x, msg, be_val(bad.s@), t, k) {
        lemma_add_cancel(n, be_val(bad.s@) as int, be_val(pre.s@) as int, x * ((n - e) % n));
    }
}

/// Pre-signing is deterministic: the same key, auxiliary randomness, adaptor
/// point and message give byte-identical pre-signatures.
pub proof fn lemma_presign_deterministic(
    key: SigningKey,
    aux: Seq<u8>,
    tl: int,
    msg: Seq<u8>,
    pre1: Signature,
    pre2: Signature,
)
    requires
        presigned(key, aux, tl, msg, pre1),
        presigned(key, aux, tl, msg, pre2),
    ensures
        pre1.r@ == pre2.r@,
        pre1.s@ == pre2.s@,
{
    lemma_be_val_injective(pre1.s@, pre2.s@);
}

} // verus!
