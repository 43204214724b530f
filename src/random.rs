//! BIP-340 tagged hashing and the synthetic nonce derivation.
use vstd::prelude::*;
use crate::curve::{be_val, g_mul, group_order, point_x, scalar_reduce, y_even};
use crate::error::SchnorrError;
use crate::keys::SigningKey;
use k256::sha2::Digest;

verus! {

/// SHA-256 of `data`.
pub uninterp spec fn sha256_of(data: Seq<u8>) -> Seq<u8>;

/// Relies on `Sha256::digest`: the 32-byte SHA-256 digest of `data`.
#[verifier::external_body]
fn sha256(data: &[u8]) -> (r: [u8; 32])
    ensures
        r@ == sha256_of(data@),
{
    k256::sha2::Sha256::digest(data).into()
}

/// `"BIP0340/aux"`.
pub open spec fn aux_tag() -> Seq<u8> {
    seq![66u8, 73, 80, 48, 51, 52, 48, 47, 97, 117, 120]
}

/// `"BIP0340/nonce"`.
pub open spec fn nonce_tag() -> Seq<u8> {
    seq![66u8, 73, 80, 48, 51, 52, 48, 47, 110, 111, 110, 99, 101]
}

/// `"BIP0340/challenge"`.
pub open spec fn challenge_tag() -> Seq<u8> {
    seq![66u8, 73, 80, 48, 51, 52, 48, 47, 99, 104, 97, 108, 108, 101, 110, 103, 101]
}

/// The tag `"BIP0340/aux"` as bytes.
pub fn aux_tag_bytes() -> (r: Vec<u8>)
    ensures
        r@ == aux_tag(),
{
    let r = vec![66u8, 73, 80, 48, 51, 52, 48, 47, 97, 117, 120];
    assert(r@ == aux_tag());
    r
}

/// The tag `"BIP0340/nonce"` as bytes.
pub fn nonce_tag_bytes() -> (r: Vec<u8>)
    ensures
        r@ == nonce_tag(),
{
    let r = vec![66u8, 73, 80, 48, 51, 52, 48, 47, 110, 111, 110, 99, 101];
    assert(r@ == nonce_tag());
    r
}

/// The tag `"BIP0340/challenge"` as bytes.
pub fn challenge_tag_bytes() -> (r: Vec<u8>)
    ensures
        r@ == challenge_tag(),
{
    let r = vec![66u8, 73, 80, 48, 51, 52, 48, 47, 99, 104, 97, 108, 108, 101, 110, 103, 101];
    assert(r@ == challenge_tag());
    r
}

/// BIP-340 tagged hash: `SHA256(SHA256(tag) ‖ SHA256(tag) ‖ msg)`.
pub open spec fn tagged(tag: Seq<u8>, msg: Seq<u8>) -> Seq<u8> {
    sha256_of(sha256_of(tag) + sha256_of(tag) + msg)
}

/// Appends `s` to `v`.
pub fn append_bytes(v: &mut Vec<u8>, s: &[u8])
    ensures
        final(v)@ == old(v)@ + s@,
{
    let ghost start = v@;
    let mut i: usize = 0;
    while i < s.len()
        invariant
            i <= s@.len(),
            v@ == start + s@.subrange(0, i as int),
        decreases s@.len() - i,
    {
        v.push(s[i]);
        i = i + 1;
    }
    assert(s@.subrange(0, s@.len() as int) == s@);
}

/// The tagged hash of `msg` under the domain-separation tag `tag`.
pub fn tagged_hash(tag: &[u8], msg: &[u8]) -> (r: [u8; 32])
    ensures
        r@ == tagged(tag@, msg@),
{
    let th = sha256(tag);
    let mut data: Vec<u8> = Vec::new();
    append_bytes(&mut data, &th);
    append_bytes(&mut data, &th);
    append_bytes(&mut data, msg);
    assert(data@ == sha256_of(tag@) + sha256_of(tag@) + msg@);
    sha256(data.as_slice())
}

/// Byte-wise exclusive or of two 32-byte strings.
pub open spec fn xor32(a: Seq<u8>, b: Seq<u8>) -> Seq<u8> {
    Seq::new(32, |i: int| a[i] ^ b[i])
}

/// The nonce seed `H_nonce(H_aux(aux) ⊕ x ‖ P_x ‖ m)`.
pub open spec fn nonce_seed(key: SigningKey, msg: Seq<u8>, aux: Seq<u8>) -> Seq<u8> {
    tagged(nonce_tag(), xor32(tagged(aux_tag(), aux), key.secret.bytes@) + point_x(key.public@) + msg)
}

/// The nonce seed reduced modulo the group order.
pub open spec fn nonce_val(key: SigningKey, msg: Seq<u8>, aux: Seq<u8>) -> nat {
    be_val(nonce_seed(key, msg, aux)) % group_order()
}

/// A non-zero scalar, or its negation where its multiple of `G` has odd y.
pub open spec fn even_val(v: nat) -> nat {
    if y_even(g_mul(v as int)) {
        v
    } else {
        (group_order() - v) as nat
    }
}

/// Derives the synthetic nonce key `k'` from the signer's key, the message
/// digest and 32 bytes of auxiliary randomness; its point `k'·G` has even y.
pub fn synthetic_random(secret_key: &SigningKey, msg_digest: &[u8; 32], aux_rand: &[u8; 32]) -> (r:
    Result<SigningKey, SchnorrError>)
    requires
        secret_key.wf(),
    ensures
        r is Err <==> nonce_val(*secret_key, msg_digest@, aux_rand@) == 0,
        r is Err ==> r == Err::<SigningKey, SchnorrError>(SchnorrError::NonZeroScalar),
        r matches Ok(k) ==> k.wf() && k.secret.val() == even_val(
            nonce_val(*secret_key, msg_digest@, aux_rand@),
        ),
{
    let aux_digest = tagged_hash(aux_tag_bytes().as_slice(), aux_rand);
    let sk = secret_key.to_bytes();
    let mut t = [0u8; 32];
    let mut i: usize = 0;
    while i < 32
        invariant
            i <= 32,
            forall|j: int| 0 <= j < i ==> t@[j] == aux_digest@[j] ^ sk@[j],
        decreases 32 - i,
    {
        t[i] = aux_digest[i] ^ sk[i];
        i = i + 1;
    }
    assert(t@ == xor32(aux_digest@, sk@));
    let px = secret_key.public.x_bytes();
    let mut data: Vec<u8> = Vec::new();
    append_bytes(&mut data, &t);
    append_bytes(&mut data, &px);
    append_bytes(&mut data, msg_digest);
    let seed = tagged_hash(nonce_tag_bytes().as_slice(), data.as_slice());
    let k = scalar_reduce(&seed);
    if crate::keys::scalar_is_zero(&k) {
        Err(SchnorrError::NonZeroScalar)
    } else {
        Ok(SigningKey::from_scalar(&k))
    }
}

} // verus!
