use k256::elliptic_curve::sec1::ToEncodedPoint;
use k256::schnorr::signature::hazmat::PrehashVerifier;
use k256::sha2::{Digest, Sha256};
use schnorr_rs::error::SchnorrError;
use schnorr_rs::keys::{Signature, SigningKey, VerifyingKey};
use schnorr_rs::random::{synthetic_random, tagged_hash};
use schnorr_rs::signature::{AdaptorSigner, RepairAdaptorSignature, SecretExtractor};

fn key(fill: u8) -> SigningKey {
    SigningKey::from_bytes(&[fill; 32]).expect("valid secret key")
}

fn hello_digest() -> [u8; 32] {
    Sha256::new().chain_update(b"hello").finalize().into()
}

fn k256_verifies(vk: &VerifyingKey, msg: &[u8; 32], sig: &Signature) -> bool {
    let k_vk = k256::schnorr::VerifyingKey::from_bytes(&vk.to_bytes()).expect("x-only key");
    match k256::schnorr::Signature::try_from(&sig.to_bytes()[..]) {
        Ok(k_sig) => k_vk.verify_prehash(msg, &k_sig).is_ok(),
        Err(_) => false,
    }
}

/// Whether the combined nonce `R = R' + T` of a pre-signature has even y.
fn combined_nonce_even(pre: &Signature, t: &VerifyingKey) -> bool {
    let r_star = k256::schnorr::VerifyingKey::from_bytes(&pre.r).expect("nonce lifts");
    let t_point = k256::schnorr::VerifyingKey::from_bytes(&t.to_bytes()).expect("adaptor point");
    let sum = k256::ProjectivePoint::from(*r_star.as_affine()) + t_point.as_affine();
    sum.to_affine().to_encoded_point(true).as_bytes()[0] == 2
}

#[test]
fn test_adaptor_repair() {
    let alice_signin_key = key(0x11);
    let bob_secret_key = key(0x22);
    let bob_secret_pubkey = bob_secret_key.verifying_key();
    let harshed = hello_digest();
    let verify_key = alice_signin_key.verifying_key();

    let mut seen_even = false;
    for seed in 0u8..16 {
        let aux = [seed; 32];
        let tweaked_signature = alice_signin_key
            .sign_with_rng(&aux, &bob_secret_pubkey, &harshed)
            .expect("Sign");

        assert!(
            !k256_verifies(&verify_key, &harshed, &tweaked_signature),
            "Tweaked signature must not passed"
        );

        let signature = verify_key
            .repair_signature(&harshed, &tweaked_signature, &bob_secret_key)
            .expect("Repair");

        let even = combined_nonce_even(&tweaked_signature, &bob_secret_pubkey);
        assert_eq!(k256_verifies(&verify_key, &harshed, &signature), even, "Success");
        seen_even |= even;

        let secret = signature
            .extract_secret(&tweaked_signature)
            .expect("extract secret");

        assert_eq!(secret.bytes, bob_secret_key.to_bytes(), "Shared secret");
    }
    assert!(seen_even);
}

#[test]
fn presignature_is_deterministic() {
    let a = key(0x05);
    let b = key(0x07).verifying_key();
    let msg = hello_digest();
    let p1 = a.sign_with_rng(&[9; 32], &b, &msg).unwrap();
    let p2 = a.sign_with_rng(&[9; 32], &b, &msg).unwrap();
    assert_eq!(p1.to_bytes(), p2.to_bytes());
    let p3 = a.sign_with_rng(&[10; 32], &b, &msg).unwrap();
    assert_ne!(p1.to_bytes(), p3.to_bytes());
}

#[test]
fn repair_with_wrong_adaptor_secret_fails() {
    let a = key(0x31);
    let b = key(0x32);
    let wrong = key(0x33);
    let msg = hello_digest();
    let pre = a.sign_with_rng(&[1; 32], &b.verifying_key(), &msg).unwrap();
    let r = a.verifying_key().repair_signature(&msg, &pre, &wrong);
    assert_eq!(r.unwrap_err(), SchnorrError::IncorrectAdaptorSig);
}

#[test]
fn repair_with_corrupted_scalar_fails() {
    let a = key(0x41);
    let b = key(0x42);
    let msg = hello_digest();
    let mut pre = a.sign_with_rng(&[2; 32], &b.verifying_key(), &msg).unwrap();
    pre.s[31] ^= 1;
    let r = a.verifying_key().repair_signature(&msg, &pre, &b);
    assert_eq!(r.unwrap_err(), SchnorrError::IncorrectAdaptorSig);
}

#[test]
fn repair_rejects_bad_encodings() {
    let a = key(0x51);
    let b = key(0x52);
    let msg = hello_digest();
    let pre = a.sign_with_rng(&[3; 32], &b.verifying_key(), &msg).unwrap();
    let mut no_point = pre;
    no_point.r = [0xff; 32];
    let r = a.verifying_key().repair_signature(&msg, &no_point, &b);
    assert_eq!(r.unwrap_err(), SchnorrError::InvalidEncoding);
    let mut big_s = pre;
    big_s.s = [0xff; 32];
    let r = a.verifying_key().repair_signature(&msg, &big_s, &b);
    assert_eq!(r.unwrap_err(), SchnorrError::InvalidEncoding);
}

#[test]
fn extract_rejects_equal_scalars() {
    let a = key(0x61);
    let b = key(0x62);
    let msg = hello_digest();
    let pre = a.sign_with_rng(&[4; 32], &b.verifying_key(), &msg).unwrap();
    assert_eq!(pre.extract_secret(&pre).unwrap_err(), SchnorrError::NonZeroScalar);
}

#[test]
fn extract_is_scalar_difference() {
    let mut s = [0u8; 32];
    s[31] = 10;
    let mut s_pre = [0u8; 32];
    s_pre[31] = 3;
    let sig = Signature { r: [1; 32], s };
    let pre = Signature { r: [2; 32], s: s_pre };
    let mut seven = [0u8; 32];
    seven[31] = 7;
    assert_eq!(sig.extract_secret(&pre).unwrap().bytes, seven);
    // 3 - 10 wraps modulo the group order n to n - 7.
    let n_minus_7: [u8; 32] = [
        0xFF, 0xFF, 0xFF, 0xFF, 0xFF, 0xFF, 0xFF, 0xFF, 0xFF, 0xFF, 0xFF, 0xFF, 0xFF, 0xFF, 0xFF,
        0xFE, 0xBA, 0xAE, 0xDC, 0xE6, 0xAF, 0x48, 0xA0, 0x3B, 0xBF, 0xD2, 0x5E, 0x8C, 0xD0, 0x36,
        0x41, 0x3A,
    ];
    assert_eq!(pre.extract_secret(&sig).unwrap().bytes, n_minus_7);
    let big = Signature { r: [1; 32], s: [0xff; 32] };
    assert_eq!(big.extract_secret(&pre).unwrap_err(), SchnorrError::InvalidEncoding);
}

#[test]
fn signing_key_rejects_zero_and_overflow() {
    assert_eq!(SigningKey::from_bytes(&[0; 32]).unwrap_err(), SchnorrError::InvalidEncoding);
    assert_eq!(SigningKey::from_bytes(&[0xff; 32]).unwrap_err(), SchnorrError::InvalidEncoding);
}

#[test]
fn signing_key_matches_k256_normalisation() {
    let bytes = [0x77u8; 32];
    let ours = SigningKey::from_bytes(&bytes).unwrap();
    let theirs = k256::schnorr::SigningKey::from_bytes(&bytes).unwrap();
    let expected: [u8; 32] = theirs.to_bytes().into();
    let expected_x: [u8; 32] = theirs.verifying_key().to_bytes().into();
    assert_eq!(ours.to_bytes(), expected);
    assert_eq!(ours.verifying_key().to_bytes(), expected_x);
}

#[test]
fn verifying_key_from_x_only_bytes() {
    let vk = key(0x12).verifying_key();
    let again = VerifyingKey::from_bytes(&vk.to_bytes()).unwrap();
    assert_eq!(again.to_bytes(), vk.to_bytes());
    assert_eq!(VerifyingKey::from_bytes(&[0xff; 32]).unwrap_err(), SchnorrError::InvalidEncoding);
}

#[test]
fn tagged_hash_is_bip340_construction() {
    let tag = b"BIP0340/challenge";
    let msg = b"some message bytes";
    let th = Sha256::digest(tag);
    let expected: [u8; 32] = Sha256::new()
        .chain_update(th)
        .chain_update(th)
        .chain_update(msg)
        .finalize()
        .into();
    assert_eq!(tagged_hash(tag, msg), expected);
    assert_ne!(tagged_hash(tag, msg), tagged_hash(b"BIP0340/aux", msg));
}

#[test]
fn synthetic_nonce_matches_bip340_signing() {
    // BIP-340 signing with the same key, digest and auxiliary randomness
    // derives the same nonce, so its `r` is the x-coordinate of our nonce point.
    let bytes = [0x2au8; 32];
    let aux = [0x5cu8; 32];
    let msg = hello_digest();
    let ours = SigningKey::from_bytes(&bytes).unwrap();
    let nonce = synthetic_random(&ours, &msg, &aux).unwrap();
    let theirs = k256::schnorr::SigningKey::from_bytes(&bytes).unwrap();
    let sig = theirs.sign_prehash_with_aux_rand(&msg, &aux).unwrap();
    assert_eq!(&sig.to_bytes()[..32], &nonce.public.x_bytes()[..]);
}

#[test]
fn signature_bytes_round_trip() {
    let mut b = [0u8; 64];
    for (i, v) in b.iter_mut().enumerate() {
        *v = i as u8;
    }
    let sig = Signature::from_bytes(&b);
    assert_eq!(sig.r[0], 0);
    assert_eq!(sig.s[0], 32);
    assert_eq!(sig.to_bytes(), b);
}

#[test]
fn error_messages() {
    assert_eq!(SchnorrError::IncorrectAdaptorSig.message(), "Target is not a correct adaptor signature");
    assert_eq!(SchnorrError::NonZeroScalar.message(), "Secret value must be non zero");
}
