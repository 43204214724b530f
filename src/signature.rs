//! The three roles of the adaptor protocol, as traits.
use vstd::prelude::*;
use crate::curve::Scalar;
use crate::error::SchnorrError;
use crate::keys::{Signature, SigningKey, VerifyingKey};

verus! {

/// A signer that can pre-sign a message digest against an adaptor point `T`:
/// the result `(R', s')` becomes a valid signature only once the discrete log
/// of `T` is added to `s'`.
pub trait AdaptorSigner {
    /// The signer is usable (a well-formed key).
    spec fn signer_wf(&self) -> bool;

    /// `r` is what pre-signing `msg` against `t` with randomness `aux` gives.
    spec fn presigns(&self, aux: Seq<u8>, t: VerifyingKey, msg: Seq<u8>, r: Result<Signature, SchnorrError>) -> bool;

    /// Pre-signs `msg_digest` against the even-y adaptor point `t`, with 32
    /// bytes of auxiliary randomness for the synthetic nonce.
    fn sign_with_rng(&self, aux_rand: &[u8; 32], t: &VerifyingKey, msg_digest: &[u8; 32]) -> (r:
        Result<Signature, SchnorrError>)
        requires
            self.signer_wf(),
            t.wf(),
        ensures
            self.presigns(aux_rand@, *t, msg_digest@, r),
    ;
}

/// A verifying key that can complete a pre-signature made under it into a
/// full Schnorr signature, given the adaptor secret.
pub trait RepairAdaptorSignature {
    /// The key is usable (a well-formed even-y point).
    spec fn repairer_wf(&self) -> bool;

    /// `r` is what repairing `adaptor_sig` on `msg` with `secret_key` gives.
    spec fn repairs(&self, msg: Seq<u8>, adaptor_sig: Signature, secret_key: SigningKey, r: Result<Signature, SchnorrError>) -> bool;

    /// Completes the pre-signature `adaptor_sig` on `msg_digest` with the
    /// adaptor secret held by `secret_key`.
    fn repair_signature(&self, msg_digest: &[u8; 32], adaptor_sig: &Signature, secret_key: &SigningKey) -> (r:
        Result<Signature, SchnorrError>)
        requires
            self.repairer_wf(),
            secret_key.wf(),
        ensures
            self.repairs(msg_digest@, *adaptor_sig, *secret_key, r),
    ;
}

/// A full signature from which the adaptor secret can be read off, given the
/// pre-signature it was completed from.
pub trait SecretExtractor {
    /// `r` is what extraction against `tweaked_signature` gives.
    spec fn extracts(&self, tweaked_signature: Signature, r: Result<Scalar, SchnorrError>) -> bool;

    /// Recovers the adaptor secret from this signature and the pre-signature
    /// `tweaked_signature`.
    fn extract_secret(&self, tweaked_signature: &Signature) -> (r: Result<Scalar, SchnorrError>)
        ensures
            self.extracts(*tweaked_signature, r),
    ;
}

} // verus!
