//! Schnorr adaptor signatures over secp256k1, in the BIP-340 (x-only) style.
//!
//! The curve arithmetic, scalar arithmetic and SHA-256 come from `k256`; this
//! crate orchestrates them into the adaptor protocol: synthetic nonce
//! derivation, pre-signing, repair of a pre-signature with the adaptor secret,
//! and extraction of that secret from a pre-signature and its repaired form.
pub mod error;
pub mod curve;
pub mod keys;
pub mod random;
pub mod signature;
pub mod adaptor;
pub mod laws;
