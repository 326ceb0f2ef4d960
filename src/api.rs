//! Requests, replies and errors of the two operations.

use crate::keys::SchnorrKeyId;
use crate::path::DerivationIndex;
use vstd::prelude::*;

verus! {

/// A request for the public key of a path.
#[derive(Debug)]
pub struct SchnorrPublicKeyArgs {
    /// The identity whose key is asked for; the caller's own when absent.
    pub canister_id: Option<Vec<u8>>,
    pub derivation_path: Vec<Vec<u8>>,
    pub key_id: SchnorrKeyId,
}

/// A derived public key and its chain code.
#[derive(Debug)]
pub struct SchnorrPublicKeyResult {
    pub public_key: Vec<u8>,
    pub chain_code: Vec<u8>,
}

/// A request to sign a message with the key of a path.
#[derive(Debug)]
pub struct SignWithSchnorrArgs {
    pub message: Vec<u8>,
    pub derivation_path: Vec<Vec<u8>>,
    pub key_id: SchnorrKeyId,
}

/// A signature.
#[derive(Debug)]
pub struct SignWithSchnorrResult {
    pub signature: Vec<u8>,
}

/// Why an operation failed. Every failure leaves the seeds and the counter
/// as they were.
#[derive(Debug, Clone, Copy, PartialEq, Eq, Structural)]
pub enum SchnorrError {
    /// No seed is stored for the requested key.
    UnknownKey,
    /// The key already has a seed, which is kept.
    AlreadyInitialized,
    /// The random bytes for a seed could not be had.
    RandomnessUnavailable,
    /// An input has the wrong length.
    MalformedInput,
    /// Key material is no valid scalar of the curve.
    DerivationFailure,
}

} // verus!

verus! {

/// What a public-key request leads to.
#[derive(Debug)]
pub enum PublicKeyStep {
    /// The key is ready.
    Ready(SchnorrPublicKeyResult),
    /// The host derives the secp256k1 public key along `path` from the master
    /// public key and the working chain code.
    DeriveSecp256k1 { master_public_key: Vec<u8>, master_chain_code: Vec<u8>, path: Vec<DerivationIndex> },
}

/// What a signing request leads to.
#[derive(Debug)]
pub enum SignStep {
    /// The message is signed and the signature counted.
    Signed(SignWithSchnorrResult),
    /// The host derives the secp256k1 private key along `path` from the master
    /// private key and the working chain code, then hands it back for signing.
    DeriveSecp256k1 { master_private_key: Vec<u8>, master_chain_code: Vec<u8>, path: Vec<DerivationIndex> },
}

} // verus!
