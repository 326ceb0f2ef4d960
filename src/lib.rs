//! Hierarchical-deterministic key derivation and Schnorr signing for two
//! algorithm families: BIP340 Schnorr over secp256k1 and Ed25519.
//!
//! Every caller obtains keys derived from one root seed per key identifier and
//! a derivation path whose first step is always the caller's identity.

pub mod api;
pub mod crypto;
pub mod ed25519;
pub mod keys;
pub mod path;
pub mod registry;
pub mod secp256k1;

pub use api::{
    PublicKeyStep, SchnorrError, SchnorrPublicKeyArgs, SchnorrPublicKeyResult, SignStep,
    SignWithSchnorrArgs, SignWithSchnorrResult,
};
pub use ed25519::derive_ed25519_private_key;
pub use keys::{SchnorrAlgorithm, SchnorrKeyId, SchnorrKeyIds};
pub use path::{to_derivation_indexes, DerivationIndex};
pub use registry::KeyRegistry;
