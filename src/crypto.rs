//! The cryptographic primitives this library calls, with what it relies on.

use ed25519_dalek::Signer;
use vstd::prelude::*;

verus! {

/// HMAC-SHA512 of `data` under `key`.
pub uninterp spec fn hmac_sha512_of(key: Seq<u8>, data: Seq<u8>) -> Seq<u8>;

/// SHA-256 digest of a message.
pub uninterp spec fn sha256_of(message: Seq<u8>) -> Seq<u8>;

/// The BIP32 master private key of a seed, or `None` where the seed's
/// HMAC output is not a valid secp256k1 scalar.
pub uninterp spec fn bip32_master_key_of(seed: Seq<u8>) -> Option<Seq<u8>>;

/// The SEC1-compressed secp256k1 public key of a secret key, or `None` where
/// the bytes are not a valid secret key.
pub uninterp spec fn secp256k1_public_key_of(secret: Seq<u8>) -> Option<Seq<u8>>;

/// The BIP340 Schnorr signature of a 32-byte digest, made without auxiliary
/// randomness.
pub uninterp spec fn bip340_signature_of(secret: Seq<u8>, digest: Seq<u8>) -> Seq<u8>;

/// The Ed25519 public key of a 32-byte signing secret.
pub uninterp spec fn ed25519_public_key_of(secret: Seq<u8>) -> Seq<u8>;

/// The Ed25519 signature of a message.
pub uninterp spec fn ed25519_signature_of(secret: Seq<u8>, message: Seq<u8>) -> Seq<u8>;

/// Relies on `hmac_sha512::HMAC::mac`: a 64-byte tag that depends on the key
/// and the data alone.
#[verifier::external_body]
pub(crate) fn hmac_sha512(key: &[u8], data: &[u8]) -> (r: Vec<u8>)
    ensures
        r@ == hmac_sha512_of(key@, data@),
        r@.len() == 64,
{
    hmac_sha512::HMAC::mac(data, key).to_vec()
}

/// Relies on `bitcoin_hashes::sha256::Hash::hash`: a 32-byte digest of the
/// message.
#[verifier::external_body]
pub(crate) fn sha256(message: &[u8]) -> (r: Vec<u8>)
    ensures
        r@ == sha256_of(message@),
        r@.len() == 32,
{
    let digest = <bitcoin_hashes::sha256::Hash as bitcoin_hashes::Hash>::hash(message);
    <bitcoin_hashes::sha256::Hash as bitcoin_hashes::Hash>::to_byte_array(digest).to_vec()
}

/// Relies on `bip32::XPrv::new`: for a 64-byte seed it fails only where the
/// left half of the seed's HMAC is no valid scalar; otherwise the 32 bytes of
/// the master private key.
#[verifier::external_body]
pub(crate) fn bip32_master_key(seed: &[u8]) -> (r: Option<Vec<u8>>)
    requires
        seed@.len() == 64,
    ensures
        r matches Some(k) ==> bip32_master_key_of(seed@) == Some(k@) && k@.len() == 32,
        r is None ==> bip32_master_key_of(seed@) is None,
{
    match bip32::XPrv::new(seed) {
        Ok(xprv) => Some(xprv.private_key().to_bytes().to_vec()),
        Err(_) => None,
    }
}

/// Relies on `bitcoin::key::UntweakedKeypair::from_seckey_slice`, then the
/// keypair's SEC1-compressed public key: 33 bytes, or `None` for bytes that
/// are no valid secret key.
#[verifier::external_body]
pub(crate) fn secp256k1_public_key(secret: &[u8]) -> (r: Option<Vec<u8>>)
    ensures
        r matches Some(k) ==> secp256k1_public_key_of(secret@) == Some(k@) && k@.len() == 33,
        r is None ==> secp256k1_public_key_of(secret@) is None,
{
    let secp = bitcoin::secp256k1::Secp256k1::new();
    match bitcoin::key::UntweakedKeypair::from_seckey_slice(&secp, secret) {
        Ok(pair) => Some(pair.public_key().serialize().to_vec()),
        Err(_) => None,
    }
}

/// Relies on `Secp256k1::sign_schnorr_no_aux_rand`: a deterministic 64-byte
/// BIP340 signature of a 32-byte digest under a valid secret key.
#[verifier::external_body]
pub(crate) fn bip340_sign(secret: &[u8], digest: &[u8]) -> (r: Vec<u8>)
    requires
        secp256k1_public_key_of(secret@) is Some,
        digest@.len() == 32,
    ensures
        r@ == bip340_signature_of(secret@, digest@),
        r@.len() == 64,
{
    let secp = bitcoin::secp256k1::Secp256k1::new();
    let pair = bitcoin::key::UntweakedKeypair::from_seckey_slice(&secp, secret).unwrap();
    let message = bitcoin::secp256k1::Message::from_digest_slice(digest).unwrap();
    secp.sign_schnorr_no_aux_rand(&message, &pair).serialize().to_vec()
}

/// Relies on `ed25519_dalek::SigningKey::from_bytes` and `VerifyingKey::from`:
/// the 32-byte public key of a 32-byte secret.
#[verifier::external_body]
pub(crate) fn ed25519_public_key(secret: &[u8]) -> (r: Vec<u8>)
    requires
        secret@.len() == 32,
    ensures
        r@ == ed25519_public_key_of(secret@),
        r@.len() == 32,
{
    let bytes: [u8; 32] = secret.try_into().unwrap();
    let key = ed25519_dalek::SigningKey::from_bytes(&bytes);
    ed25519_dalek::VerifyingKey::from(&key).to_bytes().to_vec()
}

/// Relies on `ed25519_dalek::SigningKey::sign`: a deterministic 64-byte
/// signature of the message under a 32-byte secret.
#[verifier::external_body]
pub(crate) fn ed25519_sign(secret: &[u8], message: &[u8]) -> (r: Vec<u8>)
    requires
        secret@.len() == 32,
    ensures
        r@ == ed25519_signature_of(secret@, message@),
        r@.len() == 64,
{
    let bytes: [u8; 32] = secret.try_into().unwrap();
    ed25519_dalek::SigningKey::from_bytes(&bytes).sign(message).to_bytes().to_vec()
}

} // verus!
