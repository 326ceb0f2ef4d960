//! BIP340 Schnorr over secp256k1.
//!
//! The master private key is BIP32's: the left half of HMAC-SHA512 of the
//! seed under "Bitcoin seed". Path derivation works on that key with a chain
//! code of 32 zero bytes in place of BIP32's own. Messages are signed as
//! their SHA-256 digest, without auxiliary randomness, so the same key and
//! message always give the same signature.

use crate::api::{SchnorrError, SignWithSchnorrResult};
use crate::crypto::{
    bip32_master_key, bip32_master_key_of, bip340_sign, bip340_signature_of,
    secp256k1_public_key, secp256k1_public_key_of, sha256, sha256_of,
};
use vstd::prelude::*;

verus! {

/// The public key at the root of a seed's paths, where there is one.
pub open spec fn secp256k1_master_public_of(seed: Seq<u8>) -> Option<Seq<u8>> {
    match bip32_master_key_of(seed) {
        Some(k) => secp256k1_public_key_of(k),
        None => None,
    }
}

/// The working chain code at the root of every path: 32 zero bytes.
pub open spec fn spec_master_chain_code() -> Seq<u8> {
    Seq::new(32, |i: int| 0u8)
}

/// The working chain code at the root of every path.
pub fn master_chain_code() -> (r: Vec<u8>)
    ensures
        r@ == spec_master_chain_code(),
{
    let mut r: Vec<u8> = Vec::new();
    let mut i: usize = 0;
    while i < 32
        invariant
            i <= 32,
            r@ == Seq::new(i as nat, |j: int| 0u8),
        decreases 32 - i,
    {
        r.push(0u8);
        i = i + 1;
        assert(r@ =~= Seq::new(i as nat, |j: int| 0u8));
    }
    r
}

/// The master private key of a seed: `MalformedInput` unless the seed has
/// 64 bytes, `DerivationFailure` where BIP32 gives no valid key.
pub fn secp256k1_master_private_key(seed: &[u8]) -> (r: Result<Vec<u8>, SchnorrError>)
    ensures
        seed@.len() != 64 ==> r == Err::<Vec<u8>, SchnorrError>(SchnorrError::MalformedInput),
        seed@.len() == 64 ==> match bip32_master_key_of(seed@) {
            Some(k) => r matches Ok(v) && v@ == k,
            None => r == Err::<Vec<u8>, SchnorrError>(SchnorrError::DerivationFailure),
        },
{
    if seed.len() != 64 {
        return Err(SchnorrError::MalformedInput);
    }
    match bip32_master_key(seed) {
        Some(k) => Ok(k),
        None => Err(SchnorrError::DerivationFailure),
    }
}

/// The SEC1-compressed public key of a private key, or `DerivationFailure`
/// where the bytes are no valid secret key.
pub fn secp256k1_public_key_from_private(private_key: &[u8]) -> (r: Result<
    Vec<u8>,
    SchnorrError,
>)
    ensures
        match secp256k1_public_key_of(private_key@) {
            Some(k) => r matches Ok(v) && v@ == k,
            None => r == Err::<Vec<u8>, SchnorrError>(SchnorrError::DerivationFailure),
        },
{
    match secp256k1_public_key(private_key) {
        Some(k) => Ok(k),
        None => Err(SchnorrError::DerivationFailure),
    }
}

/// The public key at the root of a seed's paths.
pub fn secp256k1_master_public_key(seed: &[u8]) -> (r: Result<Vec<u8>, SchnorrError>)
    ensures
        seed@.len() != 64 ==> r == Err::<Vec<u8>, SchnorrError>(SchnorrError::MalformedInput),
        seed@.len() == 64 ==> match bip32_master_key_of(seed@) {
            None => r == Err::<Vec<u8>, SchnorrError>(SchnorrError::DerivationFailure),
            Some(k) => match secp256k1_public_key_of(k) {
                Some(p) => r matches Ok(v) && v@ == p,
                None => r == Err::<Vec<u8>, SchnorrError>(SchnorrError::DerivationFailure),
            },
        },
{
    let private_key = secp256k1_master_private_key(seed)?;
    secp256k1_public_key_from_private(private_key.as_slice())
}

/// Signs the SHA-256 digest of `message` under a derived private key.
pub fn sign_bip340(private_key: &[u8], message: &[u8]) -> (r: Result<
    SignWithSchnorrResult,
    SchnorrError,
>)
    ensures
        secp256k1_public_key_of(private_key@) is None ==> r == Err::<
            SignWithSchnorrResult,
            SchnorrError,
        >(SchnorrError::DerivationFailure),
        secp256k1_public_key_of(private_key@) is Some ==> (r matches Ok(s) && s.signature@
            == bip340_signature_of(private_key@, sha256_of(message@))),
{
    match secp256k1_public_key(private_key) {
        None => Err(SchnorrError::DerivationFailure),
        Some(_) => {
            let digest = sha256(message);
            let signature = bip340_sign(private_key, digest.as_slice());
            Ok(SignWithSchnorrResult { signature })
        },
    }
}

} // verus!
