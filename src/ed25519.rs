//! Ed25519 key derivation built directly on HMAC-SHA512.
//!
//! This scheme is not SLIP-0010. The root state is HMAC-SHA512 of the seed
//! under the key "ed25519 seed". Each path step folds a hardened 4-byte index
//! into the state. The index is the first four bytes of the SHA-256 digest of
//! the whole step, read big-endian, with the top bit then set. Every byte of a
//! step thus takes part in the index.

use crate::api::{SchnorrPublicKeyResult, SignWithSchnorrResult};
use crate::crypto::{
    ed25519_public_key, ed25519_public_key_of, ed25519_sign, ed25519_signature_of, hmac_sha512,
    hmac_sha512_of, sha256, sha256_of,
};
use crate::path::{path_view, DerivationIndex};
use vstd::prelude::*;

verus! {

/// The ASCII bytes of "ed25519 seed", the key of the root HMAC.
pub open spec fn ed25519_seed_key() -> Seq<u8> {
    seq![101u8, 100, 50, 53, 53, 49, 57, 32, 115, 101, 101, 100]
}

/// The hardened index of a step in big-endian order: the first four bytes
/// of the step's SHA-256 digest, with the top bit set.
pub open spec fn hardened_index_bytes(step: Seq<u8>) -> Seq<u8> {
    let d = sha256_of(step);
    seq![d[0] | 0x80u8, d[1], d[2], d[3]]
}

/// The 37-byte HMAC message of one step: a zero byte, the left half of the
/// parent state, and the hardened index.
pub open spec fn child_message(parent: Seq<u8>, step: Seq<u8>) -> Seq<u8> {
    seq![0u8] + parent.subrange(0, 32) + hardened_index_bytes(step)
}

/// The 64-byte state after the whole path.
pub open spec fn ed25519_state(seed: Seq<u8>, path: Seq<Seq<u8>>) -> Seq<u8>
    decreases path.len(),
{
    if path.len() == 0 {
        hmac_sha512_of(ed25519_seed_key(), seed)
    } else {
        let parent = ed25519_state(seed, path.drop_last());
        hmac_sha512_of(parent.subrange(32, 64), child_message(parent, path.last()))
    }
}

/// The derived signing secret: the left half of the final state.
pub open spec fn ed25519_secret(seed: Seq<u8>, path: Seq<Seq<u8>>) -> Seq<u8> {
    ed25519_state(seed, path).subrange(0, 32)
}

/// The derived chain code: the right half of the final state.
pub open spec fn ed25519_chain_code(seed: Seq<u8>, path: Seq<Seq<u8>>) -> Seq<u8> {
    ed25519_state(seed, path).subrange(32, 64)
}

/// Derivation is deterministic: one seed and the same steps give the same
/// secret, chain code, public key and signatures, whichever values carry the
/// steps.
pub proof fn lemma_ed25519_deterministic(
    seed: Seq<u8>,
    a: Seq<DerivationIndex>,
    b: Seq<DerivationIndex>,
    message: Seq<u8>,
)
    requires
        path_view(a) == path_view(b),
    ensures
        ed25519_secret(seed, path_view(a)) == ed25519_secret(seed, path_view(b)),
        ed25519_chain_code(seed, path_view(a)) == ed25519_chain_code(seed, path_view(b)),
        ed25519_public_key_of(ed25519_secret(seed, path_view(a))) == ed25519_public_key_of(
            ed25519_secret(seed, path_view(b)),
        ),
        ed25519_signature_of(ed25519_secret(seed, path_view(a)), message) == ed25519_signature_of(
            ed25519_secret(seed, path_view(b)),
            message,
        ),
{
}

/// The bytes `lo..hi` of `v`.
fn byte_range(v: &Vec<u8>, lo: usize, hi: usize) -> (r: Vec<u8>)
    requires
        lo <= hi <= v@.len(),
    ensures
        r@ == v@.subrange(lo as int, hi as int),
{
    let mut r: Vec<u8> = Vec::new();
    let mut i: usize = lo;
    while i < hi
        invariant
            lo <= i <= hi <= v@.len(),
            r@ == v@.subrange(lo as int, i as int),
        decreases hi - i,
    {
        r.push(v[i]);
        i = i + 1;
        assert(r@ =~= v@.subrange(lo as int, i as int));
    }
    r
}

/// Builds the HMAC message of one step.
fn child_message_bytes(parent: &Vec<u8>, step: &Vec<u8>) -> (r: Vec<u8>)
    requires
        parent@.len() == 64,
    ensures
        r@ == child_message(parent@, step@),
        r@.len() == 37,
{
    let mut data: Vec<u8> = Vec::new();
    data.push(0u8);
    let mut i: usize = 0;
    while i < 32
        invariant
            i <= 32,
            parent@.len() == 64,
            data@ == seq![0u8] + parent@.subrange(0, i as int),
        decreases 32 - i,
    {
        data.push(parent[i]);
        i = i + 1;
        assert(data@ =~= seq![0u8] + parent@.subrange(0, i as int));
    }
    let digest = sha256(step.as_slice());
    data.push(digest[0] | 0x80u8);
    data.push(digest[1]);
    data.push(digest[2]);
    data.push(digest[3]);
    assert(data@ =~= child_message(parent@, step@));
    data
}

/// The ASCII bytes of "ed25519 seed".
fn ed25519_seed_key_bytes() -> (r: Vec<u8>)
    ensures
        r@ == ed25519_seed_key(),
{
    let r: Vec<u8> = vec![101u8, 100, 50, 53, 53, 49, 57, 32, 115, 101, 101, 100];
    assert(r@ =~= ed25519_seed_key());
    r
}

/// Derives the Ed25519 signing secret and chain code of `path` from `seed`.
pub fn derive_ed25519_private_key(seed: &[u8], path: Vec<DerivationIndex>) -> (r: (
    Vec<u8>,
    Vec<u8>,
))
    ensures
        r.0@ == ed25519_secret(seed@, path_view(path@)),
        r.1@ == ed25519_chain_code(seed@, path_view(path@)),
        ed25519_state(seed@, path_view(path@)).len() == 64,
        r.0@.len() == 32,
        r.1@.len() == 32,
{
    let key = ed25519_seed_key_bytes();
    let mut x = hmac_sha512(key.as_slice(), seed);
    let ghost steps = path_view(path@);
    assert(steps.take(0) =~= Seq::<Seq<u8>>::empty());
    let mut i: usize = 0;
    while i < path.len()
        invariant
            i <= path@.len(),
            steps == path_view(path@),
            x@ == ed25519_state(seed@, steps.take(i as int)),
            x@.len() == 64,
        decreases path@.len() - i,
    {
        let data = child_message_bytes(&x, &path[i].0);
        let chain = byte_range(&x, 32, 64);
        x = hmac_sha512(chain.as_slice(), data.as_slice());
        proof {
            assert(steps.take(i + 1).drop_last() =~= steps.take(i as int));
            assert(steps.take(i + 1).last() == path@[i as int]@);
        }
        i = i + 1;
    }
    assert(steps.take(i as int) =~= steps);
    (byte_range(&x, 0, 32), byte_range(&x, 32, 64))
}

/// The public key and chain code of `path`. The secret is derived first:
/// this scheme has no derivation from a public key alone.
pub fn schnorr_public_key_ed25519(seed: &[u8], indexes: Vec<DerivationIndex>) -> (r:
    SchnorrPublicKeyResult)
    ensures
        r.public_key@ == ed25519_public_key_of(ed25519_secret(seed@, path_view(indexes@))),
        r.chain_code@ == ed25519_chain_code(seed@, path_view(indexes@)),
        r.public_key@.len() == 32,
        r.chain_code@.len() == 32,
{
    let (secret, chain_code) = derive_ed25519_private_key(seed, indexes);
    let public_key = ed25519_public_key(secret.as_slice());
    SchnorrPublicKeyResult { public_key, chain_code }
}

/// Signs the raw message with the secret of `path`.
pub fn sign_with_schnorr_ed25519(seed: &[u8], indexes: Vec<DerivationIndex>, message: &[u8]) -> (r:
    SignWithSchnorrResult)
    ensures
        r.signature@ == ed25519_signature_of(ed25519_secret(seed@, path_view(indexes@)), message@),
        r.signature@.len() == 64,
{
    let (secret, _) = derive_ed25519_private_key(seed, indexes);
    SignWithSchnorrResult { signature: ed25519_sign(secret.as_slice(), message) }
}

} // verus!
