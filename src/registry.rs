//! The registry of root seeds and the signature counter.
//!
//! Each key identifier gets one 64-byte seed, stored once and never replaced.
//! The counter advances by one for each signature produced and for nothing
//! else.

use crate::api::{
    PublicKeyStep, SchnorrError, SchnorrPublicKeyArgs, SignStep, SignWithSchnorrArgs,
    SignWithSchnorrResult,
};
use crate::crypto::{
    bip32_master_key_of, bip340_signature_of, ed25519_public_key_of, ed25519_signature_of,
    secp256k1_public_key_of, sha256_of,
};
use crate::ed25519::{
    ed25519_chain_code, ed25519_secret, schnorr_public_key_ed25519, sign_with_schnorr_ed25519,
};
use crate::keys::SchnorrAlgorithm;
use crate::path::{full_path, path_view, steps_view, to_derivation_indexes};
use crate::secp256k1::{
    master_chain_code, secp256k1_master_private_key, secp256k1_master_public_key,
    secp256k1_master_public_of, sign_bip340, spec_master_chain_code,
};
use crate::keys::{KeyIdView, SchnorrKeyId, SchnorrKeyIds};
use crate::path::clone_bytes;
use vstd::prelude::*;

verus! {

/// The seed of the first entry with the given key.
pub open spec fn lookup(entries: Seq<(KeyIdView, Seq<u8>)>, key: KeyIdView) -> Option<Seq<u8>>
    decreases entries.len(),
{
    if entries.len() == 0 {
        None
    } else if entries[0].0 == key {
        Some(entries[0].1)
    } else {
        lookup(entries.subrange(1, entries.len() as int), key)
    }
}

/// The map that a list of entries stands for.
pub open spec fn seed_map(entries: Seq<(KeyIdView, Seq<u8>)>) -> Map<KeyIdView, Seq<u8>> {
    Map::new(|k: KeyIdView| lookup(entries, k) is Some, |k: KeyIdView| lookup(entries, k)->Some_0)
}

proof fn lemma_lookup_push(entries: Seq<(KeyIdView, Seq<u8>)>, e: (KeyIdView, Seq<u8>), key: KeyIdView)
    ensures
        lookup(entries.push(e), key) == (if lookup(entries, key) is Some {
            lookup(entries, key)
        } else if e.0 == key {
            Some(e.1)
        } else {
            None
        }),
    decreases entries.len(),
{
    let pushed = entries.push(e);
    if entries.len() == 0 {
        assert(pushed[0] == e);
        assert(pushed.subrange(1, 1) =~= Seq::<(KeyIdView, Seq<u8>)>::empty());
        assert(lookup(Seq::<(KeyIdView, Seq<u8>)>::empty(), key) is None);
    } else {
        let rest = entries.subrange(1, entries.len() as int);
        assert(pushed[0] == entries[0]);
        assert(pushed.subrange(1, pushed.len() as int) =~= rest.push(e));
        lemma_lookup_push(rest, e, key);
    }
}

/// The identity a public-key request is for: the one it names, else the
/// caller.
pub open spec fn requested_identity(caller: Seq<u8>, canister_id: Option<Vec<u8>>) -> Seq<u8> {
    match canister_id {
        Some(c) => c@,
        None => caller,
    }
}

/// What a public-key request for a stored seed yields.
pub open spec fn public_key_outcome(
    seed: Seq<u8>,
    path: Seq<Seq<u8>>,
    algorithm: SchnorrAlgorithm,
    r: Result<PublicKeyStep, SchnorrError>,
) -> bool {
    match algorithm {
        SchnorrAlgorithm::Ed25519 => r matches Ok(PublicKeyStep::Ready(res)) && res.public_key@
            == ed25519_public_key_of(ed25519_secret(seed, path)) && res.chain_code@
            == ed25519_chain_code(seed, path),
        SchnorrAlgorithm::Bip340Secp256k1 => match secp256k1_master_public_of(seed) {
            Some(p) => r matches Ok(
                PublicKeyStep::DeriveSecp256k1 { master_public_key, master_chain_code, path: q },
            ) && master_public_key@ == p && master_chain_code@ == spec_master_chain_code()
                && path_view(q@) == path,
            None => r == Err::<PublicKeyStep, SchnorrError>(SchnorrError::DerivationFailure),
        },
    }
}

/// What a signing request for a stored seed yields.
pub open spec fn sign_outcome(
    seed: Seq<u8>,
    path: Seq<Seq<u8>>,
    message: Seq<u8>,
    algorithm: SchnorrAlgorithm,
    r: Result<SignStep, SchnorrError>,
) -> bool {
    match algorithm {
        SchnorrAlgorithm::Ed25519 => r matches Ok(SignStep::Signed(res)) && res.signature@
            == ed25519_signature_of(ed25519_secret(seed, path), message),
        SchnorrAlgorithm::Bip340Secp256k1 => match bip32_master_key_of(seed) {
            Some(k) => r matches Ok(
                SignStep::DeriveSecp256k1 { master_private_key, master_chain_code, path: q },
            ) && master_private_key@ == k && master_chain_code@ == spec_master_chain_code()
                && path_view(q@) == path,
            None => r == Err::<SignStep, SchnorrError>(SchnorrError::DerivationFailure),
        },
    }
}

/// How a call moves the counter: up by one exactly when it produced a
/// signature.
pub open spec fn counter_step(before: nat, after: nat, signed: bool) -> bool {
    after == before + if signed {
        1nat
    } else {
        0nat
    }
}

/// The number of calls that produced a signature.
pub open spec fn signatures(signed: Seq<bool>) -> nat
    decreases signed.len(),
{
    if signed.len() == 0 {
        0
    } else {
        signatures(signed.drop_last()) + if signed.last() {
            1nat
        } else {
            0nat
        }
    }
}

/// How one seeding call moves the registry: at most one key without a seed
/// gets one, and nothing else changes.
pub open spec fn seeding_step(before: RegistryView, after: RegistryView) -> bool {
    &&& after.sig_count == before.sig_count
    &&& after.seeds == before.seeds || exists|k: KeyIdView, s: Seq<u8>|
        !before.seeds.contains_key(k) && after.seeds == before.seeds.insert(k, s)
}

/// A run of calls moves the counter by exactly the number of signatures they
/// produced: a call that fails adds nothing.
pub proof fn lemma_counter_counts_signatures(counts: Seq<nat>, signed: Seq<bool>)
    requires
        counts.len() == signed.len() + 1,
        forall|i: int| 0 <= i < signed.len() ==> counter_step(counts[i], counts[i + 1], signed[i]),
    ensures
        counts.last() == counts[0] + signatures(signed),
    decreases signed.len(),
{
    if signed.len() > 0 {
        let n = signed.len() - 1;
        lemma_counter_counts_signatures(counts.drop_last(), signed.drop_last());
        assert(counter_step(counts[n], counts[n + 1], signed[n]));
    }
}

/// Seeding never replaces a stored seed, however often it runs.
pub proof fn lemma_seeding_keeps_seeds(
    first: RegistryView,
    second: RegistryView,
    third: RegistryView,
    key: KeyIdView,
)
    requires
        seeding_step(first, second),
        seeding_step(second, third),
        first.seeds.contains_key(key),
    ensures
        third.seeds.contains_key(key),
        third.seeds[key] == first.seeds[key],
{
}

/// The mathematical value of a registry.
pub struct RegistryView {
    /// The seed stored for each key that has one.
    pub seeds: Map<KeyIdView, Seq<u8>>,
    pub sig_count: nat,
}

/// The stored seeds and the number of signatures produced.
pub struct KeyRegistry {
    seeds: Vec<(SchnorrKeyId, Vec<u8>)>,
    sig_count: u128,
}

impl View for KeyRegistry {
    type V = RegistryView;

    closed spec fn view(&self) -> RegistryView {
        RegistryView { seeds: seed_map(self.entries()), sig_count: self.sig_count as nat }
    }
}

impl KeyRegistry {
    spec fn entries(&self) -> Seq<(KeyIdView, Seq<u8>)> {
        self.seeds@.map_values(|e: (SchnorrKeyId, Vec<u8>)| (e.0@, e.1@))
    }

    /// Every stored seed has 64 bytes.
    pub open spec fn wf(&self) -> bool {
        forall|k: KeyIdView| #[trigger] self@.seeds.contains_key(k) ==> self@.seeds[k].len() == 64
    }

    /// An empty registry whose counter starts at `sig_count`.
    pub fn new(sig_count: u128) -> (r: KeyRegistry)
        ensures
            r@.seeds == Map::<KeyIdView, Seq<u8>>::empty(),
            r@.sig_count == sig_count,
            r.wf(),
    {
        let r = KeyRegistry { seeds: Vec::new(), sig_count };
        assert(r@.seeds =~= Map::<KeyIdView, Seq<u8>>::empty());
        r
    }

    /// The number of signatures produced.
    pub fn sig_count(&self) -> (r: u128)
        ensures
            r == self@.sig_count,
    {
        self.sig_count
    }

    /// The seed stored for `key_id`, or `UnknownKey`.
    pub fn seed(&self, key_id: &SchnorrKeyId) -> (r: Result<Vec<u8>, SchnorrError>)
        ensures
            self@.seeds.contains_key(key_id@) ==> (r matches Ok(s) && s@ == self@.seeds[key_id@]),
            !self@.seeds.contains_key(key_id@) ==> r == Err::<Vec<u8>, SchnorrError>(
                SchnorrError::UnknownKey,
            ),
    {
        let ghost entries = self.entries();
        assert(entries.subrange(0, entries.len() as int) =~= entries);
        let mut i: usize = 0;
        while i < self.seeds.len()
            invariant
                i <= self.seeds@.len(),
                entries == self.entries(),
                lookup(entries, key_id@) == lookup(
                    entries.subrange(i as int, entries.len() as int),
                    key_id@,
                ),
            decreases self.seeds@.len() - i,
        {
            let ghost sub = entries.subrange(i as int, entries.len() as int);
            assert(sub[0] == entries[i as int]);
            if self.seeds[i].0 == *key_id {
                return Ok(clone_bytes(&self.seeds[i].1));
            }
            assert(sub.subrange(1, sub.len() as int) =~= entries.subrange(
                i + 1,
                entries.len() as int,
            ));
            i = i + 1;
        }
        Err(SchnorrError::UnknownKey)
    }

    /// The public key of the caller's path, or the master public key that the
    /// host derives it from.
    ///
    /// The path is the requested identity followed by the caller's steps.
    pub fn schnorr_public_key(&self, caller: &Vec<u8>, arg: &SchnorrPublicKeyArgs) -> (r: Result<
        PublicKeyStep,
        SchnorrError,
    >)
        requires
            self.wf(),
        ensures
            !self@.seeds.contains_key(arg.key_id@) ==> r == Err::<PublicKeyStep, SchnorrError>(
                SchnorrError::UnknownKey,
            ),
            self@.seeds.contains_key(arg.key_id@) ==> public_key_outcome(
                self@.seeds[arg.key_id@],
                full_path(
                    requested_identity(caller@, arg.canister_id),
                    steps_view(arg.derivation_path@),
                ),
                arg.key_id.algorithm,
                r,
            ),
    {
        let seed = self.seed(&arg.key_id)?;
        let identity = match &arg.canister_id {
            Some(c) => c,
            None => caller,
        };
        let indexes = to_derivation_indexes(identity, &arg.derivation_path);
        match arg.key_id.algorithm {
            SchnorrAlgorithm::Ed25519 => Ok(
                PublicKeyStep::Ready(schnorr_public_key_ed25519(seed.as_slice(), indexes)),
            ),
            SchnorrAlgorithm::Bip340Secp256k1 => {
                let master_public_key = secp256k1_master_public_key(seed.as_slice())?;
                Ok(
                    PublicKeyStep::DeriveSecp256k1 {
                        master_public_key,
                        master_chain_code: master_chain_code(),
                        path: indexes,
                    },
                )
            },
        }
    }

    /// Signs a message with the key of the caller's path, or hands the host
    /// the master private key to derive a secp256k1 key from.
    ///
    /// The counter advances only where a signature was produced.
    pub fn sign_with_schnorr(&mut self, caller: &Vec<u8>, arg: &SignWithSchnorrArgs) -> (r: Result<
        SignStep,
        SchnorrError,
    >)
        requires
            old(self).wf(),
            old(self)@.sig_count < u128::MAX,
        ensures
            final(self).wf(),
            final(self)@.seeds == old(self)@.seeds,
            counter_step(
                old(self)@.sig_count,
                final(self)@.sig_count,
                r matches Ok(SignStep::Signed(_)),
            ),
            !old(self)@.seeds.contains_key(arg.key_id@) ==> r == Err::<SignStep, SchnorrError>(
                SchnorrError::UnknownKey,
            ),
            old(self)@.seeds.contains_key(arg.key_id@) ==> sign_outcome(
                old(self)@.seeds[arg.key_id@],
                full_path(caller@, steps_view(arg.derivation_path@)),
                arg.message@,
                arg.key_id.algorithm,
                r,
            ),
    {
        let seed = self.seed(&arg.key_id)?;
        let indexes = to_derivation_indexes(caller, &arg.derivation_path);
        match arg.key_id.algorithm {
            SchnorrAlgorithm::Ed25519 => {
                let signed = sign_with_schnorr_ed25519(
                    seed.as_slice(),
                    indexes,
                    arg.message.as_slice(),
                );
                self.sig_count = self.sig_count + 1;
                Ok(SignStep::Signed(signed))
            },
            SchnorrAlgorithm::Bip340Secp256k1 => {
                let master_private_key = secp256k1_master_private_key(seed.as_slice())?;
                Ok(
                    SignStep::DeriveSecp256k1 {
                        master_private_key,
                        master_chain_code: master_chain_code(),
                        path: indexes,
                    },
                )
            },
        }
    }

    /// Signs a message with a secp256k1 private key that the host derived,
    /// and counts the signature.
    pub fn finish_secp256k1_signing(&mut self, derived_private_key: &[u8], message: &[u8]) -> (r:
        Result<SignWithSchnorrResult, SchnorrError>)
        requires
            old(self).wf(),
            old(self)@.sig_count < u128::MAX,
        ensures
            final(self).wf(),
            final(self)@.seeds == old(self)@.seeds,
            counter_step(old(self)@.sig_count, final(self)@.sig_count, r is Ok),
            secp256k1_public_key_of(derived_private_key@) is None ==> r == Err::<
                SignWithSchnorrResult,
                SchnorrError,
            >(SchnorrError::DerivationFailure),
            secp256k1_public_key_of(derived_private_key@) is Some ==> (r matches Ok(s)
                && s.signature@ == bip340_signature_of(derived_private_key@, sha256_of(message@))),
    {
        let signed = sign_bip340(derived_private_key, message)?;
        self.sig_count = self.sig_count + 1;
        assert(self@.seeds == old(self)@.seeds);
        Ok(signed)
    }

    /// Stores `seed` for `key_id` unless the key already has one.
    ///
    /// A stored seed is never replaced: for such a key the call fails with
    /// `AlreadyInitialized` and changes nothing. A seed that is not 64 bytes
    /// long is refused with `MalformedInput`.
    pub fn insert_seed_if_absent(&mut self, key_id: SchnorrKeyId, seed: Vec<u8>) -> (r: Result<
        (),
        SchnorrError,
    >)
        requires
            old(self).wf(),
        ensures
            final(self).wf(),
            seeding_step(old(self)@, final(self)@),
            seed@.len() != 64 ==> r == Err::<(), SchnorrError>(SchnorrError::MalformedInput)
                && final(self)@ == old(self)@,
            seed@.len() == 64 && old(self)@.seeds.contains_key(key_id@) ==> r == Err::<
                (),
                SchnorrError,
            >(SchnorrError::AlreadyInitialized) && final(self)@ == old(self)@,
            seed@.len() == 64 && !old(self)@.seeds.contains_key(key_id@) ==> r == Ok::<
                (),
                SchnorrError,
            >(()) && final(self)@.seeds == old(self)@.seeds.insert(key_id@, seed@),
    {
        if seed.len() != 64 {
            return Err(SchnorrError::MalformedInput);
        }
        if self.seed(&key_id).is_ok() {
            return Err(SchnorrError::AlreadyInitialized);
        }
        let ghost before = self.entries();
        let ghost k = key_id@;
        let ghost s = seed@;
        self.seeds.push((key_id, seed));
        proof {
            assert(self.entries() =~= before.push((k, s)));
            assert forall|q: KeyIdView| #![auto]
                lookup(self.entries(), q) == (if lookup(before, q) is Some {
                    lookup(before, q)
                } else if k == q {
                    Some(s)
                } else {
                    None
                }) by {
                lemma_lookup_push(before, (k, s), q);
            }
            assert(self@.seeds =~= old(self)@.seeds.insert(k, s));
        }
        Ok(())
    }

    /// Completes one seeding task for a catalogue entry.
    ///
    /// `randomness` is what the random source delivered: `None` where the
    /// fetch failed. The seed is the 32 fetched bytes followed by the same 32
    /// bytes again, so it holds 32 bytes of entropy. A key that already has a
    /// seed keeps it.
    pub fn seed_key(&mut self, key: SchnorrKeyIds, randomness: Option<Vec<u8>>) -> (r: Result<
        (),
        SchnorrError,
    >)
        requires
            old(self).wf(),
        ensures
            final(self).wf(),
            seeding_step(old(self)@, final(self)@),
            match randomness {
                None => r == Err::<(), SchnorrError>(SchnorrError::RandomnessUnavailable)
                    && final(self)@ == old(self)@,
                Some(b) => if b@.len() != 32 {
                    r == Err::<(), SchnorrError>(SchnorrError::MalformedInput) && final(self)@
                        == old(self)@
                } else if old(self)@.seeds.contains_key(key.spec_key_id()) {
                    r == Err::<(), SchnorrError>(SchnorrError::AlreadyInitialized) && final(self)@
                        == old(self)@
                } else {
                    r == Ok::<(), SchnorrError>(()) && final(self)@.seeds == old(self)@.seeds.insert(
                        key.spec_key_id(),
                        b@ + b@,
                    )
                },
            },
    {
        match randomness {
            None => Err(SchnorrError::RandomnessUnavailable),
            Some(bytes) => {
                let seed = seed_from_random(&bytes)?;
                self.insert_seed_if_absent(key.to_key_id(), seed)
            },
        }
    }
}

/// The 64-byte seed made of 32 random bytes: the bytes twice over.
pub fn seed_from_random(random: &Vec<u8>) -> (r: Result<Vec<u8>, SchnorrError>)
    ensures
        random@.len() == 32 ==> (r matches Ok(s) && s@ == random@ + random@),
        random@.len() != 32 ==> r == Err::<Vec<u8>, SchnorrError>(SchnorrError::MalformedInput),
{
    if random.len() != 32 {
        return Err(SchnorrError::MalformedInput);
    }
    let mut seed = clone_bytes(random);
    let mut i: usize = 0;
    while i < 32
        invariant
            i <= 32,
            random@.len() == 32,
            seed@ == random@ + random@.subrange(0, i as int),
        decreases 32 - i,
    {
        seed.push(random[i]);
        i = i + 1;
        assert(seed@ =~= random@ + random@.subrange(0, i as int));
    }
    assert(random@.subrange(0, 32) =~= random@);
    Ok(seed)
}

} // verus!
