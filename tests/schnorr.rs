use bitcoin::secp256k1::{schnorr, Message, PublicKey, Secp256k1};
use ed25519_dalek::{Verifier, VerifyingKey};
use schnorr_canister::api::{
    PublicKeyStep, SchnorrError, SchnorrPublicKeyArgs, SignStep, SignWithSchnorrArgs,
};
use schnorr_canister::ed25519::{schnorr_public_key_ed25519, sign_with_schnorr_ed25519};
use schnorr_canister::registry::{seed_from_random, KeyRegistry};
use schnorr_canister::secp256k1::{
    master_chain_code, secp256k1_master_private_key, secp256k1_master_public_key,
    secp256k1_public_key_from_private, sign_bip340,
};
use schnorr_canister::{
    derive_ed25519_private_key, to_derivation_indexes, DerivationIndex, SchnorrAlgorithm,
    SchnorrKeyId, SchnorrKeyIds,
};

fn hex(s: &str) -> Vec<u8> {
    (0..s.len() / 2)
        .map(|i| u8::from_str_radix(&s[2 * i..2 * i + 2], 16).unwrap())
        .collect()
}

fn anonymous() -> Vec<u8> {
    candid::Principal::anonymous().as_slice().to_vec()
}

fn example_path() -> Vec<Vec<u8>> {
    vec![vec![1u8; 4]]
}

fn sha256(message: &[u8]) -> [u8; 32] {
    let digest = <bitcoin_hashes::sha256::Hash as bitcoin_hashes::Hash>::hash(message);
    <bitcoin_hashes::sha256::Hash as bitcoin_hashes::Hash>::to_byte_array(digest)
}

fn verify_bip340(public_key_sec1: &[u8], message: &[u8], signature: &[u8]) -> bool {
    let secp = Secp256k1::verification_only();
    let signature = schnorr::Signature::from_slice(signature).expect("Invalid signature format");
    let public_key = PublicKey::from_slice(public_key_sec1).unwrap().x_only_public_key().0;
    let digest = Message::from_digest_slice(&sha256(message)).unwrap();
    secp.verify_schnorr(&signature, &digest, &public_key).is_ok()
}

fn verify_ed25519(public_key: &[u8], message: &[u8], signature: &[u8]) -> bool {
    let mut bytes = [0u8; 32];
    bytes.copy_from_slice(public_key);
    let key = VerifyingKey::from_bytes(&bytes).unwrap();
    let signature = ed25519_dalek::Signature::from_slice(signature).expect("Invalid signature format");
    key.verify(message, &signature).is_ok()
}

fn seeded(key: SchnorrKeyIds) -> KeyRegistry {
    let mut registry = KeyRegistry::new(0);
    assert_eq!(registry.seed_key(key, Some(vec![1u8; 32])), Ok(()));
    registry
}

#[test]
fn master_key_signature_verifies_secp256k1() {
    let test_seed = [1u8; 64];
    let message = b"Test message";

    let private_key = secp256k1_master_private_key(&test_seed).unwrap();
    let sign_reply = sign_bip340(&private_key, message).unwrap();
    let public_key = secp256k1_master_public_key(&test_seed).unwrap();

    assert!(verify_bip340(&public_key, message, &sign_reply.signature));
}

#[test]
fn test_sign_and_verify_schnorr_ed25519() {
    let test_seed = [1u8; 64];
    let indexes = to_derivation_indexes(&anonymous(), &example_path());
    let message = b"Test message";

    let sign_reply = sign_with_schnorr_ed25519(&test_seed, indexes.clone(), message);
    let public_key_reply = schnorr_public_key_ed25519(&test_seed, indexes.clone());

    assert_eq!(public_key_reply.public_key.len(), 32);
    assert!(verify_ed25519(&public_key_reply.public_key, message, &sign_reply.signature));
}

#[test]
fn registry_hands_out_root_and_counts_secp256k1_signature() {
    let mut registry = seeded(SchnorrKeyIds::TestKey1);
    let key_id = SchnorrKeyIds::TestKey1.to_key_id();
    let message = b"Test message";

    let sign_args = SignWithSchnorrArgs {
        message: message.to_vec(),
        derivation_path: example_path(),
        key_id: key_id.clone(),
    };
    let private_key = match registry.sign_with_schnorr(&anonymous(), &sign_args) {
        Ok(SignStep::DeriveSecp256k1 { master_private_key, master_chain_code, path }) => {
            assert_eq!(master_chain_code, vec![0u8; 32]);
            assert_eq!(path.len(), 2);
            assert_eq!(path[0].0, anonymous());
            assert_eq!(path[1].0, vec![1u8; 4]);
            master_private_key
        }
        other => panic!("unexpected step {:?}", other),
    };
    assert_eq!(registry.sig_count(), 0);
    let signature = registry.finish_secp256k1_signing(&private_key, message).unwrap();
    assert_eq!(registry.sig_count(), 1);

    let key_args = SchnorrPublicKeyArgs {
        canister_id: None,
        derivation_path: example_path(),
        key_id,
    };
    let public_key = match registry.schnorr_public_key(&anonymous(), &key_args) {
        Ok(PublicKeyStep::DeriveSecp256k1 { master_public_key, path, .. }) => {
            assert_eq!(path[0].0, anonymous());
            master_public_key
        }
        other => panic!("unexpected step {:?}", other),
    };
    let pub_key_bip340 = &public_key[1..];
    let verifying_key = k256::schnorr::VerifyingKey::from_bytes(pub_key_bip340).unwrap();
    let sig = k256::schnorr::Signature::try_from(signature.signature.as_ref())
        .expect("should parse signature bytes");
    assert!(verifying_key.verify_raw(&sha256(message), &sig).is_ok());
}

#[test]
fn test_sign_with_schnorr_ed25519() {
    let mut registry = seeded(SchnorrKeyIds::TestKey1Ed25519);
    let key_id = SchnorrKeyIds::TestKey1Ed25519.to_key_id();
    let message = b"Test message";

    let sign_args = SignWithSchnorrArgs {
        message: message.to_vec(),
        derivation_path: example_path(),
        key_id: key_id.clone(),
    };
    let signature = match registry.sign_with_schnorr(&anonymous(), &sign_args) {
        Ok(SignStep::Signed(s)) => s.signature,
        other => panic!("unexpected step {:?}", other),
    };
    let key_args = SchnorrPublicKeyArgs {
        canister_id: None,
        derivation_path: example_path(),
        key_id,
    };
    let public_key = match registry.schnorr_public_key(&anonymous(), &key_args) {
        Ok(PublicKeyStep::Ready(r)) => r.public_key,
        other => panic!("unexpected step {:?}", other),
    };
    assert_eq!(public_key.len(), 32);
    assert_eq!(signature.len(), 64);
    assert!(verify_ed25519(&public_key, message, &signature));
    assert_eq!(registry.sig_count(), 1);
}

#[test]
fn ed25519_derivation_matches_hmac_chain() {
    let indexes = to_derivation_indexes(&vec![4u8], &example_path());
    let (secret, chain_code) = derive_ed25519_private_key(&[1u8; 64], indexes);
    assert_eq!(secret, hex("a1f9ffdf0362114e84c6c05f6926b4973b105273aa71419ee0c29225ec39c7f6"));
    assert_eq!(chain_code, hex("2fe3438b3ae684881d70953a9859e59449b24ab06bb35409fae3e287b5273605"));
}

#[test]
fn ed25519_empty_path_is_root_state() {
    let (secret, chain_code) = derive_ed25519_private_key(&[1u8; 64], vec![]);
    let root = hex("9ad2bc3313326b10defbdebdbadeaa3e9903be6566a48a8042f3484bb92850a5f5d276ce52d61034fdcdd9060c259506885c250a384a2b0bd063cd4b3496326b");
    assert_eq!(secret, root[..32].to_vec());
    assert_eq!(chain_code, root[32..].to_vec());
}

#[test]
fn derivation_is_deterministic() {
    let seed = [7u8; 64];
    let path = to_derivation_indexes(&anonymous(), &vec![vec![9u8, 8, 7, 6], vec![]]);
    let a = derive_ed25519_private_key(&seed, path.clone());
    let b = derive_ed25519_private_key(&seed, path.clone());
    assert_eq!(a, b);
    let sa = sign_with_schnorr_ed25519(&seed, path.clone(), b"m");
    let sb = sign_with_schnorr_ed25519(&seed, path, b"m");
    assert_eq!(sa.signature, sb.signature);
    let ka = secp256k1_master_public_key(&seed).unwrap();
    let kb = secp256k1_master_public_key(&seed).unwrap();
    assert_eq!(ka, kb);
    let pa = sign_bip340(&secp256k1_master_private_key(&seed).unwrap(), b"m").unwrap();
    let pb = sign_bip340(&secp256k1_master_private_key(&seed).unwrap(), b"m").unwrap();
    assert_eq!(pa.signature, pb.signature);
}

#[test]
fn master_public_key_is_that_of_master_private_key() {
    let seed = [3u8; 64];
    let private_key = secp256k1_master_private_key(&seed).unwrap();
    assert_eq!(
        secp256k1_public_key_from_private(&private_key).unwrap(),
        secp256k1_master_public_key(&seed).unwrap()
    );
}

#[test]
fn changing_a_step_changes_the_key() {
    let seed = [1u8; 64];
    let key = |identity: Vec<u8>, steps: Vec<Vec<u8>>| {
        derive_ed25519_private_key(&seed, to_derivation_indexes(&identity, &steps)).0
    };
    let base = key(vec![4u8], example_path());
    assert_ne!(base, key(vec![5u8], example_path()));
    assert_ne!(base, key(vec![4u8], vec![vec![2u8; 4]]));
    assert_ne!(base, key(vec![4u8], vec![vec![1u8, 1, 1, 2]]));
    assert_ne!(base, key(vec![4u8], vec![vec![1u8; 4], vec![1u8; 4]]));
    assert_ne!(
        derive_ed25519_private_key(&[2u8; 64], to_derivation_indexes(&vec![4u8], &example_path())).0,
        base
    );
}

#[test]
fn every_byte_of_a_step_counts() {
    let seed = [1u8; 64];
    let a = derive_ed25519_private_key(&seed, vec![DerivationIndex(vec![1, 2, 3, 4, 5])]);
    let b = derive_ed25519_private_key(&seed, vec![DerivationIndex(vec![1, 2, 3, 4, 6])]);
    assert_ne!(a, b);
    let short = derive_ed25519_private_key(&seed, vec![DerivationIndex(vec![1])]);
    let padded = derive_ed25519_private_key(&seed, vec![DerivationIndex(vec![1, 0, 0, 0])]);
    assert_ne!(short, padded);
    let low = derive_ed25519_private_key(&seed, vec![DerivationIndex(vec![0x01])]);
    let high = derive_ed25519_private_key(&seed, vec![DerivationIndex(vec![0x81])]);
    assert_ne!(low, high);
}

#[test]
fn identities_with_a_common_prefix_get_different_keys() {
    let registry = seeded(SchnorrKeyIds::TestKey1Ed25519);
    let key_id = SchnorrKeyIds::TestKey1Ed25519.to_key_id();
    let public_key = |identity: Vec<u8>| {
        let args = SchnorrPublicKeyArgs {
            canister_id: Some(identity),
            derivation_path: example_path(),
            key_id: key_id.clone(),
        };
        match registry.schnorr_public_key(&anonymous(), &args) {
            Ok(PublicKeyStep::Ready(r)) => r.public_key,
            other => panic!("unexpected step {:?}", other),
        }
    };
    let first = public_key(vec![0, 0, 0, 0, 0, 0, 0, 1, 1, 1]);
    let second = public_key(vec![0, 0, 0, 0, 0, 0, 0, 2, 1, 1]);
    assert_ne!(first, second);
}

#[test]
fn derivation_indexes_start_with_identity() {
    let indexes = to_derivation_indexes(&vec![4u8], &vec![vec![1u8], vec![2u8, 3]]);
    let steps: Vec<Vec<u8>> = indexes.into_iter().map(|i| i.0).collect();
    assert_eq!(steps, vec![vec![4u8], vec![1u8], vec![2u8, 3]]);
    let only = to_derivation_indexes(&vec![], &vec![]);
    assert_eq!(only.len(), 1);
    assert!(only[0].0.is_empty());
}

#[test]
fn seeding_twice_keeps_the_first_seed() {
    let mut registry = KeyRegistry::new(0);
    let key = SchnorrKeyIds::DfxTestKey;
    assert_eq!(registry.seed_key(key, Some(vec![1u8; 32])), Ok(()));
    assert_eq!(
        registry.seed_key(key, Some(vec![2u8; 32])),
        Err(SchnorrError::AlreadyInitialized)
    );
    assert_eq!(registry.seed(&key.to_key_id()).unwrap(), vec![1u8; 64]);
    assert_eq!(
        registry.insert_seed_if_absent(key.to_key_id(), vec![3u8; 64]),
        Err(SchnorrError::AlreadyInitialized)
    );
    assert_eq!(registry.seed(&key.to_key_id()).unwrap(), vec![1u8; 64]);
}

#[test]
fn seeds_are_per_key() {
    let mut registry = KeyRegistry::new(0);
    for (i, key) in SchnorrKeyIds::variants().into_iter().enumerate() {
        assert_eq!(registry.seed_key(key, Some(vec![i as u8; 32])), Ok(()));
    }
    for (i, key) in SchnorrKeyIds::variants().into_iter().enumerate() {
        assert_eq!(registry.seed(&key.to_key_id()).unwrap(), vec![i as u8; 64]);
    }
}

#[test]
fn failed_randomness_leaves_key_unseeded() {
    let mut registry = KeyRegistry::new(0);
    let key = SchnorrKeyIds::TestKey1;
    assert_eq!(registry.seed_key(key, None), Err(SchnorrError::RandomnessUnavailable));
    assert_eq!(registry.seed(&key.to_key_id()), Err(SchnorrError::UnknownKey));
    assert_eq!(registry.seed_key(key, Some(vec![1u8; 31])), Err(SchnorrError::MalformedInput));
    assert_eq!(registry.seed(&key.to_key_id()), Err(SchnorrError::UnknownKey));
}

#[test]
fn seed_is_random_bytes_twice() {
    let random: Vec<u8> = (0..32u8).collect();
    let seed = seed_from_random(&random).unwrap();
    assert_eq!(seed.len(), 64);
    assert_eq!(seed[..32].to_vec(), random);
    assert_eq!(seed[32..].to_vec(), random);
    assert_eq!(seed_from_random(&vec![0u8; 64]), Err(SchnorrError::MalformedInput));
}

#[test]
fn malformed_seed_is_refused() {
    let mut registry = KeyRegistry::new(0);
    let key_id = SchnorrKeyIds::TestKey1.to_key_id();
    assert_eq!(
        registry.insert_seed_if_absent(key_id.clone(), vec![1u8; 63]),
        Err(SchnorrError::MalformedInput)
    );
    assert_eq!(registry.seed(&key_id), Err(SchnorrError::UnknownKey));
    assert_eq!(secp256k1_master_private_key(&[1u8; 32]), Err(SchnorrError::MalformedInput));
}

#[test]
fn counter_counts_successful_signatures() {
    let mut registry = seeded(SchnorrKeyIds::DfxTestKeyEd25519);
    let args = SignWithSchnorrArgs {
        message: b"hello".to_vec(),
        derivation_path: vec![],
        key_id: SchnorrKeyIds::DfxTestKeyEd25519.to_key_id(),
    };
    for _ in 0..3 {
        assert!(registry.sign_with_schnorr(&anonymous(), &args).is_ok());
    }
    assert_eq!(registry.sig_count(), 3);
    let unknown = SignWithSchnorrArgs {
        message: b"hello".to_vec(),
        derivation_path: vec![],
        key_id: SchnorrKeyIds::TestKey1Ed25519.to_key_id(),
    };
    assert!(matches!(
        registry.sign_with_schnorr(&anonymous(), &unknown),
        Err(SchnorrError::UnknownKey)
    ));
    assert_eq!(registry.sig_count(), 3);
    assert!(matches!(
        registry.finish_secp256k1_signing(&[0u8; 32], b"hello"),
        Err(SchnorrError::DerivationFailure)
    ));
    assert_eq!(registry.sig_count(), 3);
}

#[test]
fn counter_resumes_from_restored_value() {
    let mut registry = KeyRegistry::new(41);
    assert_eq!(registry.seed_key(SchnorrKeyIds::DfxTestKeyEd25519, Some(vec![9u8; 32])), Ok(()));
    let args = SignWithSchnorrArgs {
        message: vec![],
        derivation_path: vec![],
        key_id: SchnorrKeyIds::DfxTestKeyEd25519.to_key_id(),
    };
    assert!(registry.sign_with_schnorr(&vec![], &args).is_ok());
    assert_eq!(registry.sig_count(), 42);
}

#[test]
fn unknown_key_is_refused_for_public_key() {
    let registry = KeyRegistry::new(0);
    let args = SchnorrPublicKeyArgs {
        canister_id: None,
        derivation_path: vec![],
        key_id: SchnorrKeyIds::DfxTestKey.to_key_id(),
    };
    assert!(matches!(
        registry.schnorr_public_key(&anonymous(), &args),
        Err(SchnorrError::UnknownKey)
    ));
}

#[test]
fn public_key_uses_named_identity() {
    let registry = seeded(SchnorrKeyIds::TestKey1Ed25519);
    let key_id = SchnorrKeyIds::TestKey1Ed25519.to_key_id();
    let named = SchnorrPublicKeyArgs {
        canister_id: Some(vec![7u8, 7]),
        derivation_path: example_path(),
        key_id: key_id.clone(),
    };
    let own = SchnorrPublicKeyArgs { canister_id: None, derivation_path: example_path(), key_id };
    let for_named = match registry.schnorr_public_key(&anonymous(), &named) {
        Ok(PublicKeyStep::Ready(r)) => r,
        other => panic!("unexpected step {:?}", other),
    };
    let as_caller = match registry.schnorr_public_key(&vec![7u8, 7], &own) {
        Ok(PublicKeyStep::Ready(r)) => r,
        other => panic!("unexpected step {:?}", other),
    };
    assert_eq!(for_named.public_key, as_caller.public_key);
    assert_eq!(for_named.chain_code, as_caller.chain_code);
    let expected = schnorr_public_key_ed25519(
        &[1u8; 64],
        to_derivation_indexes(&vec![7u8, 7], &example_path()),
    );
    assert_eq!(for_named.public_key, expected.public_key);
}

#[test]
fn bip32_master_key_of_scenario_seed() {
    let private_key = secp256k1_master_private_key(&[1u8; 64]).unwrap();
    assert_eq!(
        private_key,
        hex("948895d9c5c962745187b6b24265d1741b3280c59b87f2d0c0bd6bb4ef9185e2")
    );
    let public_key = secp256k1_master_public_key(&[1u8; 64]).unwrap();
    assert_eq!(public_key.len(), 33);
    let expected = k256::ecdsa::SigningKey::from_slice(&private_key)
        .unwrap()
        .verifying_key()
        .to_encoded_point(true)
        .as_bytes()
        .to_vec();
    assert_eq!(public_key, expected);
}

#[test]
fn invalid_secret_key_is_a_derivation_failure() {
    assert_eq!(
        secp256k1_public_key_from_private(&[0u8; 32]),
        Err(SchnorrError::DerivationFailure)
    );
    assert!(matches!(sign_bip340(&[0xffu8; 32], b"m"), Err(SchnorrError::DerivationFailure)));
    assert!(matches!(sign_bip340(&[1u8; 31], b"m"), Err(SchnorrError::DerivationFailure)));
}

#[test]
fn signature_is_over_the_digest() {
    let private_key = secp256k1_master_private_key(&[5u8; 64]).unwrap();
    let public_key = secp256k1_public_key_from_private(&private_key).unwrap();
    let signature = sign_bip340(&private_key, b"Test message").unwrap().signature;
    assert_eq!(signature.len(), 64);
    assert!(verify_bip340(&public_key, b"Test message", &signature));
    assert!(!verify_bip340(&public_key, b"Test messagf", &signature));
}

#[test]
fn master_chain_code_is_zero() {
    assert_eq!(master_chain_code(), vec![0u8; 32]);
}

#[test]
fn catalogue_names() {
    let ids: Vec<SchnorrKeyId> = SchnorrKeyIds::variants().iter().map(|k| k.to_key_id()).collect();
    assert_eq!(ids.len(), 4);
    assert_eq!(ids[0], SchnorrKeyId::new(SchnorrAlgorithm::Bip340Secp256k1, "dfx_test_key".to_string()));
    assert_eq!(ids[1], SchnorrKeyId::new(SchnorrAlgorithm::Bip340Secp256k1, "test_key_1".to_string()));
    assert_eq!(ids[2], SchnorrKeyId::new(SchnorrAlgorithm::Ed25519, "dfx_test_key".to_string()));
    assert_eq!(ids[3], SchnorrKeyId::new(SchnorrAlgorithm::Ed25519, "test_key_1".to_string()));
    assert_ne!(ids[0], ids[2]);
}
