//! The catalogue of named keys.

use vstd::prelude::*;

verus! {

/// The signature scheme a key belongs to.
#[derive(Debug, Clone, Copy, PartialEq, Eq, Structural, PartialOrd, Ord)]
pub enum SchnorrAlgorithm {
    Bip340Secp256k1,
    Ed25519,
}

/// Identifies one independently seeded root key: an algorithm and a name.
#[derive(Debug, Clone, PartialOrd, Ord)]
pub struct SchnorrKeyId {
    pub algorithm: SchnorrAlgorithm,
    pub name: String,
}

/// The mathematical value of a key identifier.
pub struct KeyIdView {
    pub algorithm: SchnorrAlgorithm,
    pub name: Seq<char>,
}

impl View for SchnorrKeyId {
    type V = KeyIdView;

    open spec fn view(&self) -> KeyIdView {
        KeyIdView { algorithm: self.algorithm, name: self.name@ }
    }
}

impl PartialEq for SchnorrKeyId {
    fn eq(&self, other: &SchnorrKeyId) -> (r: bool) {
        self.algorithm == other.algorithm && self.name == other.name
    }
}

impl vstd::std_specs::cmp::PartialEqSpecImpl for SchnorrKeyId {
    open spec fn obeys_eq_spec() -> bool {
        true
    }

    open spec fn eq_spec(&self, other: &SchnorrKeyId) -> bool {
        self@ == other@
    }
}

impl Eq for SchnorrKeyId {}

impl SchnorrKeyId {
    /// Builds a key identifier from its two parts.
    pub fn new(algorithm: SchnorrAlgorithm, name: String) -> (r: SchnorrKeyId)
        ensures
            r.algorithm == algorithm,
            r.name@ == name@,
    {
        SchnorrKeyId { algorithm, name }
    }
}

/// The keys that are seeded at start-up.
#[derive(Debug, Clone, Copy, PartialEq, Eq, Structural)]
pub enum SchnorrKeyIds {
    DfxTestKey,
    TestKey1,
    DfxTestKeyEd25519,
    TestKey1Ed25519,
}

/// The name of the local development key.
pub open spec fn dfx_test_key_name() -> Seq<char> {
    "dfx_test_key"@
}

/// The name of the test key.
pub open spec fn test_key_1_name() -> Seq<char> {
    "test_key_1"@
}

impl SchnorrKeyIds {
    /// The identifier that a catalogue entry stands for.
    pub open spec fn spec_key_id(self) -> KeyIdView {
        match self {
            SchnorrKeyIds::DfxTestKey => KeyIdView {
                algorithm: SchnorrAlgorithm::Bip340Secp256k1,
                name: dfx_test_key_name(),
            },
            SchnorrKeyIds::TestKey1 => KeyIdView {
                algorithm: SchnorrAlgorithm::Bip340Secp256k1,
                name: test_key_1_name(),
            },
            SchnorrKeyIds::DfxTestKeyEd25519 => KeyIdView {
                algorithm: SchnorrAlgorithm::Ed25519,
                name: dfx_test_key_name(),
            },
            SchnorrKeyIds::TestKey1Ed25519 => KeyIdView {
                algorithm: SchnorrAlgorithm::Ed25519,
                name: test_key_1_name(),
            },
        }
    }

    pub fn to_key_id(&self) -> (r: SchnorrKeyId)
        ensures
            r@ == self.spec_key_id(),
    {
        broadcast use vstd::string::group_string_axioms;
        match self {
            SchnorrKeyIds::DfxTestKey => SchnorrKeyId {
                algorithm: SchnorrAlgorithm::Bip340Secp256k1,
                name: "dfx_test_key".to_string(),
            },
            SchnorrKeyIds::TestKey1 => SchnorrKeyId {
                algorithm: SchnorrAlgorithm::Bip340Secp256k1,
                name: "test_key_1".to_string(),
            },
            SchnorrKeyIds::DfxTestKeyEd25519 => SchnorrKeyId {
                algorithm: SchnorrAlgorithm::Ed25519,
                name: "dfx_test_key".to_string(),
            },
            SchnorrKeyIds::TestKey1Ed25519 => SchnorrKeyId {
                algorithm: SchnorrAlgorithm::Ed25519,
                name: "test_key_1".to_string(),
            },
        }
    }

    /// Every entry of the catalogue, each once.
    pub fn variants() -> (r: Vec<SchnorrKeyIds>)
        ensures
            r@ == seq![
                SchnorrKeyIds::DfxTestKey,
                SchnorrKeyIds::TestKey1,
                SchnorrKeyIds::DfxTestKeyEd25519,
                SchnorrKeyIds::TestKey1Ed25519,
            ],
    {
        vec![
            SchnorrKeyIds::DfxTestKey,
            SchnorrKeyIds::TestKey1,
            SchnorrKeyIds::DfxTestKeyEd25519,
            SchnorrKeyIds::TestKey1Ed25519,
        ]
    }
}

} // verus!
