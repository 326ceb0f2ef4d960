//! Derivation paths: ordered byte-string steps, the first being the caller's
//! identity.

use vstd::prelude::*;

verus! {

/// One step of a derivation path: an arbitrary byte string.
#[derive(Debug, Clone)]
pub struct DerivationIndex(pub Vec<u8>);

impl View for DerivationIndex {
    type V = Seq<u8>;

    open spec fn view(&self) -> Seq<u8> {
        self.0@
    }
}

/// The mathematical value of a path: its steps in order.
pub open spec fn path_view(path: Seq<DerivationIndex>) -> Seq<Seq<u8>> {
    path.map_values(|step: DerivationIndex| step@)
}

/// The path that binds a caller's steps to the caller's identity.
pub open spec fn full_path(identity: Seq<u8>, steps: Seq<Seq<u8>>) -> Seq<Seq<u8>> {
    seq![identity] + steps
}

/// A copy of a byte string.
pub fn clone_bytes(b: &Vec<u8>) -> (r: Vec<u8>)
    ensures
        r@ == b@,
{
    let r = b.clone();
    assert(r@ =~= b@);
    r
}

/// The steps of a caller-supplied path as byte sequences.
pub open spec fn steps_view(steps: Seq<Vec<u8>>) -> Seq<Seq<u8>> {
    steps.map_values(|step: Vec<u8>| step@)
}

/// Prepends the caller's identity to the caller's steps.
pub fn to_derivation_indexes(identity: &Vec<u8>, derivation_path: &Vec<Vec<u8>>) -> (r: Vec<
    DerivationIndex,
>)
    ensures
        path_view(r@) == full_path(identity@, steps_view(derivation_path@)),
{
    let mut path: Vec<DerivationIndex> = Vec::new();
    path.push(DerivationIndex(clone_bytes(identity)));
    assert(path_view(path@) =~= full_path(identity@, steps_view(derivation_path@.take(0))));
    let mut i: usize = 0;
    while i < derivation_path.len()
        invariant
            i <= derivation_path@.len(),
            path@.len() == i + 1,
            path_view(path@) == full_path(identity@, steps_view(derivation_path@.take(i as int))),
        decreases derivation_path@.len() - i,
    {
        let ghost prev = path@;
        let ghost prev_target = full_path(identity@, steps_view(derivation_path@.take(i as int)));
        path.push(DerivationIndex(clone_bytes(&derivation_path[i])));
        i = i + 1;
        let ghost target = full_path(identity@, steps_view(derivation_path@.take(i as int)));
        assert forall|j: int| 0 <= j < path@.len() implies path_view(path@)[j] == target[j] by {
            if j == 0 {
                assert(target[j] == identity@);
                assert(path_view(prev)[0] == prev_target[0]);
            } else if j < prev.len() {
                assert(path@[j] == prev[j]);
                assert(target[j] == steps_view(derivation_path@.take(i as int))[j - 1]);
                assert(prev_target[j] == steps_view(derivation_path@.take(i - 1))[j - 1]);
                assert(path_view(prev)[j] == prev_target[j]);
                assert(path_view(path@)[j] == path_view(prev)[j]);
            } else {
                assert(target[j] == steps_view(derivation_path@.take(i as int))[j - 1]);
                assert(path_view(path@)[j] == path@[j]@);
            }
        }
        assert(path_view(path@) =~= full_path(
            identity@,
            steps_view(derivation_path@.take(i as int)),
        ));
    }
    assert(derivation_path@.take(i as int) =~= derivation_path@);
    path
}

} // verus!
