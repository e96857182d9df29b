// End-to-end checks of the tree driver and the root verifier.

use zktree::backend::Backend;
use zktree::digest::Digest;
use zktree::digest::FIELD_ORDER;
use zktree::errors::ZkError;
use zktree::proof_data::ProofData;
use zktree::trace_backend::TraceBackend;
use zktree::trace_backend::TraceCircuitData;
use zktree::trace_backend::TraceProof;
use zktree::trace_backend::MIX_MULT;
use zktree::tree_proof::Proof;
use zktree::user_proof::UserProof;
use zktree::zktree::ZkTree;

fn mix(state: u64, x: u64) -> u64 {
    ((state as u128 * MIX_MULT as u128 + x as u128 + 1) % (FIELD_ORDER as u128)) as u64
}

fn sponge(xs: &[u64]) -> [u64; 4] {
    let mut state: u64 = 0;
    for &x in xs {
        state = mix(state, x);
    }
    [mix(state, 1), mix(state, 2), mix(state, 3), mix(state, 4)]
}

fn fold(xs: &[u64]) -> Vec<u64> {
    if xs.len() <= 4 {
        let mut out = vec![0u64; 4];
        for (i, &x) in xs.iter().enumerate() {
            out[i] = x;
        }
        out
    } else {
        sponge(xs).to_vec()
    }
}

fn fold2(a: &[u64], b: &[u64]) -> Vec<u64> {
    let mut cat = a.to_vec();
    cat.extend_from_slice(b);
    fold(&cat)
}

fn digest(tag: u64) -> Digest {
    Digest::new(tag, tag + 1, tag + 2, tag + 3)
}

fn user_proof_inner(c: u64, tag: u64, valid: bool) -> UserProof<TraceBackend> {
    let d = digest(tag);
    let circuit_data = TraceCircuitData::new(d, 1);
    let proof_with_pis = TraceProof::new(vec![c], d, valid);
    UserProof::new(vec![vec![c]], d, ProofData { proof_with_pis, circuit_data })
}

fn user_proof_tagged(c: u64, tag: u64) -> UserProof<TraceBackend> {
    user_proof_inner(c, tag, true)
}

fn four_user_proofs(base_tag: u64, inputs: [u64; 4]) -> Vec<UserProof<TraceBackend>> {
    // four distinct circuit identities, as four distinct user circuits have
    vec![
        user_proof_tagged(inputs[0], base_tag),
        user_proof_tagged(inputs[1], base_tag + 10),
        user_proof_tagged(inputs[2], base_tag + 20),
        user_proof_tagged(inputs[3], base_tag + 30),
    ]
}

#[test]
fn four_leaf_happy_path() {
    let proofs = four_user_proofs(1000, [11, 22, 33, 44]);
    let tree = ZkTree::new(proofs).expect("tree construction failed");

    assert_eq!(tree.get_user_proofs().len(), 4);
    assert_eq!(tree.get_leaf_proofs().len(), 4);
    assert_eq!(tree.get_node_proofs().len(), 3);

    tree.verify().expect("tree verification failed");
    tree.check_input_commitment().expect("commitment check failed");

    // the root's eight public inputs are its input hash then its circuit hash
    let root = tree.root();
    let pis = <TraceBackend as Backend>::proof_public_inputs(
        &root.proof_data().proof_with_pis,
    );
    let mut expected = root.input_hash().to_vec();
    expected.extend(root.circuit_hash().to_vec());
    assert_eq!(pis, expected);

    // the root's input hash is the Merkle fold over the raw inputs
    let leaf_hashes: Vec<Vec<u64>> =
        [11u64, 22, 33, 44].iter().map(|&c| fold(&[c])).collect();
    let left = fold2(&leaf_hashes[0], &leaf_hashes[1]);
    let right = fold2(&leaf_hashes[2], &leaf_hashes[3]);
    assert_eq!(root.input_hash().to_vec(), fold2(&left, &right));
}

#[test]
fn malformed_user_proof_fails_tree_construction() {
    let mut proofs = four_user_proofs(2000, [5, 6, 7, 8]);
    proofs[1] = user_proof_inner(6, 2010, false);
    let r = ZkTree::new(proofs);
    assert!(matches!(r, Err(ZkError::BackendError)));
}

#[test]
fn batch_of_three_is_a_shape_error() {
    let proofs = vec![
        user_proof_tagged(1, 3000),
        user_proof_tagged(2, 3010),
        user_proof_tagged(3, 3020),
    ];
    let r = ZkTree::new(proofs);
    assert!(matches!(r, Err(ZkError::ShapeError)));
}

#[test]
fn batch_of_one_is_a_shape_error() {
    let proofs = vec![user_proof_tagged(1, 3100)];
    let r = ZkTree::new(proofs);
    assert!(matches!(r, Err(ZkError::ShapeError)));
}

#[test]
fn empty_batch_is_a_shape_error() {
    let r = ZkTree::<TraceBackend>::new(Vec::new());
    assert!(matches!(r, Err(ZkError::ShapeError)));
}

#[test]
fn digests_are_deterministic_across_trees() {
    // two trees over disjoint user proofs with identical shapes
    let tree_a =
        ZkTree::new(four_user_proofs(4000, [1, 2, 3, 4])).expect("first tree failed");
    let tree_b =
        ZkTree::new(four_user_proofs(5000, [9, 8, 7, 6])).expect("second tree failed");
    assert_eq!(
        tree_a.root().circuit_verifier_digest(),
        tree_b.root().circuit_verifier_digest()
    );
    // and the leaf circuits share one digest too
    assert_eq!(
        tree_a.get_leaf_proofs()[0].circuit_verifier_digest(),
        tree_b.get_leaf_proofs()[3].circuit_verifier_digest()
    );
}

#[test]
fn eight_leaf_tree_builds_and_verifies() {
    let mut proofs = four_user_proofs(6000, [1, 2, 3, 4]);
    proofs.extend(four_user_proofs(7000, [5, 6, 7, 8]));
    let tree = ZkTree::new(proofs).expect("tree construction failed");
    assert_eq!(tree.get_node_proofs().len(), 7);
    tree.verify().expect("tree verification failed");
}
