// Component-level checks: digests, the transparent hash, error taxonomy,
// leaf and node proofs.

use zktree::backend::Backend;
use zktree::digest::Digest;
use zktree::digest::FIELD_ORDER;
use zktree::errors::ZkError;
use zktree::leaf_circuit::LeafCircuit;
use zktree::node_circuit::NodeCircuit;
use zktree::leaf_proof::LeafProof;
use zktree::node_proof::NodeProof;
use zktree::proof_data::ProofData;
use zktree::trace_backend::TraceBackend;
use zktree::trace_backend::TraceCircuitData;
use zktree::trace_backend::TraceProof;
use zktree::trace_backend::MIX_MULT;
use zktree::tree_proof::Proof;
use zktree::user_proof::UserProof;

fn mix(state: u64, x: u64) -> u64 {
    ((state as u128 * MIX_MULT as u128 + x as u128 + 1) % (FIELD_ORDER as u128)) as u64
}

fn sponge(xs: &[u64]) -> [u64; 4] {
    let mut state: u64 = 0;
    for &x in xs {
        state = mix(state, x);
    }
    [mix(state, 1), mix(state, 2), mix(state, 3), mix(state, 4)]
}

fn fold(xs: &[u64]) -> [u64; 4] {
    if xs.len() <= 4 {
        let mut out = [0u64; 4];
        for (i, &x) in xs.iter().enumerate() {
            out[i] = x;
        }
        out
    } else {
        sponge(xs)
    }
}

fn digest(tag: u64) -> Digest {
    Digest::new(tag, tag + 1, tag + 2, tag + 3)
}

fn user_proof(c: u64, tag: u64, valid: bool) -> UserProof<TraceBackend> {
    let d = digest(tag);
    let circuit_data = TraceCircuitData::new(d, 1);
    let proof_with_pis = TraceProof::new(vec![c], d, valid);
    UserProof::new(vec![vec![c]], d, ProofData { proof_with_pis, circuit_data })
}

#[test]
fn digest_round_trip() {
    let d = Digest::new(1, 2, 3, 4);
    assert_eq!(d.to_vec(), vec![1, 2, 3, 4]);
    assert_eq!(d, Digest::new(1, 2, 3, 4));
    assert_ne!(d, Digest::new(4, 3, 2, 1));
}

#[test]
fn hash_or_noop_short_input_is_padded() {
    let h = <TraceBackend as Backend>::hash_or_noop(&vec![7, 9]);
    assert_eq!(h.to_vec(), vec![7, 9, 0, 0]);
    let empty = <TraceBackend as Backend>::hash_or_noop(&vec![]);
    assert_eq!(empty.to_vec(), vec![0, 0, 0, 0]);
}

#[test]
fn hash_or_noop_long_input_matches_mix_formula() {
    let input = vec![5u64, 6, 7, 8, 9];
    let h = <TraceBackend as Backend>::hash_or_noop(&input);
    assert_eq!(h.to_vec(), sponge(&input).to_vec());
    // deterministic across calls
    let again = <TraceBackend as Backend>::hash_or_noop(&input);
    assert_eq!(h, again);
    // and sensitive to the input
    let other = <TraceBackend as Backend>::hash_or_noop(&vec![5u64, 6, 7, 8, 10]);
    assert_ne!(h, other);
}

#[test]
fn error_variants_are_distinct() {
    assert_eq!(ZkError::ShapeError, ZkError::ShapeError);
    assert_ne!(ZkError::ShapeError, ZkError::BackendError);
    assert_ne!(ZkError::SiblingDigestMismatch, ZkError::ArityMismatch);
}

#[test]
fn leaf_proof_exposes_folded_hashes() {
    let input_hash = digest(40);
    let user_circuit_hash = digest(50);
    let d = digest(60);
    let proof_data = ProofData::<TraceBackend> {
        proof_with_pis: TraceProof::new(vec![], d, true),
        circuit_data: TraceCircuitData::new(d, 0),
    };
    let leaf = LeafProof::new(input_hash, user_circuit_hash, proof_data);
    assert_eq!(leaf.input_hash(), input_hash);
    assert_eq!(leaf.circuit_verifier_digest(), d);
    let mut preimage = d.to_vec();
    preimage.extend(user_circuit_hash.to_vec());
    assert_eq!(leaf.circuit_hash().to_vec(), fold(&preimage).to_vec());
}

#[test]
fn leaf_proof_from_user_proof_binds_public_inputs() {
    let up = user_proof(33, 100, true);
    let leaf = LeafProof::new_from_user_proof(&up).expect("leaf proving failed");
    // input hash: the single input in the clear, zero-padded
    assert_eq!(leaf.input_hash().to_vec(), vec![33, 0, 0, 0]);
    // the proof's public inputs are input hash followed by circuit hash
    let pis = <TraceBackend as Backend>::proof_public_inputs(
        &leaf.proof_data().proof_with_pis,
    );
    let mut expected = leaf.input_hash().to_vec();
    expected.extend(leaf.circuit_hash().to_vec());
    assert_eq!(pis, expected);
    // the circuit hash folds the leaf circuit's digest with the user's
    let mut preimage = leaf.circuit_verifier_digest().to_vec();
    expected = fold(&{
        preimage.extend(up.circuit_hash().to_vec());
        preimage
    })
    .to_vec();
    assert_eq!(leaf.circuit_hash().to_vec(), expected);
}

#[test]
fn user_proof_exposes_raw_inputs() {
    let up = user_proof(42, 800, true);
    assert_eq!(up.user_public_inputs(), vec![vec![42]]);
    assert_eq!(up.input_hash().to_vec(), vec![42, 0, 0, 0]);
    assert_eq!(up.circuit_hash(), digest(800));
    assert_eq!(up.circuit_verifier_digest(), digest(800));
}

#[test]
fn leaf_circuit_evaluate_returns_user_digests() {
    let up = user_proof(13, 900, true);
    let circuit = LeafCircuit::<TraceBackend>::new(&up);
    let (input_hash, circuit_hash) = circuit.evaluate();
    assert_eq!(input_hash.to_vec(), vec![13, 0, 0, 0]);
    assert_eq!(circuit_hash, digest(900));
}

#[test]
fn leaf_proof_rejects_arity_mismatch() {
    // the user proof declares two public inputs, the inputs flatten to one
    let d = digest(200);
    let circuit_data = TraceCircuitData::new(d, 2);
    let proof_with_pis = TraceProof::new(vec![4, 5], d, true);
    let up = UserProof::<TraceBackend>::new(
        vec![vec![4]],
        d,
        ProofData { proof_with_pis, circuit_data },
    );
    let r = LeafProof::new_from_user_proof(&up);
    assert!(matches!(r, Err(ZkError::ArityMismatch)));
}

#[test]
fn fill_before_build_reports_digest_unset() {
    let up = user_proof(8, 300, true);
    let circuit = LeafCircuit::<TraceBackend>::new(&up);
    let (_builder, targets, out_targets) = circuit.compile();
    let r = circuit.fill(targets, out_targets);
    assert!(matches!(r, Err(ZkError::VerifierDigestUnset)));
}

#[test]
fn prove_and_verify_round_trips() {
    let up = user_proof(21, 1000, true);
    let leaf_circuit = LeafCircuit::<TraceBackend>::new(&up);
    leaf_circuit.prove_and_verify().expect("leaf prove-and-verify failed");

    let up_left = user_proof(3, 1100, true);
    let up_right = user_proof(4, 1100, true);
    let left = LeafProof::new_from_user_proof(&up_left).expect("left leaf failed");
    let right = LeafProof::new_from_user_proof(&up_right).expect("right leaf failed");
    let node_circuit = NodeCircuit::new(&left, &right);
    node_circuit.prove_and_verify().expect("node prove-and-verify failed");
}

#[test]
fn fresh_proofs_verify_under_their_own_circuits() {
    let up = user_proof(17, 1200, true);
    let leaf = LeafProof::new_from_user_proof(&up).expect("leaf proving failed");
    let pd = leaf.proof_data();
    <TraceBackend as Backend>::verify(&pd.circuit_data, &pd.proof_with_pis)
        .expect("leaf proof failed reverification");
}

#[test]
fn node_proof_folds_children() {
    let up_left = user_proof(1, 400, true);
    let up_right = user_proof(2, 400, true);
    let left = LeafProof::new_from_user_proof(&up_left).expect("left leaf failed");
    let right = LeafProof::new_from_user_proof(&up_right).expect("right leaf failed");
    let node = NodeProof::new_from_children(&left, &right).expect("node proving failed");

    let mut input_preimage = left.input_hash().to_vec();
    input_preimage.extend(right.input_hash().to_vec());
    assert_eq!(node.input_hash().to_vec(), fold(&input_preimage).to_vec());

    let mut circuit_preimage = left.circuit_hash().to_vec();
    circuit_preimage.extend(node.circuit_verifier_digest().to_vec());
    circuit_preimage.extend(right.circuit_hash().to_vec());
    assert_eq!(node.circuit_hash().to_vec(), fold(&circuit_preimage).to_vec());

    let pis = <TraceBackend as Backend>::proof_public_inputs(
        &node.proof_data().proof_with_pis,
    );
    let mut expected = node.input_hash().to_vec();
    expected.extend(node.circuit_hash().to_vec());
    assert_eq!(pis, expected);
}

#[test]
fn heterogeneous_siblings_are_rejected() {
    // two node-shaped proofs whose circuit verifier digests differ
    let d_left = digest(500);
    let d_right = digest(600);
    let left = NodeProof::<TraceBackend>::new(
        ProofData {
            proof_with_pis: TraceProof::new(vec![], d_left, true),
            circuit_data: TraceCircuitData::new(d_left, 8),
        },
        digest(10),
        digest(20),
    );
    let right = NodeProof::<TraceBackend>::new(
        ProofData {
            proof_with_pis: TraceProof::new(vec![], d_right, true),
            circuit_data: TraceCircuitData::new(d_right, 8),
        },
        digest(30),
        digest(40),
    );
    let r = NodeProof::new_from_children(&left, &right);
    assert!(matches!(r, Err(ZkError::SiblingDigestMismatch)));
}

#[test]
fn node_children_need_eight_public_inputs() {
    // homogeneous digests, but the children expose only four public inputs
    let d = digest(700);
    let left = NodeProof::<TraceBackend>::new(
        ProofData {
            proof_with_pis: TraceProof::new(vec![1, 2, 3, 4], d, true),
            circuit_data: TraceCircuitData::new(d, 4),
        },
        digest(10),
        digest(20),
    );
    let right = NodeProof::<TraceBackend>::new(
        ProofData {
            proof_with_pis: TraceProof::new(vec![5, 6, 7, 8], d, true),
            circuit_data: TraceCircuitData::new(d, 4),
        },
        digest(30),
        digest(40),
    );
    let r = NodeProof::new_from_children(&left, &right);
    assert!(matches!(r, Err(ZkError::ArityMismatch)));
}
