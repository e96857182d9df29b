use vstd::prelude::*;

use crate::backend::Backend;
use crate::digest::lemma_concat_canonical;
use crate::digest::Digest;
use crate::errors::ZkError;
use crate::hashing::fold_hash;
use crate::node_circuit::NodeCircuit;
use crate::proof_data::ProofData;
use crate::tree_proof::Proof;

verus! {

/// A proof for an interior node of the tree: the folded input and circuit
/// hashes of its two children, and the node circuit's proof data.
/// Immutable after construction; a node proof does not retain its children.
#[verifier::reject_recursive_types(B)]
pub struct NodeProof<B: Backend> {
    proof_data: ProofData<B>,
    input_hash: Digest,
    circuit_hash: Digest,
}

/// What building a node proof from two children establishes: the children
/// share one circuit verifier digest; the node's claimed circuit identity
/// is the verifier digest of its own stored circuit data; its input hash
/// folds the two child input hashes; its circuit hash folds the left child
/// circuit hash, that digest and the right child circuit hash, in that
/// order; its proof exposes exactly those eight elements as public inputs
/// and verifies under its own circuit data; and it carries no raw user
/// inputs of its own.
pub open spec fn node_from_children<B: Backend, P: Proof<B>>(
    nd: NodeProof<B>,
    left: P,
    right: P,
) -> bool {
    &&& B::digest_of(left.spec_proof_data().circuit_data) == B::digest_of(
        right.spec_proof_data().circuit_data,
    )
    &&& nd.spec_verifier_digest() == B::digest_of(nd.spec_proof_data().circuit_data)
    &&& nd.spec_input_hash() == fold_hash::<B>(
        left.spec_input_hash() + right.spec_input_hash(),
    )
    &&& nd.spec_circuit_hash() == fold_hash::<B>(
        left.spec_circuit_hash() + nd.spec_verifier_digest() + right.spec_circuit_hash(),
    )
    &&& B::public_inputs_of(nd.spec_proof_data().proof_with_pis) == nd.spec_input_hash()
        + nd.spec_circuit_hash()
    &&& B::verify_ok(nd.spec_proof_data().circuit_data, nd.spec_proof_data().proof_with_pis)
    &&& nd.spec_user_inputs() == Seq::<Seq<u64>>::empty()
}

impl<B: Backend> NodeProof<B> {
    pub fn new(proof_data: ProofData<B>, input_hash: Digest, circuit_hash: Digest) -> (r: Self)
        ensures
            r.spec_input_hash() == input_hash@,
            r.spec_circuit_hash() == circuit_hash@,
            r.spec_verifier_digest() == B::digest_of(proof_data.circuit_data),
            r.spec_proof_data() == proof_data,
            r.spec_user_inputs() == Seq::<Seq<u64>>::empty(),
            r.wf(),
    {
        NodeProof { proof_data, input_hash, circuit_hash }
    }

    /// Builds the node proof over two children: folds their input hashes,
    /// rejects children whose circuit verifier digests differ, proves the
    /// node circuit, and folds the circuit hashes around the freshly built
    /// circuit's own verifier digest.
    pub fn new_from_children<P: Proof<B>>(
        left_node_proof: &P,
        right_node_proof: &P,
    ) -> (r: Result<Self, ZkError>)
        requires
            left_node_proof.wf(),
            right_node_proof.wf(),
        ensures
            r matches Ok(nd) ==> node_from_children(nd, *left_node_proof, *right_node_proof)
                && nd.wf(),
            r == Err::<NodeProof<B>, ZkError>(ZkError::SiblingDigestMismatch) <==> B::digest_of(
                left_node_proof.spec_proof_data().circuit_data,
            ) != B::digest_of(right_node_proof.spec_proof_data().circuit_data),
            r == Err::<NodeProof<B>, ZkError>(ZkError::ArityMismatch) <==> (B::digest_of(
                left_node_proof.spec_proof_data().circuit_data,
            ) == B::digest_of(right_node_proof.spec_proof_data().circuit_data) && (
            B::public_inputs_of(left_node_proof.spec_proof_data().proof_with_pis).len() != 8
                || B::public_inputs_of(right_node_proof.spec_proof_data().proof_with_pis).len()
                != 8)),
            r != Err::<NodeProof<B>, ZkError>(ZkError::ShapeError),
    {
        let left_node_input_hash = left_node_proof.input_hash();
        let right_node_input_hash = right_node_proof.input_hash();
        let mut input_preimage = left_node_input_hash.to_vec();
        right_node_input_hash.append_to(&mut input_preimage);
        proof {
            use_type_invariant(&left_node_input_hash);
            use_type_invariant(&right_node_input_hash);
            lemma_concat_canonical(left_node_input_hash@, right_node_input_hash@);
        }
        let input_hash = B::hash_or_noop(&input_preimage);

        let left_node_circuit_hash = left_node_proof.circuit_hash();
        let right_node_circuit_hash = right_node_proof.circuit_hash();
        let left_node_verifier_data_hash = B::circuit_digest(
            &left_node_proof.proof_data().circuit_data,
        );
        let right_node_verifier_data_hash = B::circuit_digest(
            &right_node_proof.proof_data().circuit_data,
        );
        proof {
            crate::digest::lemma_digest_eq_view(
                left_node_verifier_data_hash,
                right_node_verifier_data_hash,
            );
        }
        if !(left_node_verifier_data_hash == right_node_verifier_data_hash) {
            return Err(ZkError::SiblingDigestMismatch);
        }

        let node_circuit = NodeCircuit::new(left_node_proof, right_node_proof);
        let proof_data = match node_circuit.prove() {
            Ok(pd) => pd,
            Err(e) => {
                return Err(e);
            },
        };

        let verifier_circuit_digest = B::circuit_digest(&proof_data.circuit_data);
        let mut circuit_preimage = left_node_circuit_hash.to_vec();
        verifier_circuit_digest.append_to(&mut circuit_preimage);
        right_node_circuit_hash.append_to(&mut circuit_preimage);
        proof {
            use_type_invariant(&left_node_circuit_hash);
            use_type_invariant(&verifier_circuit_digest);
            use_type_invariant(&right_node_circuit_hash);
            lemma_concat_canonical(left_node_circuit_hash@, verifier_circuit_digest@);
            lemma_concat_canonical(
                left_node_circuit_hash@ + verifier_circuit_digest@,
                right_node_circuit_hash@,
            );
        }
        let circuit_hash = B::hash_or_noop(&circuit_preimage);

        Ok(NodeProof { input_hash, circuit_hash, proof_data })
    }
}

impl<B: Backend> Proof<B> for NodeProof<B> {
    closed spec fn spec_input_hash(&self) -> Seq<u64> {
        self.input_hash@
    }

    closed spec fn spec_circuit_hash(&self) -> Seq<u64> {
        self.circuit_hash@
    }

    closed spec fn spec_verifier_digest(&self) -> Seq<u64> {
        B::digest_of(self.proof_data.circuit_data)
    }

    closed spec fn spec_proof_data(&self) -> ProofData<B> {
        self.proof_data
    }

    closed spec fn spec_user_inputs(&self) -> Seq<Seq<u64>> {
        Seq::empty()
    }

    // Constantly true: the canonical form of the stored digests is already
    // carried by Digest's type invariant, so a node proof has no
    // well-formedness condition of its own.
    closed spec fn wf(&self) -> bool {
        true
    }

    /// Empty: a node proof carries no raw user inputs of its own.
    fn user_public_inputs(&self) -> (r: Vec<Vec<u64>>) {
        let r: Vec<Vec<u64>> = Vec::new();
        proof {
            assert(r.deep_view() =~= Seq::<Seq<u64>>::empty());
        }
        r
    }

    fn circuit_hash(&self) -> (r: Digest) {
        self.circuit_hash
    }

    fn input_hash(&self) -> (r: Digest) {
        self.input_hash
    }

    fn proof_data(&self) -> (r: &ProofData<B>) {
        &self.proof_data
    }

    /// The verifier digest of the node circuit this proof was produced by.
    fn circuit_verifier_digest(&self) -> (r: Digest) {
        B::circuit_digest(&self.proof_data.circuit_data)
    }
}

} // verus!
