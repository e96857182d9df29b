use vstd::prelude::*;

use crate::backend::Backend;
use crate::digest::lemma_concat_canonical;
use crate::digest::Digest;
use crate::errors::ZkError;
use crate::hashing::fold_hash;
use crate::leaf_circuit::LeafCircuit;
use crate::proof_data::ProofData;
use crate::tree_proof::Proof;
use crate::user_proof::UserProof;

verus! {

/// A proof for one leaf of the tree: the hash of the user's public inputs,
/// the user's declared circuit hash, and the leaf circuit's proof data.
/// Immutable after construction.
#[verifier::reject_recursive_types(B)]
pub struct LeafProof<B: Backend> {
    hash_user_public_inputs: Digest,
    user_circuit_hash: Digest,
    proof_data: ProofData<B>,
}

/// What building a leaf proof from a user proof establishes: the leaf's
/// input hash is the user's input hash; its claimed circuit identity is the
/// verifier digest of its own stored circuit data; its circuit hash folds
/// that digest with the user's declared circuit hash; its proof exposes
/// exactly those eight elements as public inputs and verifies under its own
/// circuit data; and it carries no raw user inputs of its own.
pub open spec fn leaf_from_user<B: Backend>(lp: LeafProof<B>, up: UserProof<B>) -> bool {
    &&& lp.spec_input_hash() == up.spec_input_hash()
    &&& lp.spec_verifier_digest() == B::digest_of(lp.spec_proof_data().circuit_data)
    &&& lp.spec_circuit_hash() == fold_hash::<B>(
        lp.spec_verifier_digest() + up.spec_circuit_hash(),
    )
    &&& B::public_inputs_of(lp.spec_proof_data().proof_with_pis) == lp.spec_input_hash()
        + lp.spec_circuit_hash()
    &&& B::verify_ok(lp.spec_proof_data().circuit_data, lp.spec_proof_data().proof_with_pis)
    &&& lp.spec_user_inputs() == Seq::<Seq<u64>>::empty()
}

impl<B: Backend> LeafProof<B> {
    pub fn new(
        hash_user_public_inputs: Digest,
        user_circuit_hash: Digest,
        proof_data: ProofData<B>,
    ) -> (r: Self)
        ensures
            r.spec_input_hash() == hash_user_public_inputs@,
            r.spec_circuit_hash() == fold_hash::<B>(
                B::digest_of(proof_data.circuit_data) + user_circuit_hash@,
            ),
            r.spec_verifier_digest() == B::digest_of(proof_data.circuit_data),
            r.spec_proof_data() == proof_data,
            r.spec_user_inputs() == Seq::<Seq<u64>>::empty(),
            r.wf(),
    {
        LeafProof { hash_user_public_inputs, user_circuit_hash, proof_data }
    }

    /// Builds the leaf proof for one user proof: hashes the user's public
    /// inputs natively, compiles, fills and proves the leaf circuit, and
    /// records the user's declared circuit hash.
    pub fn new_from_user_proof(user_proof: &UserProof<B>) -> (r: Result<Self, ZkError>)
        requires
            user_proof.wf(),
        ensures
            r matches Ok(lp) ==> leaf_from_user(lp, *user_proof) && lp.wf(),
            r == Err::<LeafProof<B>, ZkError>(ZkError::ArityMismatch) <==> B::public_inputs_of(
                user_proof.spec_proof_data().proof_with_pis,
            ).len() != user_proof.spec_user_inputs().flatten().len(),
            r != Err::<LeafProof<B>, ZkError>(ZkError::ShapeError),
    {
        let hash_user_public_inputs = user_proof.input_hash();
        let user_circuit_hash = user_proof.circuit_hash();

        let leaf_circuit = LeafCircuit::new(user_proof);
        let proof_data = match leaf_circuit.prove() {
            Ok(pd) => pd,
            Err(e) => {
                return Err(e);
            },
        };
        Ok(LeafProof { hash_user_public_inputs, user_circuit_hash, proof_data })
    }
}

impl<B: Backend> Proof<B> for LeafProof<B> {
    closed spec fn spec_input_hash(&self) -> Seq<u64> {
        self.hash_user_public_inputs@
    }

    closed spec fn spec_circuit_hash(&self) -> Seq<u64> {
        fold_hash::<B>(B::digest_of(self.proof_data.circuit_data) + self.user_circuit_hash@)
    }

    closed spec fn spec_verifier_digest(&self) -> Seq<u64> {
        B::digest_of(self.proof_data.circuit_data)
    }

    closed spec fn spec_proof_data(&self) -> ProofData<B> {
        self.proof_data
    }

    closed spec fn spec_user_inputs(&self) -> Seq<Seq<u64>> {
        Seq::empty()
    }

    // Constantly true: the canonical form of the stored digests is already
    // carried by Digest's type invariant, so a leaf proof has no
    // well-formedness condition of its own.
    closed spec fn wf(&self) -> bool {
        true
    }

    /// Folds the leaf circuit's own verifier digest with the user's
    /// declared circuit hash.
    fn circuit_hash(&self) -> (r: Digest) {
        let circuit_verifier_digest = B::circuit_digest(&self.proof_data.circuit_data);
        let mut preimage = circuit_verifier_digest.to_vec();
        self.user_circuit_hash.append_to(&mut preimage);
        proof {
            use_type_invariant(&circuit_verifier_digest);
            use_type_invariant(&self.user_circuit_hash);
            lemma_concat_canonical(circuit_verifier_digest@, self.user_circuit_hash@);
        }
        B::hash_or_noop(&preimage)
    }

    /// The verifier digest of the leaf circuit this proof was produced by.
    fn circuit_verifier_digest(&self) -> (r: Digest) {
        B::circuit_digest(&self.proof_data.circuit_data)
    }

    fn input_hash(&self) -> (r: Digest) {
        self.hash_user_public_inputs
    }

    fn proof_data(&self) -> (r: &ProofData<B>) {
        &self.proof_data
    }

    /// Empty: a leaf proof carries no raw user inputs of its own.
    fn user_public_inputs(&self) -> (r: Vec<Vec<u64>>) {
        let r: Vec<Vec<u64>> = Vec::new();
        proof {
            assert(r.deep_view() =~= Seq::<Seq<u64>>::empty());
        }
        r
    }
}

} // verus!
