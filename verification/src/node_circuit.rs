use vstd::prelude::*;

use core::marker::PhantomData;

use crate::backend::Backend;
use crate::digest::lemma_concat_canonical;
use crate::digest::Digest;
use crate::errors::ZkError;
use crate::hashing::fold_hash;
use crate::hashing::vecs_equal;
use crate::proof_data::ProofData;
use crate::tree_proof::Proof;

verus! {

/// The wire bundles the node circuit hands from `compile` to `fill`: the
/// two child proof images, the two child verifier-data images, and the five
/// hash targets (left input, right input, left circuit, right circuit, and
/// self verifier digest).
pub type NodeTargets<B> = (
    [<B as Backend>::ProofTarget; 2],
    [<B as Backend>::VerifierTarget; 2],
    [<B as Backend>::HashTarget; 5],
);

/// The arithmetized node circuit: verifies two homogeneous child proofs
/// in-circuit and folds their input and circuit digests into the fixed
/// two-digest public-input layout.
///
/// Like the leaf circuit, it references its own verifier digest as a
/// witness value, established by a two-phase build.
#[verifier::reject_recursive_types(B)]
#[verifier::reject_recursive_types(P)]
pub struct NodeCircuit<'a, B: Backend, P: Proof<B>> {
    left_child: &'a P,
    right_child: &'a P,
    verifier_circuit_digest: Option<Digest>,
    phantom_data: PhantomData<B>,
}

impl<'a, B: Backend, P: Proof<B>> NodeCircuit<'a, B, P> {
    /// The left child.
    pub closed spec fn spec_left(&self) -> P {
        *self.left_child
    }

    /// The right child.
    pub closed spec fn spec_right(&self) -> P {
        *self.right_child
    }

    /// The cached self verifier digest, set by `compile_and_build`.
    pub closed spec fn digest_cache(&self) -> Option<Digest> {
        self.verifier_circuit_digest
    }

    pub fn new(left_child: &'a P, right_child: &'a P) -> (r: Self)
        ensures
            r.spec_left() == *left_child,
            r.spec_right() == *right_child,
            r.digest_cache() is None,
    {
        NodeCircuit { left_child, right_child, verifier_circuit_digest: None, phantom_data: PhantomData }
    }

    /// Lays the node circuit out in a fresh builder: recursive verification
    /// of both children, the registered input-hash and circuit-hash public
    /// inputs with their folding gadgets, the in-circuit equality of the two
    /// children's verifier digests, and the wire-by-wire binding of each
    /// child's eight public inputs to its input- and circuit-hash targets.
    /// A child whose public-input arity is not eight gets the unsatisfiable
    /// constraint true == false.
    pub fn compile(&self) -> (r: (B::Builder, NodeTargets<B>, (B::HashTarget, B::HashTarget)))
        ensures
            B::registered_pis(r.0) == B::hash_wires(r.2.1) + B::hash_wires(r.2.0),
    {
        let mut builder = B::new_builder();

        let left_pd = self.left_child.proof_data();
        let left_proof_with_pis_targets = B::add_virtual_proof_with_pis(
            &mut builder,
            &left_pd.circuit_data,
        );
        let left_verifier_data_targets = B::add_virtual_verifier_data(
            &mut builder,
            &left_pd.circuit_data,
        );
        B::verify_proof_gadget(
            &mut builder,
            &left_proof_with_pis_targets,
            &left_verifier_data_targets,
            &left_pd.circuit_data,
        );

        let right_pd = self.right_child.proof_data();
        let right_proof_with_pis_targets = B::add_virtual_proof_with_pis(
            &mut builder,
            &right_pd.circuit_data,
        );
        let right_verifier_data_targets = B::add_virtual_verifier_data(
            &mut builder,
            &right_pd.circuit_data,
        );
        B::verify_proof_gadget(
            &mut builder,
            &right_proof_with_pis_targets,
            &right_verifier_data_targets,
            &right_pd.circuit_data,
        );

        let left_child_input_hash_targets = B::add_virtual_hash(&mut builder);
        let right_child_input_hash_targets = B::add_virtual_hash(&mut builder);
        let node_input_hash_targets = B::add_virtual_hash(&mut builder);
        B::register_public_input_hash(&mut builder, &node_input_hash_targets);
        let mut input_hash_preimage = B::hash_target_elements(&left_child_input_hash_targets);
        let mut right_input_elements = B::hash_target_elements(&right_child_input_hash_targets);
        input_hash_preimage.append(&mut right_input_elements);
        let should_be_node_input_hash_targets = B::hash_or_noop_gadget(
            &mut builder,
            &input_hash_preimage,
        );
        B::connect_hashes(
            &mut builder,
            &node_input_hash_targets,
            &should_be_node_input_hash_targets,
        );

        let left_child_circuit_hash_targets = B::add_virtual_hash(&mut builder);
        let right_child_circuit_hash_targets = B::add_virtual_hash(&mut builder);
        let node_circuit_hash_targets = B::add_virtual_hash(&mut builder);
        B::register_public_input_hash(&mut builder, &node_circuit_hash_targets);

        // the two child circuit digests must be the same
        let left_digest_target = B::verifier_digest_target(&left_verifier_data_targets);
        let right_digest_target = B::verifier_digest_target(&right_verifier_data_targets);
        B::connect_hashes(&mut builder, &left_digest_target, &right_digest_target);

        let verifier_circuit_digest_targets = B::add_virtual_hash(&mut builder);
        let mut circuit_hash_preimage = B::hash_target_elements(&left_child_circuit_hash_targets);
        let mut self_digest_elements = B::hash_target_elements(&verifier_circuit_digest_targets);
        let mut right_circuit_elements = B::hash_target_elements(&right_child_circuit_hash_targets);
        circuit_hash_preimage.append(&mut self_digest_elements);
        circuit_hash_preimage.append(&mut right_circuit_elements);
        let should_be_node_circuit_hash_targets = B::hash_or_noop_gadget(
            &mut builder,
            &circuit_hash_preimage,
        );
        B::connect_hashes(
            &mut builder,
            &node_circuit_hash_targets,
            &should_be_node_circuit_hash_targets,
        );

        let true_bool_target = B::bool_true_target(&mut builder);
        let false_bool_target = B::bool_false_target(&mut builder);
        let true_wire = B::bool_target(&true_bool_target);
        let false_wire = B::bool_target(&false_bool_target);

        let ghost registered = B::registered_pis(builder);
        let left_pi_targets = B::pi_targets(&left_proof_with_pis_targets);
        if left_pi_targets.len() != 8 {
            B::connect(&mut builder, &true_wire, &false_wire);
        } else {
            let left_input_elements = B::hash_target_elements(&left_child_input_hash_targets);
            let left_circuit_elements = B::hash_target_elements(&left_child_circuit_hash_targets);
            let mut i: usize = 0;
            while i < 4
                invariant
                    i <= 4,
                    left_pi_targets@.len() == 8,
                    left_input_elements@.len() == 4,
                    left_circuit_elements@.len() == 4,
                    B::registered_pis(builder) == registered,
                decreases 4 - i,
            {
                B::connect(&mut builder, &left_pi_targets[i], &left_input_elements[i]);
                B::connect(&mut builder, &left_pi_targets[4 + i], &left_circuit_elements[i]);
                i = i + 1;
            }
        }

        let right_pi_targets = B::pi_targets(&right_proof_with_pis_targets);
        if right_pi_targets.len() != 8 {
            B::connect(&mut builder, &true_wire, &false_wire);
        } else {
            let right_input_elements = B::hash_target_elements(&right_child_input_hash_targets);
            let right_circuit_elements = B::hash_target_elements(&right_child_circuit_hash_targets);
            let mut i: usize = 0;
            while i < 4
                invariant
                    i <= 4,
                    right_pi_targets@.len() == 8,
                    right_input_elements@.len() == 4,
                    right_circuit_elements@.len() == 4,
                    B::registered_pis(builder) == registered,
                decreases 4 - i,
            {
                B::connect(&mut builder, &right_pi_targets[i], &right_input_elements[i]);
                B::connect(&mut builder, &right_pi_targets[4 + i], &right_circuit_elements[i]);
                i = i + 1;
            }
        }

        proof {
            assert(B::registered_pis(builder) =~= B::hash_wires(node_input_hash_targets)
                + B::hash_wires(node_circuit_hash_targets));
        }
        (
            builder,
            (
                [left_proof_with_pis_targets, right_proof_with_pis_targets],
                [left_verifier_data_targets, right_verifier_data_targets],
                [
                    left_child_input_hash_targets,
                    right_child_input_hash_targets,
                    left_child_circuit_hash_targets,
                    right_child_circuit_hash_targets,
                    verifier_circuit_digest_targets,
                ],
            ),
            (node_circuit_hash_targets, node_input_hash_targets),
        )
    }

    /// Compiles and builds the circuit, caching its verifier digest for the
    /// witness fill.
    pub fn compile_and_build(&mut self) -> (r: (
        B::CircuitData,
        NodeTargets<B>,
        (B::HashTarget, B::HashTarget),
    ))
        ensures
            final(self).spec_left() == old(self).spec_left(),
            final(self).spec_right() == old(self).spec_right(),
            final(self).digest_cache() is Some,
            final(self).digest_cache().unwrap()@ == B::digest_of(r.0),
    {
        let (circuit_builder, targets, out_targets) = self.compile();
        let circuit_data = B::build(circuit_builder);
        self.verifier_circuit_digest = Some(B::circuit_digest(&circuit_data));
        (circuit_data, targets, out_targets)
    }

    /// The two digests the filled circuit will expose: the folded circuit
    /// hash and the folded input hash.
    pub fn evaluate(&self) -> (r: (Digest, Digest))
        requires
            self.spec_left().wf(),
            self.spec_right().wf(),
            self.digest_cache() is Some,
        ensures
            r.0@ == fold_hash::<B>(
                self.spec_left().spec_circuit_hash() + self.digest_cache().unwrap()@
                    + self.spec_right().spec_circuit_hash(),
            ),
            r.1@ == fold_hash::<B>(
                self.spec_left().spec_input_hash() + self.spec_right().spec_input_hash(),
            ),
    {
        let left_child_circuit_hash = self.left_child.circuit_hash();
        let right_child_circuit_hash = self.right_child.circuit_hash();
        let left_child_input_hash = self.left_child.input_hash();
        let right_child_input_hash = self.right_child.input_hash();
        let verifier_circuit_digest = match self.verifier_circuit_digest {
            Some(d) => d,
            None => {
                proof {
                    assert(false);
                }
                Digest::new(0, 0, 0, 0)
            },
        };

        let mut circuit_preimage = left_child_circuit_hash.to_vec();
        verifier_circuit_digest.append_to(&mut circuit_preimage);
        right_child_circuit_hash.append_to(&mut circuit_preimage);
        proof {
            use_type_invariant(&left_child_circuit_hash);
            use_type_invariant(&verifier_circuit_digest);
            use_type_invariant(&right_child_circuit_hash);
            lemma_concat_canonical(left_child_circuit_hash@, verifier_circuit_digest@);
            lemma_concat_canonical(
                left_child_circuit_hash@ + verifier_circuit_digest@,
                right_child_circuit_hash@,
            );
        }
        let node_circuit_hash = B::hash_or_noop(&circuit_preimage);

        let mut input_preimage = left_child_input_hash.to_vec();
        right_child_input_hash.append_to(&mut input_preimage);
        proof {
            use_type_invariant(&left_child_input_hash);
            use_type_invariant(&right_child_input_hash);
            lemma_concat_canonical(left_child_input_hash@, right_child_input_hash@);
        }
        let node_input_hash = B::hash_or_noop(&input_preimage);

        (node_circuit_hash, node_input_hash)
    }

    /// Fills a witness for the compiled circuit: both child proofs with
    /// their verifier data, the four child digests, the cached self digest,
    /// and the two folded node digests.  Fails with `VerifierDigestUnset`
    /// when invoked before `compile_and_build`.
    pub fn fill(
        &self,
        targets: NodeTargets<B>,
        out_targets: (B::HashTarget, B::HashTarget),
    ) -> (r: Result<B::Witness, ZkError>)
        requires
            self.spec_left().wf(),
            self.spec_right().wf(),
        ensures
            self.digest_cache() is None <==> r == Err::<B::Witness, ZkError>(
                ZkError::VerifierDigestUnset,
            ),
            r is Err ==> r == Err::<B::Witness, ZkError>(ZkError::VerifierDigestUnset) || r
                == Err::<B::Witness, ZkError>(ZkError::BackendError),
    {
        let verifier_circuit_digest = match self.verifier_circuit_digest {
            Some(d) => d,
            None => {
                return Err(ZkError::VerifierDigestUnset);
            },
        };
        let (proof_targets, verifier_targets, hash_targets) = targets;
        let (node_circuit_hash_targets, node_input_hash_targets) = out_targets;

        let mut partial_witness = B::new_partial_witness();
        let left_pd = self.left_child.proof_data();
        let right_pd = self.right_child.proof_data();
        match B::set_proof_with_pis_target(
            &mut partial_witness,
            &proof_targets[0],
            &left_pd.proof_with_pis,
        ) {
            Ok(u) => u,
            Err(e) => {
                return Err(e);
            },
        }
        match B::set_proof_with_pis_target(
            &mut partial_witness,
            &proof_targets[1],
            &right_pd.proof_with_pis,
        ) {
            Ok(u) => u,
            Err(e) => {
                return Err(e);
            },
        }
        match B::set_verifier_data_target(
            &mut partial_witness,
            &verifier_targets[0],
            &left_pd.circuit_data,
        ) {
            Ok(u) => u,
            Err(e) => {
                return Err(e);
            },
        }
        match B::set_verifier_data_target(
            &mut partial_witness,
            &verifier_targets[1],
            &right_pd.circuit_data,
        ) {
            Ok(u) => u,
            Err(e) => {
                return Err(e);
            },
        }
        let left_circuit_hash = self.left_child.circuit_hash();
        match B::set_hash_target(&mut partial_witness, &hash_targets[2], &left_circuit_hash) {
            Ok(u) => u,
            Err(e) => {
                return Err(e);
            },
        }
        let right_circuit_hash = self.right_child.circuit_hash();
        match B::set_hash_target(&mut partial_witness, &hash_targets[3], &right_circuit_hash) {
            Ok(u) => u,
            Err(e) => {
                return Err(e);
            },
        }
        let left_input_hash = self.left_child.input_hash();
        match B::set_hash_target(&mut partial_witness, &hash_targets[0], &left_input_hash) {
            Ok(u) => u,
            Err(e) => {
                return Err(e);
            },
        }
        let right_input_hash = self.right_child.input_hash();
        match B::set_hash_target(&mut partial_witness, &hash_targets[1], &right_input_hash) {
            Ok(u) => u,
            Err(e) => {
                return Err(e);
            },
        }
        match B::set_hash_target(&mut partial_witness, &hash_targets[4], &verifier_circuit_digest)
        {
            Ok(u) => u,
            Err(e) => {
                return Err(e);
            },
        }
        let (node_circuit_hash, node_input_hash) = self.evaluate();
        match B::set_hash_target(&mut partial_witness, &node_circuit_hash_targets, &node_circuit_hash) {
            Ok(u) => u,
            Err(e) => {
                return Err(e);
            },
        }
        match B::set_hash_target(&mut partial_witness, &node_input_hash_targets, &node_input_hash) {
            Ok(u) => u,
            Err(e) => {
                return Err(e);
            },
        }
        Ok(partial_witness)
    }

    /// Builds, fills and proves the node circuit.  Fails fast with
    /// `ArityMismatch` when either child's proof does not carry exactly
    /// eight public inputs; checks that the rebuilt verifier digest equals
    /// the cached one; and checks, after proving, that the proof's public
    /// inputs are exactly the folded input hash followed by the folded
    /// circuit hash.
    pub fn prove(self) -> (r: Result<ProofData<B>, ZkError>)
        requires
            self.spec_left().wf(),
            self.spec_right().wf(),
        ensures
            r matches Ok(pd) ==> B::public_inputs_of(pd.proof_with_pis) == fold_hash::<B>(
                self.spec_left().spec_input_hash() + self.spec_right().spec_input_hash(),
            ) + fold_hash::<B>(
                self.spec_left().spec_circuit_hash() + B::digest_of(pd.circuit_data)
                    + self.spec_right().spec_circuit_hash(),
            ),
            r matches Ok(pd) ==> B::verify_ok(pd.circuit_data, pd.proof_with_pis),
            r == Err::<ProofData<B>, ZkError>(ZkError::ArityMismatch) <==> (B::public_inputs_of(
                self.spec_left().spec_proof_data().proof_with_pis,
            ).len() != 8 || B::public_inputs_of(
                self.spec_right().spec_proof_data().proof_with_pis,
            ).len() != 8),
            r != Err::<ProofData<B>, ZkError>(ZkError::SiblingDigestMismatch),
            r != Err::<ProofData<B>, ZkError>(ZkError::ShapeError),
    {
        let mut circuit = self;
        let left_pis = B::proof_public_inputs(&circuit.left_child.proof_data().proof_with_pis);
        let right_pis = B::proof_public_inputs(&circuit.right_child.proof_data().proof_with_pis);
        if left_pis.len() != 8 || right_pis.len() != 8 {
            return Err(ZkError::ArityMismatch);
        }

        let (circuit_data, targets, out_targets) = circuit.compile_and_build();
        let partial_witness = match circuit.fill(targets, out_targets) {
            Ok(w) => w,
            Err(e) => {
                return Err(e);
            },
        };
        let built_digest = B::circuit_digest(&circuit_data);
        match circuit.verifier_circuit_digest {
            Some(cached) => {
                if !(cached == built_digest) {
                    return Err(ZkError::CircuitDigestMismatch);
                }
            },
            None => {
                return Err(ZkError::VerifierDigestUnset);
            },
        }
        let proof_with_pis = match B::prove(&circuit_data, partial_witness) {
            Ok(p) => p,
            Err(e) => {
                return Err(e);
            },
        };

        let proof_pis = B::proof_public_inputs(&proof_with_pis);
        let (node_circuit_hash, node_input_hash) = circuit.evaluate();
        let mut expected = node_input_hash.to_vec();
        node_circuit_hash.append_to(&mut expected);
        if !vecs_equal(&proof_pis, &expected) {
            return Err(ZkError::BackendError);
        }
        Ok(ProofData { proof_with_pis, circuit_data })
    }

    /// Proves the node circuit, then reverifies the fresh proof with the
    /// backend.  Since a proof the prover hands back verifies under its own
    /// circuit, the reverification cannot be what fails.
    pub fn prove_and_verify(self) -> (r: Result<(), ZkError>)
        requires
            self.spec_left().wf(),
            self.spec_right().wf(),
        ensures
            r == Err::<(), ZkError>(ZkError::ArityMismatch) <==> (B::public_inputs_of(
                self.spec_left().spec_proof_data().proof_with_pis,
            ).len() != 8 || B::public_inputs_of(
                self.spec_right().spec_proof_data().proof_with_pis,
            ).len() != 8),
            r != Err::<(), ZkError>(ZkError::SiblingDigestMismatch),
            r != Err::<(), ZkError>(ZkError::ShapeError),
    {
        match self.prove() {
            Ok(pd) => B::verify(&pd.circuit_data, &pd.proof_with_pis),
            Err(e) => Err(e),
        }
    }
}

} // verus!
