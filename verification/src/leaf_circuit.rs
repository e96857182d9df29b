use vstd::prelude::*;

use crate::backend::Backend;
use crate::digest::lemma_concat_canonical;
use crate::digest::Digest;
use crate::errors::ZkError;
use crate::hashing::flatten_inputs;
use crate::hashing::fold_hash;
use crate::hashing::lemma_flatten_canonical;
use crate::hashing::vecs_equal;
use crate::proof_data::ProofData;
use crate::tree_proof::Proof;
use crate::user_proof::UserProof;

verus! {

/// The wire bundles the leaf circuit hands from `compile` to `fill`: the
/// flat user-input wires; the input-hash, user-verifier-digest and
/// self-verifier-digest hash targets; and the user proof and verifier-data
/// images.
pub type LeafTargets<B> = (
    Vec<<B as Backend>::Target>,
    [<B as Backend>::HashTarget; 3],
    <B as Backend>::ProofTarget,
    <B as Backend>::VerifierTarget,
);

/// The arithmetized leaf circuit: verifies one user proof in-circuit and
/// rebinds its inputs and circuit identity into the fixed two-digest
/// public-input layout.
///
/// The circuit references its own verifier digest as a witness value, so it
/// is built in two phases: compile and build once to learn the digest, then
/// fill witnesses with the cached value.
#[verifier::reject_recursive_types(B)]
pub struct LeafCircuit<'a, B: Backend> {
    user_proof: &'a UserProof<B>,
    verifier_circuit_digest: Option<Digest>,
}

impl<'a, B: Backend> LeafCircuit<'a, B> {
    /// The user proof this circuit is built around.
    pub closed spec fn spec_user(&self) -> UserProof<B> {
        *self.user_proof
    }

    /// The cached self verifier digest, set by `compile_and_build`.
    pub closed spec fn digest_cache(&self) -> Option<Digest> {
        self.verifier_circuit_digest
    }

    /// The number of flat user-input wires the circuit reserves.
    pub open spec fn flat_len(&self) -> nat {
        self.spec_user().spec_user_inputs().flatten().len()
    }

    pub fn new(user_proof: &'a UserProof<B>) -> (r: Self)
        ensures
            r.spec_user() == *user_proof,
            r.digest_cache() is None,
    {
        LeafCircuit { user_proof, verifier_circuit_digest: None }
    }

    /// Lays the leaf circuit out in a fresh builder: flat wires mirroring
    /// the nested user-input shape, the registered input-hash and
    /// circuit-hash public inputs with their hash gadgets, the recursive
    /// verification of the user proof, and the wire-by-wire binding of the
    /// user proof's public inputs to the flat input wires.  A user proof
    /// whose public-input arity differs from the flat wire count gets the
    /// unsatisfiable constraint true == false.
    pub fn compile(&self) -> (r: (B::Builder, LeafTargets<B>, B::HashTarget))
        ensures
            r.1.0@.len() == self.flat_len(),
            B::registered_pis(r.0) == B::hash_wires(r.1.1[0]) + B::hash_wires(r.2),
    {
        let mut builder = B::new_builder();

        let user_public_inputs = self.user_proof.user_public_inputs();
        let ghost dv = self.spec_user().spec_user_inputs();
        let mut flat_targets: Vec<B::Target> = Vec::new();
        proof {
            assert(dv.take(0).flatten() =~= Seq::<u64>::empty());
        }
        let mut i: usize = 0;
        while i < user_public_inputs.len()
            invariant
                i <= user_public_inputs@.len(),
                user_public_inputs.deep_view() == dv,
                flat_targets@.len() == dv.take(i as int).flatten().len(),
                B::registered_pis(builder) == Seq::<B::Target>::empty(),
            decreases user_public_inputs@.len() - i,
        {
            let len_ith_user_input = user_public_inputs[i].len();
            let mut j: usize = 0;
            while j < len_ith_user_input
                invariant
                    j <= len_ith_user_input,
                    i < user_public_inputs@.len(),
                    user_public_inputs.deep_view() == dv,
                    len_ith_user_input == dv[i as int].len(),
                    flat_targets@.len() == dv.take(i as int).flatten().len() + j,
                    B::registered_pis(builder) == Seq::<B::Target>::empty(),
                decreases len_ith_user_input - j,
            {
                let t = B::add_virtual_target(&mut builder);
                flat_targets.push(t);
                j = j + 1;
            }
            i = i + 1;
            proof {
                assert(dv.take(i as int) =~= dv.take(i as int - 1).push(dv[i as int - 1]));
                dv.take(i as int - 1).lemma_flatten_push(dv[i as int - 1]);
            }
        }
        proof {
            assert(dv.take(user_public_inputs@.len() as int) =~= dv);
        }

        let hash_user_public_inputs_targets = B::add_virtual_hash(&mut builder);
        B::register_public_input_hash(&mut builder, &hash_user_public_inputs_targets);
        let should_be_hash_user_public_inputs_targets = B::hash_or_noop_gadget(
            &mut builder,
            &flat_targets,
        );
        B::connect_hashes(
            &mut builder,
            &should_be_hash_user_public_inputs_targets,
            &hash_user_public_inputs_targets,
        );

        let user_verifier_circuit_digest_targets = B::add_virtual_hash(&mut builder);
        let verifier_circuit_digest_targets = B::add_virtual_hash(&mut builder);
        let leaf_circuit_hash_targets = B::add_virtual_hash(&mut builder);
        B::register_public_input_hash(&mut builder, &leaf_circuit_hash_targets);
        let mut circuit_hash_preimage = B::hash_target_elements(&verifier_circuit_digest_targets);
        let mut user_digest_elements = B::hash_target_elements(
            &user_verifier_circuit_digest_targets,
        );
        circuit_hash_preimage.append(&mut user_digest_elements);
        let should_be_leaf_circuit_hash_targets = B::hash_or_noop_gadget(
            &mut builder,
            &circuit_hash_preimage,
        );
        B::connect_hashes(
            &mut builder,
            &leaf_circuit_hash_targets,
            &should_be_leaf_circuit_hash_targets,
        );

        let user_pd = self.user_proof.proof_data();
        let user_proof_with_pis_targets = B::add_virtual_proof_with_pis(
            &mut builder,
            &user_pd.circuit_data,
        );
        let user_verifier_data_targets = B::add_virtual_verifier_data(
            &mut builder,
            &user_pd.circuit_data,
        );
        B::verify_proof_gadget(
            &mut builder,
            &user_proof_with_pis_targets,
            &user_verifier_data_targets,
            &user_pd.circuit_data,
        );

        let true_bool_target = B::bool_true_target(&mut builder);
        let false_bool_target = B::bool_false_target(&mut builder);
        let pi_targets = B::pi_targets(&user_proof_with_pis_targets);
        if flat_targets.len() != pi_targets.len() {
            let true_wire = B::bool_target(&true_bool_target);
            let false_wire = B::bool_target(&false_bool_target);
            B::connect(&mut builder, &true_wire, &false_wire);
        }
        let matched = if flat_targets.len() < pi_targets.len() {
            flat_targets.len()
        } else {
            pi_targets.len()
        };
        let ghost registered = B::registered_pis(builder);
        let mut k: usize = 0;
        while k < matched
            invariant
                k <= matched,
                matched <= flat_targets@.len(),
                matched <= pi_targets@.len(),
                flat_targets@.len() == self.flat_len(),
                B::registered_pis(builder) == registered,
            decreases matched - k,
        {
            B::connect(&mut builder, &pi_targets[k], &flat_targets[k]);
            k = k + 1;
        }
        proof {
            assert(B::registered_pis(builder) =~= B::hash_wires(hash_user_public_inputs_targets)
                + B::hash_wires(leaf_circuit_hash_targets));
        }

        (
            builder,
            (
                flat_targets,
                [
                    hash_user_public_inputs_targets,
                    user_verifier_circuit_digest_targets,
                    verifier_circuit_digest_targets,
                ],
                user_proof_with_pis_targets,
                user_verifier_data_targets,
            ),
            leaf_circuit_hash_targets,
        )
    }

    /// Compiles and builds the circuit, caching its verifier digest for the
    /// witness fill.
    pub fn compile_and_build(&mut self) -> (r: (B::CircuitData, LeafTargets<B>, B::HashTarget))
        ensures
            final(self).spec_user() == old(self).spec_user(),
            final(self).digest_cache() is Some,
            final(self).digest_cache().unwrap()@ == B::digest_of(r.0),
            r.1.0@.len() == old(self).flat_len(),
    {
        let (circuit_builder, targets, out_targets) = self.compile();
        let circuit_data = B::build(circuit_builder);
        self.verifier_circuit_digest = Some(B::circuit_digest(&circuit_data));
        (circuit_data, targets, out_targets)
    }

    /// The two digests the filled circuit will expose: the user input hash
    /// and the user's declared circuit hash.
    pub fn evaluate(&self) -> (r: (Digest, Digest))
        requires
            self.spec_user().wf(),
        ensures
            r.0@ == self.spec_user().spec_input_hash(),
            r.1@ == self.spec_user().spec_circuit_hash(),
    {
        (self.user_proof.input_hash(), self.user_proof.circuit_hash())
    }

    /// Fills a witness for the compiled circuit: the flat user inputs, the
    /// input hash, the user's verifier digest, the cached self digest, the
    /// folded leaf circuit hash, and the user proof with its verifier data.
    /// Fails with `VerifierDigestUnset` when invoked before
    /// `compile_and_build`.
    pub fn fill(&self, targets: LeafTargets<B>, out_targets: B::HashTarget) -> (r: Result<
        B::Witness,
        ZkError,
    >)
        requires
            self.spec_user().wf(),
            targets.0@.len() == self.flat_len(),
        ensures
            self.digest_cache() is None <==> r == Err::<B::Witness, ZkError>(
                ZkError::VerifierDigestUnset,
            ),
            r is Err ==> r == Err::<B::Witness, ZkError>(ZkError::VerifierDigestUnset) || r
                == Err::<B::Witness, ZkError>(ZkError::BackendError),
    {
        let verifier_circuit_digest = match self.verifier_circuit_digest {
            Some(d) => d,
            None => {
                return Err(ZkError::VerifierDigestUnset);
            },
        };
        let (
            flatten_user_public_inputs_targets,
            hash_targets,
            user_proof_with_pis_targets,
            user_verifier_data_targets,
        ) = targets;
        let leaf_circuit_hash_targets = out_targets;

        let mut partial_witness = B::new_partial_witness();
        let user_public_inputs = self.user_proof.user_public_inputs();
        let flat_values = flatten_inputs(&user_public_inputs);
        proof {
            crate::user_proof::lemma_user_wf_canonical(self.user_proof);
            lemma_flatten_canonical(self.spec_user().spec_user_inputs());
        }
        match B::set_target_arr(
            &mut partial_witness,
            &flatten_user_public_inputs_targets,
            &flat_values,
        ) {
            Ok(u) => u,
            Err(e) => {
                return Err(e);
            },
        }
        let input_hash = self.user_proof.input_hash();
        match B::set_hash_target(&mut partial_witness, &hash_targets[0], &input_hash) {
            Ok(u) => u,
            Err(e) => {
                return Err(e);
            },
        }
        let user_verifier_digest = self.user_proof.circuit_verifier_digest();
        match B::set_hash_target(&mut partial_witness, &hash_targets[1], &user_verifier_digest) {
            Ok(u) => u,
            Err(e) => {
                return Err(e);
            },
        }
        match B::set_hash_target(&mut partial_witness, &hash_targets[2], &verifier_circuit_digest)
        {
            Ok(u) => u,
            Err(e) => {
                return Err(e);
            },
        }
        let mut preimage = verifier_circuit_digest.to_vec();
        user_verifier_digest.append_to(&mut preimage);
        proof {
            use_type_invariant(&verifier_circuit_digest);
            use_type_invariant(&user_verifier_digest);
            lemma_concat_canonical(verifier_circuit_digest@, user_verifier_digest@);
        }
        let leaf_circuit_hash = B::hash_or_noop(&preimage);
        match B::set_hash_target(
            &mut partial_witness,
            &leaf_circuit_hash_targets,
            &leaf_circuit_hash,
        ) {
            Ok(u) => u,
            Err(e) => {
                return Err(e);
            },
        }
        let user_pd = self.user_proof.proof_data();
        match B::set_proof_with_pis_target(
            &mut partial_witness,
            &user_proof_with_pis_targets,
            &user_pd.proof_with_pis,
        ) {
            Ok(u) => u,
            Err(e) => {
                return Err(e);
            },
        }
        match B::set_verifier_data_target(
            &mut partial_witness,
            &user_verifier_data_targets,
            &user_pd.circuit_data,
        ) {
            Ok(u) => u,
            Err(e) => {
                return Err(e);
            },
        }
        Ok(partial_witness)
    }

    /// Builds, fills and proves the leaf circuit.  Fails fast with
    /// `ArityMismatch` when the user proof declares a different number of
    /// public inputs than the flat input wires; checks that the rebuilt
    /// verifier digest equals the cached one; and checks, after proving,
    /// that the proof's public inputs are exactly the input hash followed by
    /// the folded leaf circuit hash.
    pub fn prove(self) -> (r: Result<ProofData<B>, ZkError>)
        requires
            self.spec_user().wf(),
        ensures
            r matches Ok(pd) ==> B::public_inputs_of(pd.proof_with_pis)
                == self.spec_user().spec_input_hash() + fold_hash::<B>(
                B::digest_of(pd.circuit_data) + self.spec_user().spec_circuit_hash(),
            ),
            r matches Ok(pd) ==> B::verify_ok(pd.circuit_data, pd.proof_with_pis),
            r == Err::<ProofData<B>, ZkError>(ZkError::ArityMismatch) <==> B::public_inputs_of(
                self.spec_user().spec_proof_data().proof_with_pis,
            ).len() != self.spec_user().spec_user_inputs().flatten().len(),
            r != Err::<ProofData<B>, ZkError>(ZkError::ShapeError),
    {
        let mut circuit = self;
        let user_pis = B::proof_public_inputs(&circuit.user_proof.proof_data().proof_with_pis);
        let user_public_inputs = circuit.user_proof.user_public_inputs();
        let flat_values = flatten_inputs(&user_public_inputs);
        if user_pis.len() != flat_values.len() {
            return Err(ZkError::ArityMismatch);
        }

        let (circuit_data, targets, out_targets) = circuit.compile_and_build();
        let partial_witness = match circuit.fill(targets, out_targets) {
            Ok(w) => w,
            Err(e) => {
                return Err(e);
            },
        };
        let built_digest = B::circuit_digest(&circuit_data);
        match circuit.verifier_circuit_digest {
            Some(cached) => {
                if !(cached == built_digest) {
                    return Err(ZkError::CircuitDigestMismatch);
                }
            },
            None => {
                return Err(ZkError::VerifierDigestUnset);
            },
        }
        let proof_with_pis = match B::prove(&circuit_data, partial_witness) {
            Ok(p) => p,
            Err(e) => {
                return Err(e);
            },
        };

        let proof_pis = B::proof_public_inputs(&proof_with_pis);
        let input_hash = circuit.user_proof.input_hash();
        let user_circuit_hash = circuit.user_proof.circuit_hash();
        let mut preimage = built_digest.to_vec();
        user_circuit_hash.append_to(&mut preimage);
        proof {
            use_type_invariant(&built_digest);
            use_type_invariant(&user_circuit_hash);
            lemma_concat_canonical(built_digest@, user_circuit_hash@);
        }
        let leaf_circuit_hash = B::hash_or_noop(&preimage);
        let mut expected = input_hash.to_vec();
        leaf_circuit_hash.append_to(&mut expected);
        if !vecs_equal(&proof_pis, &expected) {
            return Err(ZkError::BackendError);
        }
        Ok(ProofData { proof_with_pis, circuit_data })
    }

    /// Proves the leaf circuit, then reverifies the fresh proof with the
    /// backend.  Since a proof the prover hands back verifies under its own
    /// circuit, the reverification cannot be what fails.
    pub fn prove_and_verify(self) -> (r: Result<(), ZkError>)
        requires
            self.spec_user().wf(),
        ensures
            r == Err::<(), ZkError>(ZkError::ArityMismatch) <==> B::public_inputs_of(
                self.spec_user().spec_proof_data().proof_with_pis,
            ).len() != self.spec_user().spec_user_inputs().flatten().len(),
            r != Err::<(), ZkError>(ZkError::ShapeError),
    {
        match self.prove() {
            Ok(pd) => B::verify(&pd.circuit_data, &pd.proof_with_pis),
            Err(e) => Err(e),
        }
    }
}

} // verus!
