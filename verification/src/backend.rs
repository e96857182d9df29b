//! The proving-backend adapter: the set of opaque types and operations the
//! circuits consume.
//!
//! The whole system is generic over its proving backend — a prime field
//! with an algebraic hash, a circuit builder, a witness system and a
//! recursive verifier gadget — and every instantiation supplies that backend
//! as a type parameter.  This trait is that parameter.  Field elements cross
//! the boundary as canonical `u64` values and hash outputs as [`Digest`];
//! everything else (builders, targets, witnesses, circuit data, proofs) is
//! an associated type that the rest of the crate treats as opaque.
//!
//! The contracts here are the assumptions the verified circuits rest on for
//! an outside implementation: what the hash returns, what a circuit digest
//! identifies, what public inputs a proof carries, and what the Merkle cap
//! is.  The crate's own [`crate::trace_backend::TraceBackend`] implements
//! the trait with every contract proved.

use vstd::prelude::*;

use crate::digest::all_canonical;
use crate::digest::Digest;
use crate::errors::ZkError;
use crate::hashing::pad4;

verus! {

pub trait Backend: Sized {
    /// Accumulates a circuit under construction.
    type Builder;

    /// One virtual wire of a circuit.
    type Target;

    /// Four virtual wires carrying one digest.
    type HashTarget;

    /// A constant boolean wire.
    type BoolTarget;

    /// The in-circuit image of a proof with its public inputs.
    type ProofTarget;

    /// The in-circuit image of a verifier's data.
    type VerifierTarget;

    /// A partial assignment of values to wires.
    type Witness;

    /// A compiled circuit.
    type CircuitData;

    /// A proof together with its public inputs.
    type Proof;

    /// The backend's sponge hash on an input longer than one digest block:
    /// four field elements, a function of the input elements alone.
    spec fn sponge(input: Seq<u64>) -> Seq<u64>;

    /// The verifier digest stored in a compiled circuit: the hash that
    /// identifies the circuit's structure.
    spec fn digest_of(cd: Self::CircuitData) -> Seq<u64>;

    /// The public-input list a proof carries, as canonical field elements.
    spec fn public_inputs_of(p: Self::Proof) -> Seq<u64>;

    /// Whether proof `p` verifies against the compiled circuit `cd`.  A
    /// function of the two values alone, so the outcome for a given proof
    /// under a given circuit never changes from call to call.
    spec fn verify_ok(cd: Self::CircuitData, p: Self::Proof) -> bool;

    /// The four wires of a hash target, in order, as specification values.
    spec fn hash_wires(h: Self::HashTarget) -> Seq<Self::Target>;

    /// The wires registered as public inputs of the circuit under
    /// construction, in registration order.
    spec fn registered_pis(builder: Self::Builder) -> Seq<Self::Target>;

    /// The verifier digest that building this builder's circuit yields: a
    /// function of the accumulated circuit alone, which is what makes the
    /// two-phase builds deterministic within a process.
    spec fn build_digest(builder: Self::Builder) -> Seq<u64>;

    /// The native algebraic hash in hash-or-noop mode: an input of at most
    /// four elements comes back unchanged, zero-padded to four; a longer
    /// input is sponge-hashed.
    fn hash_or_noop(input: &Vec<u64>) -> (r: Digest)
        requires
            all_canonical(input@),
        ensures
            input@.len() <= 4 ==> r@ == pad4(input@),
            input@.len() > 4 ==> r@ == Self::sponge(input@),
    ;

    /// Reads the verifier digest out of a compiled circuit.
    fn circuit_digest(cd: &Self::CircuitData) -> (r: Digest)
        ensures
            r@ == Self::digest_of(*cd),
    ;

    /// Reads a proof's public-input list.
    fn proof_public_inputs(p: &Self::Proof) -> (r: Vec<u64>)
        ensures
            r@ == Self::public_inputs_of(*p),
            all_canonical(r@),
    ;

    /// A fresh builder with the standard zero-knowledge recursion
    /// configuration.  Nothing is registered yet.
    fn new_builder() -> (r: Self::Builder)
        ensures
            Self::registered_pis(r) == Seq::<Self::Target>::empty(),
    ;

    /// Allocates one virtual wire.
    fn add_virtual_target(builder: &mut Self::Builder) -> (r: Self::Target)
        ensures
            Self::registered_pis(*final(builder)) == Self::registered_pis(*old(builder)),
    ;

    /// Allocates four virtual wires as one hash target.
    fn add_virtual_hash(builder: &mut Self::Builder) -> (r: Self::HashTarget)
        ensures
            Self::registered_pis(*final(builder)) == Self::registered_pis(*old(builder)),
    ;

    /// Appends the hash target's four wires, in order, to the circuit's
    /// public-input list.
    fn register_public_input_hash(builder: &mut Self::Builder, h: &Self::HashTarget)
        ensures
            Self::registered_pis(*final(builder)) == Self::registered_pis(*old(builder))
                + Self::hash_wires(*h),
    ;

    /// The four wires of a hash target, in order.
    fn hash_target_elements(h: &Self::HashTarget) -> (r: Vec<Self::Target>)
        ensures
            r@ == Self::hash_wires(*h),
            r@.len() == 4,
    ;

    /// The in-circuit hash-or-noop gadget, in the same mode as
    /// [`Backend::hash_or_noop`].
    fn hash_or_noop_gadget(builder: &mut Self::Builder, inputs: &Vec<Self::Target>) -> (r:
        Self::HashTarget)
        ensures
            Self::registered_pis(*final(builder)) == Self::registered_pis(*old(builder)),
    ;

    /// Constrains two hash targets to be equal, element by element.
    fn connect_hashes(builder: &mut Self::Builder, x: &Self::HashTarget, y: &Self::HashTarget)
        ensures
            Self::registered_pis(*final(builder)) == Self::registered_pis(*old(builder)),
    ;

    /// Constrains two wires to be equal.
    fn connect(builder: &mut Self::Builder, x: &Self::Target, y: &Self::Target)
        ensures
            Self::registered_pis(*final(builder)) == Self::registered_pis(*old(builder)),
    ;

    /// The constant true wire.
    fn bool_true_target(builder: &mut Self::Builder) -> (r: Self::BoolTarget)
        ensures
            Self::registered_pis(*final(builder)) == Self::registered_pis(*old(builder)),
    ;

    /// The constant false wire.
    fn bool_false_target(builder: &mut Self::Builder) -> (r: Self::BoolTarget)
        ensures
            Self::registered_pis(*final(builder)) == Self::registered_pis(*old(builder)),
    ;

    /// The wire underneath a boolean target.
    fn bool_target(b: &Self::BoolTarget) -> Self::Target;

    /// Allocates the in-circuit image of a proof shaped like those of `cd`.
    fn add_virtual_proof_with_pis(
        builder: &mut Self::Builder,
        cd: &Self::CircuitData,
    ) -> (r: Self::ProofTarget)
        ensures
            Self::registered_pis(*final(builder)) == Self::registered_pis(*old(builder)),
    ;

    /// Allocates the in-circuit image of verifier data, at the cap height of
    /// `cd`.
    fn add_virtual_verifier_data(
        builder: &mut Self::Builder,
        cd: &Self::CircuitData,
    ) -> (r: Self::VerifierTarget)
        ensures
            Self::registered_pis(*final(builder)) == Self::registered_pis(*old(builder)),
    ;

    /// The hash target holding the verifier data's circuit digest.
    fn verifier_digest_target(vt: &Self::VerifierTarget) -> Self::HashTarget;

    /// The recursive verifier gadget: constrains the proof image to verify
    /// against the verifier-data image, over the common data of `cd`.
    fn verify_proof_gadget(
        builder: &mut Self::Builder,
        proof_target: &Self::ProofTarget,
        verifier_target: &Self::VerifierTarget,
        cd: &Self::CircuitData,
    )
        ensures
            Self::registered_pis(*final(builder)) == Self::registered_pis(*old(builder)),
    ;

    /// The public-input wires of a proof image, in order.
    fn pi_targets(proof_target: &Self::ProofTarget) -> Vec<Self::Target>;

    /// An empty witness.
    fn new_partial_witness() -> Self::Witness;

    /// Assigns each value to the wire at the same index.  A failure
    /// surfaces as a backend error.
    fn set_target_arr(
        witness: &mut Self::Witness,
        targets: &Vec<Self::Target>,
        values: &Vec<u64>,
    ) -> (r: Result<(), ZkError>)
        requires
            all_canonical(values@),
            targets@.len() == values@.len(),
        ensures
            r is Err ==> r == Err::<(), ZkError>(ZkError::BackendError),
    ;

    /// Assigns the digest's four elements to the hash target's wires.  A
    /// failure surfaces as a backend error.
    fn set_hash_target(witness: &mut Self::Witness, target: &Self::HashTarget, d: &Digest) -> (r:
        Result<(), ZkError>)
        ensures
            r is Err ==> r == Err::<(), ZkError>(ZkError::BackendError),
    ;

    /// Assigns a whole proof, with its public inputs, to a proof image.  A
    /// failure surfaces as a backend error.
    fn set_proof_with_pis_target(
        witness: &mut Self::Witness,
        target: &Self::ProofTarget,
        proof: &Self::Proof,
    ) -> (r: Result<(), ZkError>)
        ensures
            r is Err ==> r == Err::<(), ZkError>(ZkError::BackendError),
    ;

    /// Assigns the verifier-only data of `cd` to a verifier-data image.  A
    /// failure surfaces as a backend error.
    fn set_verifier_data_target(
        witness: &mut Self::Witness,
        target: &Self::VerifierTarget,
        cd: &Self::CircuitData,
    ) -> (r: Result<(), ZkError>)
        ensures
            r is Err ==> r == Err::<(), ZkError>(ZkError::BackendError),
    ;

    /// Compiles the accumulated constraints into circuit data.  The
    /// verifier digest of the result is a function of the builder's
    /// accumulated circuit alone — identical build sequences yield one and
    /// the same digest — which is what the two-phase builds depend on.
    fn build(builder: Self::Builder) -> (r: Self::CircuitData)
        ensures
            Self::digest_of(r) == Self::build_digest(builder),
    ;

    /// Proves one witness against a compiled circuit.  Proving may be
    /// randomized, so little is promised of a returned proof — callers check
    /// what they need of it — but a proof the prover hands back does verify
    /// under the circuit it was proved against.  A failure surfaces as a
    /// backend error.
    fn prove(cd: &Self::CircuitData, witness: Self::Witness) -> (r: Result<Self::Proof, ZkError>)
        ensures
            r matches Ok(p) ==> Self::verify_ok(*cd, p),
            r is Err ==> r == Err::<Self::Proof, ZkError>(ZkError::BackendError),
    ;

    /// Verifies a proof against a compiled circuit: succeeds exactly when
    /// the backend accepts it.  A failure surfaces as a backend error.
    fn verify(cd: &Self::CircuitData, proof: &Self::Proof) -> (r: Result<(), ZkError>)
        ensures
            r is Ok <==> Self::verify_ok(*cd, *proof),
            r is Err ==> r == Err::<(), ZkError>(ZkError::BackendError),
    ;
}

} // verus!
