use vstd::prelude::*;

use crate::backend::Backend;
use crate::digest::Digest;
use crate::proof_data::ProofData;

verus! {

/// The capability interface over the three proof shapes — user, leaf and
/// node proofs.  It is the only way the node circuit reaches into a child,
/// and it does not depend on whether the child is a leaf or an interior
/// node.
///
/// Each implementation fixes, as specification functions, what its digests
/// are; the executable methods return exactly those values.
pub trait Proof<B: Backend>: Sized {
    /// The digest committing to the inputs under this proof.
    spec fn spec_input_hash(&self) -> Seq<u64>;

    /// The digest committing to the circuits under this proof.
    spec fn spec_circuit_hash(&self) -> Seq<u64>;

    /// The circuit identity this proof claims: for leaf and node proofs the
    /// verifier digest of their own circuit data, for user proofs the
    /// declared user circuit hash.
    spec fn spec_verifier_digest(&self) -> Seq<u64>;

    /// The proof data underneath.
    spec fn spec_proof_data(&self) -> ProofData<B>;

    /// The raw nested user inputs: non-empty only for user proofs.
    spec fn spec_user_inputs(&self) -> Seq<Seq<u64>>;

    /// Well-formedness: every plain value held is canonical.
    spec fn wf(&self) -> bool;

    /// The raw user public inputs; empty for leaf and node proofs.
    fn user_public_inputs(&self) -> (r: Vec<Vec<u64>>)
        ensures
            r.deep_view() == self.spec_user_inputs(),
    ;

    /// The digest identifying the circuit this proof claims to come from.
    fn circuit_verifier_digest(&self) -> (r: Digest)
        requires
            self.wf(),
        ensures
            r@ == self.spec_verifier_digest(),
    ;

    /// The input commitment.
    fn input_hash(&self) -> (r: Digest)
        requires
            self.wf(),
        ensures
            r@ == self.spec_input_hash(),
    ;

    /// The circuit commitment.
    fn circuit_hash(&self) -> (r: Digest)
        requires
            self.wf(),
        ensures
            r@ == self.spec_circuit_hash(),
    ;

    /// The proof data underneath.
    fn proof_data(&self) -> (r: &ProofData<B>)
        ensures
            *r == self.spec_proof_data(),
    ;
}

} // verus!
