use vstd::prelude::*;

use crate::backend::Backend;

verus! {

/// A proof together with the circuit data it was produced by.
///
/// `circuit_data` exposes the circuit's verifier digest and whatever the
/// backend needs to reverify; both fields are opaque backend values.
/// Immutable after construction.
#[verifier::reject_recursive_types(B)]
pub struct ProofData<B: Backend> {
    pub proof_with_pis: B::Proof,
    pub circuit_data: B::CircuitData,
}

} // verus!
