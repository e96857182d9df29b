use vstd::prelude::*;

verus! {

/// The error taxonomy of the tree builder and verifier.
///
/// Every failure surfaces as one of these variants; none is swallowed.
#[derive(Clone, Copy, Debug, PartialEq, Eq, Structural)]
pub enum ZkError {
    /// The batch of user proofs is empty, of length one, or not a power of two.
    ShapeError,
    /// A witness fill was attempted before the circuit was compiled and built,
    /// so the circuit's own verifier digest is not yet known.
    VerifierDigestUnset,
    /// A rebuilt circuit produced a verifier digest that differs from the
    /// cached one: the circuit construction is not deterministic.
    CircuitDigestMismatch,
    /// The two children of a node carry different circuit verifier digests.
    SiblingDigestMismatch,
    /// A proof declares a different number of public inputs than the circuit
    /// around it reserved.
    ArityMismatch,
    /// The proving backend failed to build, prove or verify.
    BackendError,
    /// The Merkle commitment over the raw user inputs does not equal the
    /// root's input digest.
    InputCommitmentMismatch,
}

} // verus!
