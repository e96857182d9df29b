//! Level-parallel construction of node proofs.
//!
//! Work within a tree level is embarrassingly parallel: each pair of
//! adjacent proofs becomes one node proof, independently of its neighbours.
//! The two functions here dispatch one level to a work-stealing pool and
//! collect the results in input order, short-circuiting on the first error;
//! each item is a call of [`NodeProof::new_from_children`], whose contract
//! the clauses below restate per pair.

use vstd::prelude::*;

use rayon::prelude::IndexedParallelIterator;
use rayon::prelude::IntoParallelIterator;
use rayon::prelude::ParallelIterator;

use crate::backend::Backend;
use crate::errors::ZkError;
use crate::leaf_proof::LeafProof;
use crate::node_proof::node_from_children;
use crate::node_proof::NodeProof;
use crate::tree_proof::Proof;

verus! {

/// Builds the lowest node level: one node proof for each adjacent pair of
/// leaf proofs, in input order.
///
/// Relies on rayon's `into_par_iter`, `step_by`, `map` and `collect`: the
/// results are indexed by pair position, not completion order, and
/// collecting into `Result` returns the first error.  Each item only calls
/// `NodeProof::new_from_children`; the clauses restate its contract per
/// pair.
#[verifier::external_body]
pub(crate) fn generate_node_proofs_from_leaves<B: Backend>(
    leaf_proofs: &Vec<LeafProof<B>>,
) -> (r: Result<Vec<NodeProof<B>>, ZkError>) where
    B::Proof: Send + Sync,
    B::CircuitData: Send + Sync,

    requires
        leaf_proofs@.len() % 2 == 0,
        forall|i: int| 0 <= i < leaf_proofs@.len() ==> (#[trigger] leaf_proofs@[i]).wf(),
    ensures
        r matches Ok(v) ==> {
            &&& v@.len() == leaf_proofs@.len() / 2
            &&& forall|i: int|
                0 <= i < v@.len() ==> node_from_children(
                    #[trigger] v@[i],
                    leaf_proofs@[2 * i],
                    leaf_proofs@[2 * i + 1],
                ) && v@[i].wf()
        },
        r matches Err(e) ==> e != ZkError::ShapeError,
{
    (0..leaf_proofs.len())
        .into_par_iter()
        .step_by(2)
        .map(|i| NodeProof::new_from_children(&leaf_proofs[i], &leaf_proofs[i + 1]))
        .collect::<Result<Vec<_>, _>>()
}

/// Builds one interior node level: one node proof for each adjacent pair of
/// node proofs in `node_proofs[start_child_index..node_proofs_len]`, in
/// input order.
///
/// Relies on rayon's `into_par_iter`, `step_by`, `map` and `collect`, as
/// above; each item only calls `NodeProof::new_from_children`.
#[verifier::external_body]
pub(crate) fn generate_node_proofs_from_nodes<B: Backend>(
    node_proofs: &Vec<NodeProof<B>>,
    start_child_index: usize,
    node_proofs_len: usize,
) -> (r: Result<Vec<NodeProof<B>>, ZkError>) where
    B::Proof: Send + Sync,
    B::CircuitData: Send + Sync,

    requires
        start_child_index <= node_proofs_len,
        node_proofs_len <= node_proofs@.len(),
        (node_proofs_len - start_child_index) % 2 == 0,
        forall|i: int| 0 <= i < node_proofs@.len() ==> (#[trigger] node_proofs@[i]).wf(),
    ensures
        r matches Ok(v) ==> {
            &&& v@.len() == (node_proofs_len - start_child_index) / 2
            &&& forall|i: int|
                0 <= i < v@.len() ==> node_from_children(
                    #[trigger] v@[i],
                    node_proofs@[start_child_index + 2 * i],
                    node_proofs@[start_child_index + 2 * i + 1],
                ) && v@[i].wf()
        },
        r matches Err(e) ==> e != ZkError::ShapeError,
{
    (start_child_index..node_proofs_len)
        .into_par_iter()
        .step_by(2)
        .map(|i| NodeProof::new_from_children(&node_proofs[i], &node_proofs[i + 1]))
        .collect::<Result<Vec<_>, _>>()
}

} // verus!
