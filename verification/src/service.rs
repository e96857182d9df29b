use vstd::prelude::*;

use crate::backend::Backend;
use crate::user_proof::UserProof;

verus! {

/// A collector of user proofs awaiting aggregation into a tree.
#[verifier::reject_recursive_types(B)]
pub struct ZkTreeService<B: Backend> {
    user_proofs: Vec<UserProof<B>>,
}

impl<B: Backend> ZkTreeService<B> {
    /// The proofs published so far, in order.
    pub closed spec fn spec_pending(&self) -> Seq<UserProof<B>> {
        self.user_proofs@
    }

    /// Accepts one more user proof into the pending batch.
    pub fn publish_proof(&mut self, user_proof: UserProof<B>)
        ensures
            final(self).spec_pending() == old(self).spec_pending().push(user_proof),
    {
        self.user_proofs.push(user_proof);
    }
}

} // verus!
