use vstd::prelude::*;

use crate::backend::Backend;
use crate::digest::all_canonical;
use crate::digest::Digest;
use crate::hashing::flatten_inputs;
use crate::hashing::fold_hash;
use crate::hashing::lemma_flatten_canonical;
use crate::proof_data::ProofData;
use crate::tree_proof::Proof;

verus! {

/// One ordered group of user inputs: field elements in canonical form.
pub type UserInput = Vec<u64>;

/// A user-supplied proof: opaque proof data, the raw nested inputs, and the
/// user's declared circuit identity (typically the verifier digest of the
/// user's own circuit).
///
/// User proofs are inputs to the tree and are never mutated.
#[verifier::reject_recursive_types(B)]
pub struct UserProof<B: Backend> {
    proof_data: ProofData<B>,
    inputs: Vec<UserInput>,
    user_circuit_hash: Digest,
}

impl<B: Backend> UserProof<B> {
    pub fn new(inputs: Vec<UserInput>, user_circuit_hash: Digest, proof_data: ProofData<B>) -> (r:
        Self)
        requires
            forall|i: int| 0 <= i < inputs@.len() ==> all_canonical(#[trigger] inputs@[i]@),
        ensures
            r.wf(),
            r.spec_user_inputs() == inputs.deep_view(),
            r.spec_circuit_hash() == user_circuit_hash@,
            r.spec_verifier_digest() == user_circuit_hash@,
            r.spec_input_hash() == fold_hash::<B>(inputs.deep_view().flatten()),
            r.spec_proof_data() == proof_data,
    {
        let r = UserProof { proof_data, inputs, user_circuit_hash };
        proof {
            assert(forall|i: int| 0 <= i < r.inputs.deep_view().len() ==> all_canonical(
                #[trigger] r.inputs.deep_view()[i],
            ));
        }
        r
    }
}

impl<B: Backend> Proof<B> for UserProof<B> {
    closed spec fn spec_input_hash(&self) -> Seq<u64> {
        fold_hash::<B>(self.inputs.deep_view().flatten())
    }

    closed spec fn spec_circuit_hash(&self) -> Seq<u64> {
        self.user_circuit_hash@
    }

    closed spec fn spec_verifier_digest(&self) -> Seq<u64> {
        self.user_circuit_hash@
    }

    closed spec fn spec_proof_data(&self) -> ProofData<B> {
        self.proof_data
    }

    closed spec fn spec_user_inputs(&self) -> Seq<Seq<u64>> {
        self.inputs.deep_view()
    }

    closed spec fn wf(&self) -> bool {
        forall|i: int| 0 <= i < self.inputs.deep_view().len() ==> all_canonical(
            #[trigger] self.inputs.deep_view()[i],
        )
    }

    /// The user's declared circuit identity.
    fn circuit_hash(&self) -> (r: Digest) {
        self.user_circuit_hash
    }

    /// The hash of the flattened user inputs, in hash-or-noop mode.
    fn input_hash(&self) -> (r: Digest) {
        let flat = flatten_inputs(&self.inputs);
        proof {
            lemma_flatten_canonical(self.inputs.deep_view());
        }
        B::hash_or_noop(&flat)
    }

    /// Same as the declared circuit identity: a user proof's claimed circuit
    /// is whatever the user declared.
    fn circuit_verifier_digest(&self) -> (r: Digest) {
        self.user_circuit_hash
    }

    fn proof_data(&self) -> (r: &ProofData<B>) {
        &self.proof_data
    }

    /// The raw nested inputs.
    fn user_public_inputs(&self) -> (r: Vec<Vec<u64>>) {
        let mut out: Vec<Vec<u64>> = Vec::new();
        let mut i: usize = 0;
        while i < self.inputs.len()
            invariant
                i <= self.inputs@.len(),
                out@.len() == i,
                out.deep_view() == self.inputs.deep_view().take(i as int),
            decreases self.inputs@.len() - i,
        {
            let group = &self.inputs[i];
            let mut copy: Vec<u64> = Vec::new();
            let mut j: usize = 0;
            while j < group.len()
                invariant
                    j <= group@.len(),
                    group == self.inputs@[i as int],
                    i < self.inputs@.len(),
                    copy@ == group@.take(j as int),
                decreases group@.len() - j,
            {
                copy.push(group[j]);
                j = j + 1;
                proof {
                    assert(copy@ =~= group@.take(j as int));
                }
            }
            proof {
                assert(copy@ =~= group@);
            }
            let ghost pre_r = out@;
            let ghost pre_deep = out.deep_view();
            let ghost copy_deep = copy.deep_view();
            out.push(copy);
            i = i + 1;
            proof {
                let dv = self.inputs.deep_view();
                assert(out@ == pre_r.push(out@[i as int - 1]));
                assert(copy_deep =~= dv[i as int - 1]);
                assert forall|k: int| 0 <= k < out.deep_view().len() implies out.deep_view()[k]
                    == dv.take(i as int)[k] by {
                    assert(out.deep_view()[k] == out@[k].deep_view());
                    if k < i - 1 {
                        assert(out@[k] == pre_r[k]);
                        assert(pre_deep[k] == out@[k].deep_view());
                        assert(pre_deep[k] == dv.take(i as int - 1)[k]);
                    } else {
                        assert(out@[k].deep_view() == copy_deep);
                    }
                }
                assert(out.deep_view() =~= dv.take(i as int));
            }
        }
        proof {
            assert(self.inputs.deep_view().take(self.inputs@.len() as int) =~~= self
                .inputs
                .deep_view());
        }
        out
    }
}

/// A user proof's input hash is the hash-or-noop of its flattened inputs.
pub proof fn lemma_user_input_hash<B: Backend>(u: &UserProof<B>)
    ensures
        u.spec_input_hash() == fold_hash::<B>(u.spec_user_inputs().flatten()),
{
}

/// What well-formedness of a user proof gives: every input group is
/// canonical.
pub proof fn lemma_user_wf_canonical<B: Backend>(u: &UserProof<B>)
    requires
        u.wf(),
    ensures
        forall|i: int| 0 <= i < u.spec_user_inputs().len() ==> all_canonical(
            #[trigger] u.spec_user_inputs()[i],
        ),
{
}

} // verus!
