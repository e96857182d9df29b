use vstd::prelude::*;

use crate::backend::Backend;
use crate::digest::all_canonical;
use crate::digest::lemma_concat_canonical;
use crate::digest::lemma_digest_eq_view;
use crate::digest::Digest;
use crate::errors::ZkError;
use crate::hashing::flatten_inputs;
use crate::hashing::fold_hash;
use crate::hashing::is_pow2;
use crate::hashing::lemma_flatten_canonical;
use crate::hashing::lemma_pow2_halves;
use crate::hashing::merkle_root;
use crate::leaf_proof::leaf_from_user;
use crate::leaf_proof::LeafProof;
use crate::node_proof::node_from_children;
use crate::node_proof::NodeProof;
use crate::tree_proof::Proof;
use crate::user_proof::lemma_user_input_hash;
use crate::user_proof::lemma_user_wf_canonical;
use crate::user_proof::UserProof;
use crate::utils::generate_node_proofs_from_leaves;
use crate::utils::generate_node_proofs_from_nodes;

verus! {

/// Whether `n` is a positive power of two.
pub fn is_power_of_two(n: usize) -> (r: bool)
    ensures
        r == is_pow2(n as int),
{
    if n == 0 {
        return false;
    }
    let mut m: usize = n;
    while m % 2 == 0
        invariant
            m >= 1,
            is_pow2(n as int) == is_pow2(m as int),
        decreases m,
    {
        m = m / 2;
    }
    m == 1
}

/// The flattened input block of each user proof, in order: the leaves of
/// the input commitment.
pub open spec fn user_input_blocks<B: Backend>(users: Seq<UserProof<B>>) -> Seq<Seq<u64>> {
    Seq::new(users.len(), |i: int| users[i].spec_user_inputs().flatten())
}

/// Recomputes the Merkle commitment over `leaves[start..end]` at cap height
/// zero: each leaf is hashed in hash-or-noop mode, and inner nodes fold the
/// two child digests, exactly as the node circuits fold input digests.
fn merkle_root_range<B: Backend>(leaves: &Vec<Vec<u64>>, start: usize, end: usize) -> (r: Digest)
    requires
        start < end <= leaves@.len(),
        is_pow2(end - start as int),
        forall|i: int| 0 <= i < leaves@.len() ==> all_canonical((#[trigger] leaves@[i])@),
    ensures
        r@ == merkle_root::<B>(leaves.deep_view().subrange(start as int, end as int)),
    decreases end - start,
{
    let ghost dv = leaves.deep_view();
    let ghost s = dv.subrange(start as int, end as int);
    if end - start == 1 {
        let r = B::hash_or_noop(&leaves[start]);
        proof {
            assert(s.len() == 1);
            assert(s[0] =~= leaves@[start as int]@);
        }
        r
    } else {
        proof {
            lemma_pow2_halves(end - start as int);
        }
        let mid = start + (end - start) / 2;
        let left = merkle_root_range::<B>(leaves, start, mid);
        let right = merkle_root_range::<B>(leaves, mid, end);
        let mut preimage = left.to_vec();
        right.append_to(&mut preimage);
        proof {
            use_type_invariant(&left);
            use_type_invariant(&right);
            lemma_concat_canonical(left@, right@);
            assert(s.take(s.len() as int / 2) =~= dv.subrange(start as int, mid as int));
            assert(s.skip(s.len() as int / 2) =~= dv.subrange(mid as int, end as int));
        }
        B::hash_or_noop(&preimage)
    }
}

/// The balanced binary recursion tree over a power-of-two batch of user
/// proofs: the user proofs themselves, one leaf proof per user proof, and
/// all node proofs level by level, the root last.
#[verifier::reject_recursive_types(B)]
pub struct ZkTree<B: Backend> {
    user_proofs: Vec<UserProof<B>>,
    leaf_proofs: Vec<LeafProof<B>>,
    node_proofs: Vec<NodeProof<B>>,
}

impl<B: Backend> ZkTree<B> {
    /// The user proofs the tree was built over.
    pub closed spec fn spec_user_proofs(&self) -> Seq<UserProof<B>> {
        self.user_proofs@
    }

    /// The leaf proofs, one per user proof, in order.
    pub closed spec fn spec_leaf_proofs(&self) -> Seq<LeafProof<B>> {
        self.leaf_proofs@
    }

    /// The node proofs, level by level bottom-up, the root last.
    pub closed spec fn spec_node_proofs(&self) -> Seq<NodeProof<B>> {
        self.node_proofs@
    }

    /// Well-formedness of a built tree.
    ///
    /// The batch size is a power of two above one; there is one leaf proof
    /// per user proof and one node proof fewer than leaves; every leaf
    /// proof folds its user proof; every node proof folds its two children
    /// — the node at position `j` pairs leaves `2j, 2j+1` on the lowest
    /// level and nodes `2j-n, 2j-n+1` above it; and the root's input digest
    /// is the Merkle root of the raw user inputs.
    pub open spec fn wf(&self) -> bool {
        let n = self.spec_user_proofs().len() as int;
        &&& n >= 2
        &&& is_pow2(n)
        &&& self.spec_leaf_proofs().len() == n
        &&& self.spec_node_proofs().len() == n - 1
        &&& forall|i: int| 0 <= i < n ==> (#[trigger] self.spec_user_proofs()[i]).wf()
        &&& forall|i: int| 0 <= i < n ==> (#[trigger] self.spec_leaf_proofs()[i]).wf()
        &&& forall|j: int| 0 <= j < n - 1 ==> (#[trigger] self.spec_node_proofs()[j]).wf()
        &&& forall|i: int|
            0 <= i < n ==> leaf_from_user(
                #[trigger] self.spec_leaf_proofs()[i],
                self.spec_user_proofs()[i],
            )
        &&& forall|j: int|
            0 <= j < n / 2 ==> node_from_children(
                #[trigger] self.spec_node_proofs()[j],
                self.spec_leaf_proofs()[2 * j],
                self.spec_leaf_proofs()[2 * j + 1],
            )
        &&& forall|j: int|
            n / 2 <= j < n - 1 ==> node_from_children(
                #[trigger] self.spec_node_proofs()[j],
                self.spec_node_proofs()[2 * j - n],
                self.spec_node_proofs()[2 * j - n + 1],
            )
        &&& self.spec_node_proofs().last().spec_input_hash() == merkle_root::<B>(
            user_input_blocks(self.spec_user_proofs()),
        )
    }

    /// Builds the whole tree: one leaf proof per user proof, then, level by
    /// level, one node proof per adjacent pair, until a single root
    /// remains.  A batch whose size is not a power of two above one is
    /// rejected with `ShapeError` before any proving.
    pub fn new(user_proofs: Vec<UserProof<B>>) -> (r: Result<Self, ZkError>) where
        B::Proof: Send + Sync,
        B::CircuitData: Send + Sync,

        requires
            forall|i: int| 0 <= i < user_proofs@.len() ==> (#[trigger] user_proofs@[i]).wf(),
        ensures
            r matches Ok(t) ==> t.wf() && t.spec_user_proofs() == user_proofs@,
            r == Err::<ZkTree<B>, ZkError>(ZkError::ShapeError) <==> !(user_proofs@.len() > 1
                && is_pow2(user_proofs@.len() as int)),
            (exists|i: int|
                0 <= i < user_proofs@.len() && B::public_inputs_of(
                    (#[trigger] user_proofs@[i]).spec_proof_data().proof_with_pis,
                ).len() != user_proofs@[i].spec_user_inputs().flatten().len()) ==> r is Err,
    {
        let n = user_proofs.len();
        if !(n > 1 && is_power_of_two(n)) {
            return Err(ZkError::ShapeError);
        }
        let ghost leaf_in = user_input_blocks(user_proofs@);

        let mut leaf_proofs: Vec<LeafProof<B>> = Vec::new();
        let mut i: usize = 0;
        while i < n
            invariant
                n == user_proofs@.len(),
                n > 1,
                is_pow2(n as int),
                i <= n,
                forall|k: int| 0 <= k < n ==> (#[trigger] user_proofs@[k]).wf(),
                leaf_proofs@.len() == i,
                forall|k: int|
                    0 <= k < i ==> leaf_from_user(#[trigger] leaf_proofs@[k], user_proofs@[k])
                        && leaf_proofs@[k].wf(),
                forall|k: int|
                    0 <= k < i ==> B::public_inputs_of(
                        (#[trigger] user_proofs@[k]).spec_proof_data().proof_with_pis,
                    ).len() == user_proofs@[k].spec_user_inputs().flatten().len(),
            decreases n - i,
        {
            match LeafProof::new_from_user_proof(&user_proofs[i]) {
                Ok(lp) => {
                    leaf_proofs.push(lp);
                },
                Err(e) => {
                    proof {
                        assert(e != ZkError::ShapeError);
                    }
                    return Err(e);
                },
            }
            i = i + 1;
        }

        proof {
            lemma_pow2_halves(n as int);
        }
        let mut node_proofs: Vec<NodeProof<B>> = match generate_node_proofs_from_leaves(
            &leaf_proofs,
        ) {
            Ok(v) => v,
            Err(e) => {
                proof {
                    assert(e != ZkError::ShapeError);
                }
                return Err(e);
            },
        };

        let ghost mut w: int = n as int / 2;
        let ghost mut span: int = 2;
        let mut start: usize = 0;

        proof {
            assert(leaf_in.len() == n);
            assert forall|j: int| start <= j < node_proofs@.len() implies (
            #[trigger] node_proofs@[j]).spec_input_hash() == merkle_root::<B>(
                leaf_in.subrange((j - start) * span, (j - start + 1) * span),
            ) by {
                let idx = j - start as int;
                assert(span == 2);
                assert(idx * 2 == idx * span && idx * 2 + 2 == (idx + 1) * span)
                    by (nonlinear_arith)
                    requires
                        span == 2,
                ;
                assert(2 * idx + 1 < n);
                let s = leaf_in.subrange(2 * idx, 2 * idx + 2);
                assert(s.len() == 2);
                assert(s.take(1) =~= seq![leaf_in[2 * idx]]);
                assert(s.skip(1) =~= seq![leaf_in[2 * idx + 1]]);
                assert(leaf_in[2 * idx] == user_proofs@[2 * idx].spec_user_inputs().flatten());
                assert(leaf_in[2 * idx + 1] == user_proofs@[2 * idx
                    + 1].spec_user_inputs().flatten());
                lemma_user_input_hash(&user_proofs@[2 * idx]);
                lemma_user_input_hash(&user_proofs@[2 * idx + 1]);
                assert(leaf_from_user(leaf_proofs@[2 * idx], user_proofs@[2 * idx]));
                assert(leaf_from_user(leaf_proofs@[2 * idx + 1], user_proofs@[2 * idx + 1]));
                assert(leaf_proofs@[2 * idx].spec_input_hash() == fold_hash::<B>(
                    leaf_in[2 * idx],
                ));
                assert(leaf_proofs@[2 * idx + 1].spec_input_hash() == fold_hash::<B>(
                    leaf_in[2 * idx + 1],
                ));
                assert(merkle_root::<B>(s.take(1)) == fold_hash::<B>(leaf_in[2 * idx]));
                assert(merkle_root::<B>(s.skip(1)) == fold_hash::<B>(leaf_in[2 * idx + 1]));
                assert(merkle_root::<B>(s) == fold_hash::<B>(
                    merkle_root::<B>(s.take(1)) + merkle_root::<B>(s.skip(1)),
                ));
                assert(node_from_children(
                    node_proofs@[idx],
                    leaf_proofs@[2 * idx],
                    leaf_proofs@[2 * idx + 1],
                ));
                assert(node_proofs@[j] == node_proofs@[idx]);
            }
        }

        while node_proofs.len() - start > 1
            invariant
                n == user_proofs@.len(),
                n >= 2,
                is_pow2(n as int),
                leaf_in == user_input_blocks(user_proofs@),
                forall|k: int| 0 <= k < n ==> (#[trigger] user_proofs@[k]).wf(),
                leaf_proofs@.len() == n,
                forall|k: int|
                    0 <= k < n ==> leaf_from_user(#[trigger] leaf_proofs@[k], user_proofs@[k])
                        && leaf_proofs@[k].wf(),
                forall|k: int|
                    0 <= k < n ==> B::public_inputs_of(
                        (#[trigger] user_proofs@[k]).spec_proof_data().proof_with_pis,
                    ).len() == user_proofs@[k].spec_user_inputs().flatten().len(),
                1 <= w,
                is_pow2(w),
                span >= 2,
                w * span == n,
                start == n - 2 * w,
                node_proofs@.len() == n - w,
                forall|j: int|
                    0 <= j < n / 2 ==> node_from_children(
                        #[trigger] node_proofs@[j],
                        leaf_proofs@[2 * j],
                        leaf_proofs@[2 * j + 1],
                    ),
                forall|j: int|
                    n / 2 <= j < node_proofs@.len() ==> node_from_children(
                        #[trigger] node_proofs@[j],
                        node_proofs@[2 * j - n],
                        node_proofs@[2 * j - n + 1],
                    ),
                forall|j: int| 0 <= j < node_proofs@.len() ==> (#[trigger] node_proofs@[j]).wf(),
                forall|j: int|
                    start <= j < node_proofs@.len() ==> (
                    #[trigger] node_proofs@[j]).spec_input_hash() == merkle_root::<B>(
                        leaf_in.subrange((j - start) * span, (j - start + 1) * span),
                    ),
            decreases w,
        {
            proof {
                lemma_pow2_halves(w);
            }
            let len = node_proofs.len();
            let mut next = match generate_node_proofs_from_nodes(&node_proofs, start, len) {
                Ok(v) => v,
                Err(e) => {
                    proof {
                        assert(e != ZkError::ShapeError);
                    }
                    return Err(e);
                },
            };
            let new_start = len;
            let ghost old_nodes = node_proofs@;
            let ghost next_seq = next@;
            let ghost old_start = start as int;
            node_proofs.append(&mut next);
            start = new_start;
            proof {
                let old_w = w;
                let old_span = span;
                w = w / 2;
                span = span * 2;
                assert(w * span == n) by (nonlinear_arith)
                    requires
                        w == old_w / 2,
                        span == 2 * old_span,
                        old_w * old_span == n,
                        old_w % 2 == 0,
                        old_w >= 2,
                ;
                assert(node_proofs@ =~= old_nodes + next_seq);
                assert(node_proofs@.len() == n - w);
                assert(leaf_in.len() == n);

                assert forall|j: int|
                    n / 2 <= j < node_proofs@.len() implies node_from_children(
                    #[trigger] node_proofs@[j],
                    node_proofs@[2 * j - n],
                    node_proofs@[2 * j - n + 1],
                ) by {
                    if j < old_nodes.len() {
                        assert(node_proofs@[j] == old_nodes[j]);
                        assert(2 * j - n + 1 < old_nodes.len());
                        assert(node_proofs@[2 * j - n] == old_nodes[2 * j - n]);
                        assert(node_proofs@[2 * j - n + 1] == old_nodes[2 * j - n + 1]);
                    } else {
                        let idx = j - new_start;
                        assert(node_proofs@[j] == next_seq[idx]);
                        assert(node_from_children(
                            next_seq[idx],
                            old_nodes[(n - 2 * old_w) + 2 * idx],
                            old_nodes[(n - 2 * old_w) + 2 * idx + 1],
                        ));
                        assert((n - 2 * old_w) + 2 * idx == 2 * j - n);
                        assert(node_proofs@[2 * j - n] == old_nodes[2 * j - n]);
                        assert(node_proofs@[2 * j - n + 1] == old_nodes[2 * j - n + 1]);
                    }
                }

                assert forall|j: int|
                    start <= j < node_proofs@.len() implies (
                #[trigger] node_proofs@[j]).spec_input_hash() == merkle_root::<B>(
                    leaf_in.subrange((j - start) * span, (j - start + 1) * span),
                ) by {
                    let idx = j - start as int;
                    let s = leaf_in.subrange(idx * span, (idx + 1) * span);
                    assert(idx * span == (2 * idx) * old_span) by (nonlinear_arith)
                        requires
                            span == 2 * old_span,
                    ;
                    assert(idx * span + old_span == (2 * idx + 1) * old_span) by (nonlinear_arith)
                        requires
                            span == 2 * old_span,
                    ;
                    assert((idx + 1) * span == (2 * idx + 2) * old_span) by (nonlinear_arith)
                        requires
                            span == 2 * old_span,
                    ;
                    assert((idx + 1) * span <= n) by (nonlinear_arith)
                        requires
                            0 <= idx < w,
                            w * span == n,
                            span >= 2,
                    ;
                    assert(0 <= idx * span && (idx + 1) * span - idx * span == span)
                        by (nonlinear_arith)
                        requires
                            0 <= idx,
                            span >= 2,
                    ;
                    assert(s.len() == span);
                    assert(s.take(old_span) =~= leaf_in.subrange(
                        (2 * idx) * old_span,
                        (2 * idx + 1) * old_span,
                    ));
                    assert(s.skip(old_span) =~= leaf_in.subrange(
                        (2 * idx + 1) * old_span,
                        (2 * idx + 2) * old_span,
                    ));
                    assert(node_proofs@[j] == next_seq[idx]);
                    assert(node_from_children(
                        next_seq[idx],
                        old_nodes[old_start + 2 * idx],
                        old_nodes[old_start + 2 * idx + 1],
                    ));
                    assert((old_start + 2 * idx) - old_start == 2 * idx && (old_start + 2 * idx
                        + 1) - old_start == 2 * idx + 1);
                    assert(old_nodes[old_start + 2 * idx].spec_input_hash() == merkle_root::<B>(
                        leaf_in.subrange((2 * idx) * old_span, (2 * idx + 1) * old_span),
                    ));
                    assert(old_nodes[old_start + 2 * idx + 1].spec_input_hash() == merkle_root::<
                        B,
                    >(leaf_in.subrange((2 * idx + 1) * old_span, (2 * idx + 2) * old_span)));
                }
            }
        }

        proof {
            assert(w == 1);
            assert(span == n) by (nonlinear_arith)
                requires
                    w == 1,
                    w * span == n,
            ;
            assert(node_proofs@.len() == n - 1);
            assert(start == n - 2);
            assert(node_proofs@[start as int].spec_input_hash() == merkle_root::<B>(
                leaf_in.subrange(
                    (start as int - start as int) * span,
                    (start as int - start as int + 1) * span,
                ),
            ));
            assert((start as int - start as int) * span == 0 && (start as int - start as int + 1)
                * span == n);
            assert(leaf_in.subrange(0, n as int) =~= leaf_in);
            assert(node_proofs@.last() == node_proofs@[n - 2]);
        }
        Ok(ZkTree { user_proofs, leaf_proofs, node_proofs })
    }

    /// The root proof: the last node proof produced.
    pub fn root(&self) -> (r: &NodeProof<B>)
        requires
            self.wf(),
        ensures
            *r == self.spec_node_proofs().last(),
    {
        let idx = self.node_proofs.len() - 1;
        &self.node_proofs[idx]
    }

    /// The user proofs, in order.
    pub fn get_user_proofs(&self) -> (r: &Vec<UserProof<B>>)
        ensures
            r@ == self.spec_user_proofs(),
    {
        &self.user_proofs
    }

    /// The leaf proofs, in order.
    pub fn get_leaf_proofs(&self) -> (r: &Vec<LeafProof<B>>)
        ensures
            r@ == self.spec_leaf_proofs(),
    {
        &self.leaf_proofs
    }

    /// The node proofs, level by level, the root last.
    pub fn get_node_proofs(&self) -> (r: &Vec<NodeProof<B>>)
        ensures
            r@ == self.spec_node_proofs(),
    {
        &self.node_proofs
    }

    /// Recomputes the Merkle commitment over the raw user inputs and
    /// checks it against the root's input digest.
    ///
    /// On a well-formed tree this check always succeeds: the tree driver
    /// provably folds the same commitment into the root's input digest that
    /// is recomputed here.  The runtime comparison stays, as the verifier
    /// never assumes validity; the contract shows the mismatch arm
    /// unreachable.
    pub fn check_input_commitment(&self) -> (r: Result<(), ZkError>)
        requires
            self.wf(),
        ensures
            r == Ok::<(), ZkError>(()),
    {
        let root = self.root();
        let ghost leaf_in = user_input_blocks(self.spec_user_proofs());
        let mut input_tree_leaves: Vec<Vec<u64>> = Vec::new();
        let mut i: usize = 0;
        while i < self.user_proofs.len()
            invariant
                self.wf(),
                leaf_in == user_input_blocks(self.spec_user_proofs()),
                i <= self.spec_user_proofs().len(),
                input_tree_leaves@.len() == i,
                forall|k: int|
                    0 <= k < i ==> (#[trigger] input_tree_leaves@[k])@ == leaf_in[k]
                        && all_canonical(input_tree_leaves@[k]@),
            decreases self.spec_user_proofs().len() - i,
        {
            let groups = self.user_proofs[i].user_public_inputs();
            let flat = flatten_inputs(&groups);
            proof {
                lemma_user_wf_canonical(&self.spec_user_proofs()[i as int]);
                lemma_flatten_canonical(self.spec_user_proofs()[i as int].spec_user_inputs());
            }
            input_tree_leaves.push(flat);
            i = i + 1;
        }

        let cap = merkle_root_range::<B>(&input_tree_leaves, 0, input_tree_leaves.len());
        proof {
            assert(self.spec_node_proofs().last() == self.spec_node_proofs()[
                self.spec_node_proofs().len() - 1]);
        }
        let root_input_hash = root.input_hash();
        proof {
            assert(input_tree_leaves.deep_view().subrange(
                0,
                input_tree_leaves@.len() as int,
            ) =~~= leaf_in);
            lemma_digest_eq_view(cap, root_input_hash);
        }
        if !(cap == root_input_hash) {
            return Err(ZkError::InputCommitmentMismatch);
        }
        Ok(())
    }

    /// Verifies the tree: checks the root proof with the backend, then
    /// cross-checks the input commitment.
    ///
    /// Since the commitment check provably succeeds on a well-formed tree,
    /// the outcome is exactly whether the backend accepts the root proof:
    /// the call succeeds precisely when the root proof verifies, the only
    /// failure a caller can see is a backend rejection, and — that
    /// acceptance being a function of the stored values — repeated calls on
    /// one tree return one and the same outcome.
    pub fn verify(&self) -> (r: Result<(), ZkError>)
        requires
            self.wf(),
        ensures
            r is Ok <==> B::verify_ok(
                self.spec_node_proofs().last().spec_proof_data().circuit_data,
                self.spec_node_proofs().last().spec_proof_data().proof_with_pis,
            ),
            r is Err ==> r == Err::<(), ZkError>(ZkError::BackendError),
    {
        let root = self.root();
        let root_pd = root.proof_data();
        match B::verify(&root_pd.circuit_data, &root_pd.proof_with_pis) {
            Ok(u) => u,
            Err(e) => {
                return Err(e);
            },
        }
        self.check_input_commitment()
    }
}

/// The public-input layout law: every leaf and node proof of a well-formed
/// tree exposes exactly eight field elements as public inputs — its input
/// hash followed by its circuit hash, in that order.
pub proof fn lemma_public_input_layout<B: Backend>(t: &ZkTree<B>)
    requires
        t.wf(),
    ensures
        forall|i: int|
            0 <= i < t.spec_leaf_proofs().len() ==> B::public_inputs_of(
                (#[trigger] t.spec_leaf_proofs()[i]).spec_proof_data().proof_with_pis,
            ) == t.spec_leaf_proofs()[i].spec_input_hash()
                + t.spec_leaf_proofs()[i].spec_circuit_hash(),
        forall|j: int|
            0 <= j < t.spec_node_proofs().len() ==> B::public_inputs_of(
                (#[trigger] t.spec_node_proofs()[j]).spec_proof_data().proof_with_pis,
            ) == t.spec_node_proofs()[j].spec_input_hash()
                + t.spec_node_proofs()[j].spec_circuit_hash(),
{
    let n = t.spec_user_proofs().len() as int;
    assert forall|j: int|
        0 <= j < t.spec_node_proofs().len() implies B::public_inputs_of(
        (#[trigger] t.spec_node_proofs()[j]).spec_proof_data().proof_with_pis,
    ) == t.spec_node_proofs()[j].spec_input_hash()
        + t.spec_node_proofs()[j].spec_circuit_hash() by {
        if j < n / 2 {
            assert(node_from_children(
                t.spec_node_proofs()[j],
                t.spec_leaf_proofs()[2 * j],
                t.spec_leaf_proofs()[2 * j + 1],
            ));
        } else {
            assert(node_from_children(
                t.spec_node_proofs()[j],
                t.spec_node_proofs()[2 * j - n],
                t.spec_node_proofs()[2 * j - n + 1],
            ));
        }
    }
}

/// The leaf folding law: in a well-formed tree, each leaf proof's input
/// hash is the hash of its user proof's flattened inputs, and its circuit
/// hash folds the leaf circuit's verifier digest with the user's declared
/// circuit hash.
pub proof fn lemma_leaf_folding<B: Backend>(t: &ZkTree<B>)
    requires
        t.wf(),
    ensures
        forall|i: int|
            0 <= i < t.spec_leaf_proofs().len() ==> {
                let leaf = #[trigger] t.spec_leaf_proofs()[i];
                let user = t.spec_user_proofs()[i];
                leaf.spec_input_hash() == fold_hash::<B>(user.spec_user_inputs().flatten())
                    && leaf.spec_circuit_hash() == fold_hash::<B>(
                    leaf.spec_verifier_digest() + user.spec_circuit_hash(),
                )
            },
{
    assert forall|i: int|
        0 <= i < t.spec_leaf_proofs().len() implies {
        let leaf = #[trigger] t.spec_leaf_proofs()[i];
        let user = t.spec_user_proofs()[i];
        leaf.spec_input_hash() == fold_hash::<B>(user.spec_user_inputs().flatten())
            && leaf.spec_circuit_hash() == fold_hash::<B>(
            leaf.spec_verifier_digest() + user.spec_circuit_hash(),
        )
    } by {
        assert(leaf_from_user(t.spec_leaf_proofs()[i], t.spec_user_proofs()[i]));
        lemma_user_input_hash(&t.spec_user_proofs()[i]);
    }
}

/// The node folding and homogeneity laws: in a well-formed tree, each node
/// proof's input hash folds its two children's input hashes, its circuit
/// hash folds the left child circuit hash, its own verifier digest and the
/// right child circuit hash, and its two children carry one and the same
/// circuit verifier digest.  On the lowest level the children of node `j`
/// are leaves `2j, 2j+1`; above it they are nodes `2j-n, 2j-n+1`.
pub proof fn lemma_node_folding<B: Backend>(t: &ZkTree<B>)
    requires
        t.wf(),
    ensures
        forall|j: int|
            0 <= j < t.spec_user_proofs().len() as int / 2 ==> node_from_children(
                #[trigger] t.spec_node_proofs()[j],
                t.spec_leaf_proofs()[2 * j],
                t.spec_leaf_proofs()[2 * j + 1],
            ),
        forall|j: int|
            t.spec_user_proofs().len() as int / 2 <= j < t.spec_node_proofs().len()
                ==> node_from_children(
                #[trigger] t.spec_node_proofs()[j],
                t.spec_node_proofs()[2 * j - t.spec_user_proofs().len() as int],
                t.spec_node_proofs()[2 * j - t.spec_user_proofs().len() as int + 1],
            ),
{
}

/// The homogeneity law: the two children of every node of a well-formed
/// tree carry one and the same circuit verifier digest.
pub proof fn lemma_sibling_homogeneity<B: Backend>(t: &ZkTree<B>)
    requires
        t.wf(),
    ensures
        forall|j: int|
            0 <= j < t.spec_user_proofs().len() as int / 2 ==> B::digest_of(
                (#[trigger] t.spec_leaf_proofs()[2 * j]).spec_proof_data().circuit_data,
            ) == B::digest_of(t.spec_leaf_proofs()[2 * j + 1].spec_proof_data().circuit_data),
        forall|j: int|
            t.spec_user_proofs().len() as int / 2 <= j < t.spec_node_proofs().len()
                ==> B::digest_of(
                (#[trigger] t.spec_node_proofs()[2 * j - t.spec_user_proofs().len() as int]).spec_proof_data().circuit_data,
            ) == B::digest_of(
                t.spec_node_proofs()[2 * j - t.spec_user_proofs().len() as int
                    + 1].spec_proof_data().circuit_data,
            ),
{
    let n = t.spec_user_proofs().len() as int;
    assert forall|j: int| 0 <= j < n / 2 implies B::digest_of(
        (#[trigger] t.spec_leaf_proofs()[2 * j]).spec_proof_data().circuit_data,
    ) == B::digest_of(t.spec_leaf_proofs()[2 * j + 1].spec_proof_data().circuit_data) by {
        assert(node_from_children(
            t.spec_node_proofs()[j],
            t.spec_leaf_proofs()[2 * j],
            t.spec_leaf_proofs()[2 * j + 1],
        ));
    }
    assert forall|j: int| n / 2 <= j < t.spec_node_proofs().len() implies B::digest_of(
        (#[trigger] t.spec_node_proofs()[2 * j - n]).spec_proof_data().circuit_data,
    ) == B::digest_of(t.spec_node_proofs()[2 * j - n + 1].spec_proof_data().circuit_data) by {
        assert(node_from_children(
            t.spec_node_proofs()[j],
            t.spec_node_proofs()[2 * j - n],
            t.spec_node_proofs()[2 * j - n + 1],
        ));
    }
}

/// Every proof a well-formed tree stores verifies under its own circuit
/// data: the prover only hands back proofs that verify, and the tree keeps
/// them unchanged.
pub proof fn lemma_all_proofs_verify<B: Backend>(t: &ZkTree<B>)
    requires
        t.wf(),
    ensures
        forall|i: int|
            0 <= i < t.spec_leaf_proofs().len() ==> B::verify_ok(
                (#[trigger] t.spec_leaf_proofs()[i]).spec_proof_data().circuit_data,
                t.spec_leaf_proofs()[i].spec_proof_data().proof_with_pis,
            ),
        forall|j: int|
            0 <= j < t.spec_node_proofs().len() ==> B::verify_ok(
                (#[trigger] t.spec_node_proofs()[j]).spec_proof_data().circuit_data,
                t.spec_node_proofs()[j].spec_proof_data().proof_with_pis,
            ),
{
    let n = t.spec_user_proofs().len() as int;
    assert forall|j: int| 0 <= j < t.spec_node_proofs().len() implies B::verify_ok(
        (#[trigger] t.spec_node_proofs()[j]).spec_proof_data().circuit_data,
        t.spec_node_proofs()[j].spec_proof_data().proof_with_pis,
    ) by {
        if j < n / 2 {
            assert(node_from_children(
                t.spec_node_proofs()[j],
                t.spec_leaf_proofs()[2 * j],
                t.spec_leaf_proofs()[2 * j + 1],
            ));
        } else {
            assert(node_from_children(
                t.spec_node_proofs()[j],
                t.spec_node_proofs()[2 * j - n],
                t.spec_node_proofs()[2 * j - n + 1],
            ));
        }
    }
}

/// The commitment binding law, construction side: the root of a
/// well-formed tree carries, as its input digest, exactly the Merkle root
/// of the flattened user inputs — so the input commitment that `verify`
/// recomputes always matches an untampered tree.
pub proof fn lemma_root_commitment<B: Backend>(t: &ZkTree<B>)
    requires
        t.wf(),
    ensures
        t.spec_node_proofs().last().spec_input_hash() == merkle_root::<B>(
            user_input_blocks(t.spec_user_proofs()),
        ),
{
}

} // verus!
