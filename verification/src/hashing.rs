use vstd::prelude::*;
use vstd::seq_lib::*;

use crate::backend::Backend;
use crate::digest::all_canonical;

verus! {

/// Zero-padding of a short input to one digest block of four elements.
pub open spec fn pad4(input: Seq<u64>) -> Seq<u64>
    recommends
        input.len() <= 4,
{
    input + Seq::new((4 - input.len()) as nat, |i: int| 0u64)
}

/// The hash-or-noop convention of backend `B`: an input that already fits
/// one digest block is returned unchanged (zero-padded to four elements); a
/// longer input is sponge-hashed.  Both circuits and the Merkle commitment
/// use this mode.
pub open spec fn fold_hash<B: Backend>(input: Seq<u64>) -> Seq<u64> {
    if input.len() <= 4 {
        pad4(input)
    } else {
        B::sponge(input)
    }
}

/// `n` is a positive power of two.
pub open spec fn is_pow2(n: int) -> bool
    decreases n,
{
    if n <= 0 {
        false
    } else if n == 1 {
        true
    } else {
        n % 2 == 0 && is_pow2(n / 2)
    }
}

/// Root of the binary hash tree over `leaves` under backend `B`: a single
/// leaf is hashed with `fold_hash`; a longer sequence is split in half and
/// the two subtree roots are folded together.  This is the commitment the
/// root verifier recomputes over the raw user inputs, and — by construction
/// — the value the node circuits fold upward through their input digests.
pub open spec fn merkle_root<B: Backend>(leaves: Seq<Seq<u64>>) -> Seq<u64>
    recommends
        leaves.len() >= 1,
    decreases leaves.len(),
{
    if leaves.len() <= 1 {
        fold_hash::<B>(
            if leaves.len() == 1 {
                leaves[0]
            } else {
                Seq::<u64>::empty()
            },
        )
    } else {
        fold_hash::<B>(
            merkle_root::<B>(leaves.take(leaves.len() as int / 2)) + merkle_root::<B>(
                leaves.skip(leaves.len() as int / 2),
            ),
        )
    }
}

/// Concatenates the nested input groups into one flat sequence, in order.
pub fn flatten_inputs(inputs: &Vec<Vec<u64>>) -> (r: Vec<u64>)
    ensures
        r@ == inputs.deep_view().flatten(),
{
    let ghost dv = inputs.deep_view();
    let mut flat: Vec<u64> = Vec::new();
    proof {
        assert(dv.take(0) =~= Seq::<Seq<u64>>::empty());
        assert(dv.take(0).flatten() =~= Seq::<u64>::empty());
    }
    let mut i: usize = 0;
    while i < inputs.len()
        invariant
            i <= inputs@.len(),
            dv == inputs.deep_view(),
            flat@ == dv.take(i as int).flatten(),
        decreases inputs@.len() - i,
    {
        let group = &inputs[i];
        let mut j: usize = 0;
        while j < group.len()
            invariant
                j <= group@.len(),
                group == inputs@[i as int],
                i < inputs@.len(),
                dv == inputs.deep_view(),
                flat@ == dv.take(i as int).flatten() + group@.take(j as int),
            decreases group@.len() - j,
        {
            flat.push(group[j]);
            j = j + 1;
            proof {
                assert(group@.take(j as int) =~= group@.take(j as int - 1).push(group@[j - 1]));
                assert(flat@ =~= dv.take(i as int).flatten() + group@.take(j as int));
            }
        }
        i = i + 1;
        proof {
            assert(group@.take(group@.len() as int) =~= dv[i as int - 1]);
            assert(dv.take(i as int) =~= dv.take(i as int - 1).push(dv[i as int - 1]));
            dv.take(i as int - 1).lemma_flatten_push(dv[i as int - 1]);
            assert(flat@ =~= dv.take(i as int).flatten());
        }
    }
    proof {
        assert(dv.take(inputs@.len() as int) =~= dv);
    }
    flat
}

/// Element-by-element equality of two flat value vectors.
pub fn vecs_equal(a: &Vec<u64>, b: &Vec<u64>) -> (r: bool)
    ensures
        r <==> a@ == b@,
{
    if a.len() != b.len() {
        return false;
    }
    let mut i: usize = 0;
    while i < a.len()
        invariant
            a@.len() == b@.len(),
            i <= a@.len(),
            forall|k: int| 0 <= k < i ==> a@[k] == b@[k],
        decreases a@.len() - i,
    {
        if a[i] != b[i] {
            return false;
        }
        i = i + 1;
    }
    proof {
        assert(a@ =~= b@);
    }
    true
}

/// Flattening canonical groups yields a canonical sequence.
pub proof fn lemma_flatten_canonical(s: Seq<Seq<u64>>)
    requires
        forall|i: int| 0 <= i < s.len() ==> all_canonical(#[trigger] s[i]),
    ensures
        all_canonical(s.flatten()),
    decreases s.len(),
{
    if s.len() == 0 {
    } else {
        assert(s.drop_last() =~= s.take(s.len() - 1));
        lemma_flatten_canonical(s.drop_last());
        s.drop_last().lemma_flatten_push(s.last());
        assert(s.drop_last().push(s.last()) =~= s);
    }
}

/// A power of two of at least two is even, and its half is again a power of
/// two.
pub proof fn lemma_pow2_halves(n: int)
    requires
        is_pow2(n),
        n >= 2,
    ensures
        n % 2 == 0,
        is_pow2(n / 2),
{
}

} // verus!
