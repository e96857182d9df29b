use vstd::prelude::*;

verus! {

/// Order of the 64-bit prime field in which all inputs and digests live.
pub const FIELD_ORDER: u64 = 0xFFFF_FFFF_0000_0001;

/// Every element of `s` is the canonical representative of a field element.
pub open spec fn all_canonical(s: Seq<u64>) -> bool {
    forall|i: int| 0 <= i < s.len() ==> s[i] < FIELD_ORDER
}

/// A four-element algebraic-hash digest, held as canonical field elements.
///
/// This is the plain-value form of the backend's hash output: circuit
/// verifier digests, input digests and circuit digests are all values of
/// this type.
#[derive(Clone, Copy, Debug, PartialEq, Eq, Structural)]
pub struct Digest {
    e0: u64,
    e1: u64,
    e2: u64,
    e3: u64,
}

impl View for Digest {
    type V = Seq<u64>;

    closed spec fn view(&self) -> Seq<u64> {
        seq![self.e0, self.e1, self.e2, self.e3]
    }
}

impl Digest {
    /// Every digest holds canonical field elements.
    #[verifier::type_invariant]
    pub open spec fn canonical(self) -> bool {
        all_canonical(self.view())
    }

    pub fn new(e0: u64, e1: u64, e2: u64, e3: u64) -> (r: Self)
        requires
            e0 < FIELD_ORDER,
            e1 < FIELD_ORDER,
            e2 < FIELD_ORDER,
            e3 < FIELD_ORDER,
        ensures
            r@ == seq![e0, e1, e2, e3],
    {
        Digest { e0, e1, e2, e3 }
    }

    /// The four elements, in order.
    pub fn to_vec(&self) -> (r: Vec<u64>)
        ensures
            r@ == self@,
            r@.len() == 4,
    {
        let mut v: Vec<u64> = Vec::new();
        v.push(self.e0);
        v.push(self.e1);
        v.push(self.e2);
        v.push(self.e3);
        proof {
            assert(v@ =~= self@);
        }
        v
    }

    /// Appends the four elements, in order, to `out`.
    pub fn append_to(&self, out: &mut Vec<u64>)
        ensures
            final(out)@ == old(out)@ + self@,
            final(out)@.len() == old(out)@.len() + 4,
    {
        out.push(self.e0);
        out.push(self.e1);
        out.push(self.e2);
        out.push(self.e3);
        proof {
            assert(out@ =~= old(out)@ + self@);
        }
    }

}

/// Two digests are equal exactly when their views are.
pub proof fn lemma_digest_eq_view(a: Digest, b: Digest)
    ensures
        (a == b) <==> (a@ == b@),
{
    if a@ == b@ {
        assert(a@[0] == b@[0]);
        assert(a@[1] == b@[1]);
        assert(a@[2] == b@[2]);
        assert(a@[3] == b@[3]);
    }
}

/// Concatenating canonical sequences yields a canonical sequence.
pub proof fn lemma_concat_canonical(a: Seq<u64>, b: Seq<u64>)
    requires
        all_canonical(a),
        all_canonical(b),
    ensures
        all_canonical(a + b),
{
    assert forall|i: int| 0 <= i < (a + b).len() implies (a + b)[i] < FIELD_ORDER by {
        if i < a.len() {
            assert((a + b)[i] == a[i]);
        } else {
            assert((a + b)[i] == b[i - a.len()]);
        }
    }
}

} // verus!
