//! A transparent, deterministic implementation of the backend adapter.
//!
//! This backend records a circuit as a transcript of builder operations and
//! keeps every constraint in the clear: its "proofs" carry their public
//! inputs openly and its circuit digest is the sponge hash of the builder
//! transcript, so structurally different circuits get different digests and
//! identical build sequences always get the same one.  Proving checks every
//! recorded constraint — wire connections, hash gadgets and recursive
//! verification gadgets — against the witness, and fails on any violation,
//! the way a proving backend fails on an unsatisfiable witness.
//!
//! It produces no succinct or zero-knowledge proofs; it exists to give the
//! backend contract an implementation whose every clause is proved, and to
//! let the tree pipeline run end to end.

use vstd::prelude::*;

use crate::backend::Backend;
use crate::digest::all_canonical;
use crate::digest::Digest;
use crate::digest::FIELD_ORDER;
use crate::errors::ZkError;
use crate::hashing::pad4;

verus! {

/// Multiplier of the mixing step of the transparent sponge.
pub const MIX_MULT: u64 = 0x9E37_79B9_7F4A_7C15;

/// One absorption step: a linear mix reduced into the field.
pub open spec fn mix_step(state: u64, x: u64) -> u64 {
    ((state as int * MIX_MULT as int + x as int + 1) % (FIELD_ORDER as int)) as u64
}

/// The state after absorbing all of `s`, element by element, from an empty
/// state.
pub open spec fn absorb(s: Seq<u64>) -> u64
    decreases s.len(),
{
    if s.len() == 0 {
        0u64
    } else {
        mix_step(absorb(s.drop_last()), s.last())
    }
}

/// The transparent sponge: absorb the whole input, then squeeze four
/// elements.
pub open spec fn trace_sponge(input: Seq<u64>) -> Seq<u64> {
    seq![
        mix_step(absorb(input), 1),
        mix_step(absorb(input), 2),
        mix_step(absorb(input), 3),
        mix_step(absorb(input), 4),
    ]
}

fn mix_step_exec(state: u64, x: u64) -> (r: u64)
    ensures
        r == mix_step(state, x),
        r < FIELD_ORDER,
{
    proof {
        assert(state as int * MIX_MULT as int <= u64::MAX as int * u64::MAX as int)
            by (nonlinear_arith)
            requires
                state as int <= u64::MAX as int,
                MIX_MULT as int <= u64::MAX as int,
        ;
    }
    let t: u128 = (state as u128) * (MIX_MULT as u128) + (x as u128) + 1;
    (t % (FIELD_ORDER as u128)) as u64
}

/// Absorbs `input` and squeezes four elements; computes [`trace_sponge`].
fn sponge_exec(input: &Vec<u64>) -> (r: Digest)
    ensures
        r@ == trace_sponge(input@),
{
    let mut state: u64 = 0;
    let mut i: usize = 0;
    while i < input.len()
        invariant
            i <= input@.len(),
            state == absorb(input@.take(i as int)),
        decreases input@.len() - i,
    {
        state = mix_step_exec(state, input[i]);
        i = i + 1;
        proof {
            assert(input@.take(i as int).drop_last() =~= input@.take(i as int - 1));
        }
    }
    proof {
        assert(input@.take(input@.len() as int) =~= input@);
    }
    Digest::new(
        mix_step_exec(state, 1),
        mix_step_exec(state, 2),
        mix_step_exec(state, 3),
        mix_step_exec(state, 4),
    )
}

/// Four wires carrying one digest.
#[derive(Clone, Copy, Debug, PartialEq, Eq, Structural)]
pub struct TraceHashTarget {
    pub t0: usize,
    pub t1: usize,
    pub t2: usize,
    pub t3: usize,
}

/// The in-circuit image of a proof: its public-input wires and one slot
/// standing for the proof object itself.
#[derive(Clone, Debug)]
pub struct TraceProofTarget {
    pub pis: Vec<usize>,
    pub proof_slot: usize,
}

/// The in-circuit image of verifier data: the wires of its circuit digest.
#[derive(Clone, Copy, Debug)]
pub struct TraceVerifierTarget {
    pub digest: TraceHashTarget,
}

/// A hash-gadget record: the output wires must hold the hash-or-noop of the
/// input wires' values.
#[derive(Clone, Debug)]
pub struct HashGadget {
    pub inputs: Vec<usize>,
    pub output: TraceHashTarget,
}

/// A recursive-verification record: the proof assigned to `proof_slot` must
/// be valid and carry the digest held by the wires of `verifier_digest`.
#[derive(Clone, Copy, Debug)]
pub struct ProofGadget {
    pub proof_slot: usize,
    pub verifier_digest: TraceHashTarget,
}

/// A circuit under construction: the operation transcript (whose hash will
/// be the circuit digest), the allocated wires, and every recorded
/// constraint.
pub struct TraceBuilder {
    transcript: Vec<u64>,
    next_target: usize,
    public_inputs: Vec<usize>,
    constants: Vec<(usize, u64)>,
    connects: Vec<(usize, usize)>,
    hash_gadgets: Vec<HashGadget>,
    proof_gadgets: Vec<ProofGadget>,
}

impl TraceBuilder {
    fn fresh_target(&mut self) -> (t: usize)
        ensures
            final(self).public_inputs == old(self).public_inputs,
    {
        let t = self.next_target;
        self.next_target = if t == usize::MAX {
            t
        } else {
            t + 1
        };
        t
    }

    fn fresh_hash_target(&mut self) -> (r: TraceHashTarget)
        ensures
            final(self).public_inputs == old(self).public_inputs,
    {
        let t0 = self.fresh_target();
        let t1 = self.fresh_target();
        let t2 = self.fresh_target();
        let t3 = self.fresh_target();
        TraceHashTarget { t0, t1, t2, t3 }
    }

    fn note(&mut self, op: u64)
        ensures
            final(self).public_inputs == old(self).public_inputs,
    {
        self.transcript.push(op);
    }
}

/// A compiled circuit: the digest of its transcript, the number of public
/// inputs of proofs it describes, and its constraints.
pub struct TraceCircuitData {
    digest: Digest,
    num_pis: usize,
    public_inputs: Vec<usize>,
    constants: Vec<(usize, u64)>,
    connects: Vec<(usize, usize)>,
    hash_gadgets: Vec<HashGadget>,
    proof_gadgets: Vec<ProofGadget>,
}

impl TraceCircuitData {
    /// A constraint-free circuit description with the given digest, whose
    /// proofs carry `num_pis` public inputs.  This is the shape of the
    /// opaque user circuits the tree accepts leaves from.
    pub fn new(digest: Digest, num_pis: usize) -> (r: Self)
        ensures
            <TraceBackend as Backend>::digest_of(r) == digest@,
    {
        TraceCircuitData {
            digest,
            num_pis,
            public_inputs: Vec::new(),
            constants: Vec::new(),
            connects: Vec::new(),
            hash_gadgets: Vec::new(),
            proof_gadgets: Vec::new(),
        }
    }
}

/// A proof in the clear: its public inputs, the digest of the circuit it
/// was proved against, and whether it is valid.
pub struct TraceProof {
    public_inputs: Vec<u64>,
    digest: Digest,
    valid: bool,
}

impl TraceProof {
    #[verifier::type_invariant]
    spec fn inv(self) -> bool {
        all_canonical(self.public_inputs@)
    }

    /// A proof object with the given public inputs, claiming the circuit
    /// identified by `digest`; `valid` says whether verification accepts
    /// it.  Tests use this to stand in for opaque user proofs.
    pub fn new(public_inputs: Vec<u64>, digest: Digest, valid: bool) -> (r: Self)
        requires
            all_canonical(public_inputs@),
        ensures
            <TraceBackend as Backend>::public_inputs_of(r) == public_inputs@,
    {
        TraceProof { public_inputs, digest, valid }
    }
}

/// A partial assignment: wire values, and proofs assigned to proof slots.
pub struct TraceWitness {
    wires: Vec<(usize, u64)>,
    proofs: Vec<(usize, bool, Digest)>,
}

/// The value directly assigned to `wire` by witness `w` or the constants of
/// `cd`, if any.
fn lookup(cd: &TraceCircuitData, w: &TraceWitness, wire: usize) -> (r: Option<u64>) {
    let mut i: usize = 0;
    while i < w.wires.len()
        invariant
            i <= w.wires@.len(),
        decreases w.wires@.len() - i,
    {
        if w.wires[i].0 == wire {
            return Some(w.wires[i].1);
        }
        i = i + 1;
    }
    let mut k: usize = 0;
    while k < cd.constants.len()
        invariant
            k <= cd.constants@.len(),
        decreases cd.constants@.len() - k,
    {
        if cd.constants[k].0 == wire {
            return Some(cd.constants[k].1);
        }
        k = k + 1;
    }
    None
}

/// The value of `wire`: its direct assignment, or, as the backend's copy
/// constraints would propagate it, the direct assignment of a wire it is
/// connected to.
fn resolve(cd: &TraceCircuitData, w: &TraceWitness, wire: usize) -> (r: Option<u64>) {
    match lookup(cd, w, wire) {
        Some(v) => {
            return Some(v);
        },
        None => {},
    }
    let mut i: usize = 0;
    while i < cd.connects.len()
        invariant
            i <= cd.connects@.len(),
        decreases cd.connects@.len() - i,
    {
        let (a, b) = cd.connects[i];
        if a == wire {
            match lookup(cd, w, b) {
                Some(v) => {
                    return Some(v);
                },
                None => {},
            }
        }
        if b == wire {
            match lookup(cd, w, a) {
                Some(v) => {
                    return Some(v);
                },
                None => {},
            }
        }
        i = i + 1;
    }
    None
}

/// The values of the four wires of `h`, if all are set.
fn resolve_hash(cd: &TraceCircuitData, w: &TraceWitness, h: &TraceHashTarget) -> (r: Option<
    Vec<u64>,
>)
    ensures
        r matches Some(v) ==> v@.len() == 4,
{
    let v0 = resolve(cd, w, h.t0);
    let v1 = resolve(cd, w, h.t1);
    let v2 = resolve(cd, w, h.t2);
    let v3 = resolve(cd, w, h.t3);
    match (v0, v1, v2, v3) {
        (Some(a), Some(b), Some(c), Some(d)) => {
            let mut v: Vec<u64> = Vec::new();
            v.push(a);
            v.push(b);
            v.push(c);
            v.push(d);
            Some(v)
        },
        _ => None,
    }
}

/// Whether every recorded wire connection holds: two connected wires that
/// are both set must hold equal values.
fn connects_hold(cd: &TraceCircuitData, w: &TraceWitness) -> bool {
    let mut i: usize = 0;
    while i < cd.connects.len()
        invariant
            i <= cd.connects@.len(),
        decreases cd.connects@.len() - i,
    {
        let (a, b) = cd.connects[i];
        let va = resolve(cd, w, a);
        let vb = resolve(cd, w, b);
        match (va, vb) {
            (Some(x), Some(y)) => {
                if x != y {
                    return false;
                }
            },
            (None, _) => {
                return false;
            },
            (_, None) => {
                return false;
            },
        }
        i = i + 1;
    }
    true
}

/// Whether every recorded hash gadget holds: the output wires carry the
/// hash-or-noop of the input wires' values.
fn hash_gadgets_hold(cd: &TraceCircuitData, w: &TraceWitness) -> bool {
    let mut i: usize = 0;
    while i < cd.hash_gadgets.len()
        invariant
            i <= cd.hash_gadgets@.len(),
        decreases cd.hash_gadgets@.len() - i,
    {
        let gadget = &cd.hash_gadgets[i];
        let mut ins: Vec<u64> = Vec::new();
        let mut j: usize = 0;
        let mut all_set = true;
        while j < gadget.inputs.len()
            invariant
                j <= gadget.inputs@.len(),
                all_canonical(ins@),
            decreases gadget.inputs@.len() - j,
        {
            match resolve(cd, w, gadget.inputs[j]) {
                Some(v) => {
                    if v < FIELD_ORDER {
                        ins.push(v);
                    } else {
                        all_set = false;
                    }
                },
                None => {
                    all_set = false;
                },
            }
            j = j + 1;
        }
        if !all_set {
            return false;
        }
        let expected = hash_or_noop_exec(&ins);
        match resolve_hash(cd, w, &gadget.output) {
            Some(actual) => {
                let ev = expected.to_vec();
                if !(actual[0] == ev[0] && actual[1] == ev[1] && actual[2] == ev[2] && actual[3]
                    == ev[3]) {
                    return false;
                }
            },
            None => {
                return false;
            },
        }
        i = i + 1;
    }
    true
}

/// Whether every recorded recursive-verification gadget holds: the proof
/// assigned to the slot is valid and carries the digest that the verifier
/// wires hold.
fn proof_gadgets_hold(cd: &TraceCircuitData, w: &TraceWitness) -> bool {
    let mut i: usize = 0;
    while i < cd.proof_gadgets.len()
        invariant
            i <= cd.proof_gadgets@.len(),
        decreases cd.proof_gadgets@.len() - i,
    {
        let gadget = cd.proof_gadgets[i];
        let mut found = false;
        let mut j: usize = 0;
        while j < w.proofs.len()
            invariant
                j <= w.proofs@.len(),
            decreases w.proofs@.len() - j,
        {
            let (slot, valid, digest) = w.proofs[j];
            if slot == gadget.proof_slot {
                if !valid {
                    return false;
                }
                match resolve_hash(cd, w, &gadget.verifier_digest) {
                    Some(vd) => {
                        let dv = digest.to_vec();
                        if !(vd[0] == dv[0] && vd[1] == dv[1] && vd[2] == dv[2] && vd[3] == dv[3]) {
                            return false;
                        }
                    },
                    None => {
                        return false;
                    },
                }
                found = true;
            }
            j = j + 1;
        }
        if !found {
            return false;
        }
        i = i + 1;
    }
    true
}

/// The hash-or-noop of `input`: zero-padding for at most four elements, the
/// transparent sponge otherwise.
fn hash_or_noop_exec(input: &Vec<u64>) -> (r: Digest)
    requires
        all_canonical(input@),
    ensures
        input@.len() <= 4 ==> r@ == pad4(input@),
        input@.len() > 4 ==> r@ == trace_sponge(input@),
{
    if input.len() <= 4 {
        let e0 = if input.len() > 0 {
            input[0]
        } else {
            0
        };
        let e1 = if input.len() > 1 {
            input[1]
        } else {
            0
        };
        let e2 = if input.len() > 2 {
            input[2]
        } else {
            0
        };
        let e3 = if input.len() > 3 {
            input[3]
        } else {
            0
        };
        let r = Digest::new(e0, e1, e2, e3);
        proof {
            assert(r@ =~= pad4(input@));
        }
        r
    } else {
        sponge_exec(input)
    }
}

/// The transparent backend.
pub struct TraceBackend {}

impl Backend for TraceBackend {
    type Builder = TraceBuilder;

    type Target = usize;

    type HashTarget = TraceHashTarget;

    type BoolTarget = usize;

    type ProofTarget = TraceProofTarget;

    type VerifierTarget = TraceVerifierTarget;

    type Witness = TraceWitness;

    type CircuitData = TraceCircuitData;

    type Proof = TraceProof;

    open spec fn sponge(input: Seq<u64>) -> Seq<u64> {
        trace_sponge(input)
    }

    closed spec fn digest_of(cd: TraceCircuitData) -> Seq<u64> {
        cd.digest@
    }

    closed spec fn public_inputs_of(p: TraceProof) -> Seq<u64> {
        p.public_inputs@
    }

    closed spec fn verify_ok(cd: TraceCircuitData, p: TraceProof) -> bool {
        p.valid && p.digest == cd.digest
    }

    closed spec fn hash_wires(h: TraceHashTarget) -> Seq<usize> {
        seq![h.t0, h.t1, h.t2, h.t3]
    }

    closed spec fn registered_pis(builder: TraceBuilder) -> Seq<usize> {
        builder.public_inputs@
    }

    closed spec fn build_digest(builder: TraceBuilder) -> Seq<u64> {
        trace_sponge(builder.transcript@)
    }

    fn hash_or_noop(input: &Vec<u64>) -> (r: Digest) {
        hash_or_noop_exec(input)
    }

    fn circuit_digest(cd: &TraceCircuitData) -> (r: Digest) {
        cd.digest
    }

    fn proof_public_inputs(p: &TraceProof) -> (r: Vec<u64>) {
        proof {
            use_type_invariant(p);
        }
        let mut v: Vec<u64> = Vec::new();
        let mut i: usize = 0;
        while i < p.public_inputs.len()
            invariant
                i <= p.public_inputs@.len(),
                v@ == p.public_inputs@.take(i as int),
            decreases p.public_inputs@.len() - i,
        {
            v.push(p.public_inputs[i]);
            proof {
                assert(v@ =~= p.public_inputs@.take(i as int + 1));
            }
            i = i + 1;
        }
        proof {
            assert(p.public_inputs@.take(p.public_inputs@.len() as int) =~= p.public_inputs@);
            use_type_invariant(p);
        }
        v
    }

    fn new_builder() -> TraceBuilder {
        TraceBuilder {
            transcript: Vec::new(),
            next_target: 0,
            public_inputs: Vec::new(),
            constants: Vec::new(),
            connects: Vec::new(),
            hash_gadgets: Vec::new(),
            proof_gadgets: Vec::new(),
        }
    }

    fn add_virtual_target(builder: &mut TraceBuilder) -> usize {
        builder.note(1);
        builder.fresh_target()
    }

    fn add_virtual_hash(builder: &mut TraceBuilder) -> TraceHashTarget {
        builder.note(2);
        builder.fresh_hash_target()
    }

    fn register_public_input_hash(builder: &mut TraceBuilder, h: &TraceHashTarget) {
        builder.note(3);
        builder.public_inputs.push(h.t0);
        builder.public_inputs.push(h.t1);
        builder.public_inputs.push(h.t2);
        builder.public_inputs.push(h.t3);
        proof {
            assert(builder.public_inputs@ =~= old(builder).public_inputs@ + seq![
                h.t0,
                h.t1,
                h.t2,
                h.t3,
            ]);
        }
    }

    fn hash_target_elements(h: &TraceHashTarget) -> (r: Vec<usize>) {
        let mut v: Vec<usize> = Vec::new();
        v.push(h.t0);
        v.push(h.t1);
        v.push(h.t2);
        v.push(h.t3);
        proof {
            assert(v@ =~= seq![h.t0, h.t1, h.t2, h.t3]);
        }
        v
    }

    fn hash_or_noop_gadget(builder: &mut TraceBuilder, inputs: &Vec<usize>) -> TraceHashTarget {
        builder.note(4);
        builder.note(inputs.len() as u64);
        let output = builder.fresh_hash_target();
        let gadget = HashGadget { inputs: inputs.clone(), output };
        builder.hash_gadgets.push(gadget);
        output
    }

    fn connect_hashes(builder: &mut TraceBuilder, x: &TraceHashTarget, y: &TraceHashTarget) {
        builder.note(5);
        builder.connects.push((x.t0, y.t0));
        builder.connects.push((x.t1, y.t1));
        builder.connects.push((x.t2, y.t2));
        builder.connects.push((x.t3, y.t3));
    }

    fn connect(builder: &mut TraceBuilder, x: &usize, y: &usize) {
        builder.note(6);
        builder.connects.push((*x, *y));
    }

    fn bool_true_target(builder: &mut TraceBuilder) -> usize {
        builder.note(7);
        let t = builder.fresh_target();
        builder.constants.push((t, 1));
        t
    }

    fn bool_false_target(builder: &mut TraceBuilder) -> usize {
        builder.note(8);
        let t = builder.fresh_target();
        builder.constants.push((t, 0));
        t
    }

    fn bool_target(b: &usize) -> usize {
        *b
    }

    fn add_virtual_proof_with_pis(
        builder: &mut TraceBuilder,
        cd: &TraceCircuitData,
    ) -> TraceProofTarget {
        builder.note(9);
        builder.note(cd.num_pis as u64);
        let ghost pis_before = builder.public_inputs;
        let mut pis: Vec<usize> = Vec::new();
        let mut i: usize = 0;
        while i < cd.num_pis
            invariant
                i <= cd.num_pis,
                builder.public_inputs == pis_before,
            decreases cd.num_pis - i,
        {
            let t = builder.fresh_target();
            pis.push(t);
            i = i + 1;
        }
        let proof_slot = builder.fresh_target();
        TraceProofTarget { pis, proof_slot }
    }

    fn add_virtual_verifier_data(
        builder: &mut TraceBuilder,
        cd: &TraceCircuitData,
    ) -> TraceVerifierTarget {
        builder.note(10);
        let digest = builder.fresh_hash_target();
        TraceVerifierTarget { digest }
    }

    fn verifier_digest_target(vt: &TraceVerifierTarget) -> TraceHashTarget {
        vt.digest
    }

    fn verify_proof_gadget(
        builder: &mut TraceBuilder,
        proof_target: &TraceProofTarget,
        verifier_target: &TraceVerifierTarget,
        cd: &TraceCircuitData,
    ) {
        builder.note(11);
        let gadget = ProofGadget {
            proof_slot: proof_target.proof_slot,
            verifier_digest: verifier_target.digest,
        };
        builder.proof_gadgets.push(gadget);
    }

    fn pi_targets(proof_target: &TraceProofTarget) -> Vec<usize> {
        proof_target.pis.clone()
    }

    fn new_partial_witness() -> TraceWitness {
        TraceWitness { wires: Vec::new(), proofs: Vec::new() }
    }

    fn set_target_arr(
        witness: &mut TraceWitness,
        targets: &Vec<usize>,
        values: &Vec<u64>,
    ) -> Result<(), ZkError> {
        let mut i: usize = 0;
        while i < targets.len()
            invariant
                i <= targets@.len(),
                targets@.len() == values@.len(),
            decreases targets@.len() - i,
        {
            witness.wires.push((targets[i], values[i]));
            i = i + 1;
        }
        Ok(())
    }

    fn set_hash_target(
        witness: &mut TraceWitness,
        target: &TraceHashTarget,
        d: &Digest,
    ) -> Result<(), ZkError> {
        let v = d.to_vec();
        witness.wires.push((target.t0, v[0]));
        witness.wires.push((target.t1, v[1]));
        witness.wires.push((target.t2, v[2]));
        witness.wires.push((target.t3, v[3]));
        Ok(())
    }

    fn set_proof_with_pis_target(
        witness: &mut TraceWitness,
        target: &TraceProofTarget,
        proof: &TraceProof,
    ) -> Result<(), ZkError> {
        let n = if target.pis.len() < proof.public_inputs.len() {
            target.pis.len()
        } else {
            proof.public_inputs.len()
        };
        let mut i: usize = 0;
        while i < n
            invariant
                n <= target.pis@.len(),
                n <= proof.public_inputs@.len(),
                i <= n,
            decreases n - i,
        {
            witness.wires.push((target.pis[i], proof.public_inputs[i]));
            i = i + 1;
        }
        witness.proofs.push((target.proof_slot, proof.valid, proof.digest));
        Ok(())
    }

    fn set_verifier_data_target(
        witness: &mut TraceWitness,
        target: &TraceVerifierTarget,
        cd: &TraceCircuitData,
    ) -> Result<(), ZkError> {
        let v = cd.digest.to_vec();
        witness.wires.push((target.digest.t0, v[0]));
        witness.wires.push((target.digest.t1, v[1]));
        witness.wires.push((target.digest.t2, v[2]));
        witness.wires.push((target.digest.t3, v[3]));
        Ok(())
    }

    fn build(builder: TraceBuilder) -> TraceCircuitData {
        let digest = sponge_exec(&builder.transcript);
        let num_pis = builder.public_inputs.len();
        TraceCircuitData {
            digest,
            num_pis,
            public_inputs: builder.public_inputs,
            constants: builder.constants,
            connects: builder.connects,
            hash_gadgets: builder.hash_gadgets,
            proof_gadgets: builder.proof_gadgets,
        }
    }

    fn prove(cd: &TraceCircuitData, witness: TraceWitness) -> Result<TraceProof, ZkError> {
        if !connects_hold(cd, &witness) {
            return Err(ZkError::BackendError);
        }
        if !hash_gadgets_hold(cd, &witness) {
            return Err(ZkError::BackendError);
        }
        if !proof_gadgets_hold(cd, &witness) {
            return Err(ZkError::BackendError);
        }
        let mut public_inputs: Vec<u64> = Vec::new();
        let mut i: usize = 0;
        while i < cd.public_inputs.len()
            invariant
                i <= cd.public_inputs@.len(),
                all_canonical(public_inputs@),
            decreases cd.public_inputs@.len() - i,
        {
            match resolve(cd, &witness, cd.public_inputs[i]) {
                Some(v) => {
                    if v < FIELD_ORDER {
                        public_inputs.push(v);
                    } else {
                        return Err(ZkError::BackendError);
                    }
                },
                None => {
                    return Err(ZkError::BackendError);
                },
            }
            i = i + 1;
        }
        let digest = cd.digest;
        Ok(TraceProof { public_inputs, digest, valid: true })
    }

    fn verify(cd: &TraceCircuitData, proof: &TraceProof) -> Result<(), ZkError> {
        if !proof.valid {
            return Err(ZkError::BackendError);
        }
        if !(proof.digest == cd.digest) {
            return Err(ZkError::BackendError);
        }
        Ok(())
    }
}

} // verus!
