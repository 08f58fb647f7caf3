//! The evaluation model: what a gate computes from its inputs, how a list of
//! gates is laid out as a compressed-sparse-row graph, and what one tick does
//! to the state of every gate.

use crate::parts::GateType;
use vstd::prelude::*;

verus! {

/// One gate of a netlist. A gate is known by its position in the list; the
/// entries of `fan_in` are positions of the gates whose state it reads.
#[derive(Debug, Clone, PartialEq, Eq)]
pub struct Gate {
    pub kind: GateType,
    pub fan_in: Vec<u32>,
}

/// How many of the inputs are true.
pub open spec fn count_true(inputs: Seq<bool>) -> nat
    decreases inputs.len(),
{
    if inputs.len() == 0 {
        0
    } else {
        count_true(inputs.drop_last()) + if inputs.last() {
            1nat
        } else {
            0nat
        }
    }
}

/// Every input is true; holds of no inputs at all.
pub open spec fn all_true(inputs: Seq<bool>) -> bool {
    forall|i: int| 0 <= i < inputs.len() ==> inputs[i]
}

/// At least one input is true; fails of no inputs at all.
pub open spec fn any_true(inputs: Seq<bool>) -> bool {
    exists|i: int| 0 <= i < inputs.len() && inputs[i]
}

/// An odd number of inputs is true.
pub open spec fn odd_true(inputs: Seq<bool>) -> bool {
    count_true(inputs) % 2 == 1
}

/// The output of a gate of the given kind on the given inputs. The order of
/// the inputs does not matter to any kind.
pub open spec fn gate_output(kind: GateType, inputs: Seq<bool>) -> bool {
    match kind {
        GateType::And => all_true(inputs),
        GateType::Or => any_true(inputs),
        GateType::Xor => odd_true(inputs),
        GateType::Nand => !all_true(inputs),
        GateType::Nor => !any_true(inputs),
        GateType::Xnor => !odd_true(inputs),
    }
}

/// A netlist in compressed-sparse-row form: the fan-in of gate `g` is the
/// slice of `connections` from `offsets[g]` up to `offsets[g + 1]`.
pub struct Csr {
    pub kinds: Seq<GateType>,
    pub connections: Seq<u32>,
    pub offsets: Seq<usize>,
}

impl Csr {
    /// The number of gates.
    pub open spec fn num_gates(self) -> nat {
        self.kinds.len()
    }

    /// The offsets start at zero, never decrease and end at the number of
    /// connections, and every connection names a gate.
    pub open spec fn wf(self) -> bool {
        &&& self.offsets.len() == self.kinds.len() + 1
        &&& self.offsets[0] == 0
        &&& self.offsets[self.kinds.len() as int] == self.connections.len()
        &&& forall|i: int, j: int|
            0 <= i <= j < self.offsets.len() ==> self.offsets[i] <= self.offsets[j]
        &&& forall|c: int|
            0 <= c < self.connections.len() ==> (#[trigger] self.connections[c])
                < self.kinds.len()
    }

    /// The gates that gate `g` reads, in the order they were listed.
    pub open spec fn fan_in(self, g: int) -> Seq<u32> {
        self.connections.subrange(self.offsets[g] as int, self.offsets[g + 1] as int)
    }

    /// The values that gate `g` reads in the state `current`.
    pub open spec fn inputs(self, g: int, current: Seq<bool>) -> Seq<bool> {
        Seq::new(self.fan_in(g).len(), |k: int| current[self.fan_in(g)[k] as int])
    }

    /// What gate `g` puts out in the tick that starts from `current`.
    pub open spec fn output(self, g: int, current: Seq<bool>) -> bool {
        gate_output(self.kinds[g], self.inputs(g, current))
    }

    /// The state one tick after `current`: every gate is evaluated against
    /// `current` alone.
    pub open spec fn next_state(self, current: Seq<bool>) -> Seq<bool> {
        Seq::new(self.kinds.len(), |g: int| self.output(g, current))
    }

    /// The state `ticks` ticks after `start`.
    pub open spec fn state_after(self, start: Seq<bool>, ticks: nat) -> Seq<bool>
        decreases ticks,
    {
        if ticks == 0 {
            start
        } else {
            self.next_state(self.state_after(start, (ticks - 1) as nat))
        }
    }
}

/// The state in which no gate is powered.
pub open spec fn unpowered(num_gates: nat) -> Seq<bool> {
    Seq::new(num_gates, |g: int| false)
}

/// Adding one input adds it to the count.
proof fn lemma_count_true_push(inputs: Seq<bool>, value: bool)
    ensures
        count_true(inputs.push(value)) == count_true(inputs) + if value {
            1nat
        } else {
            0nat
        },
{
    assert(inputs.push(value).drop_last() =~= inputs);
}

/// The evaluation kernel: the output of gate `gate_id` in the tick that
/// starts from `current`. It reads `current` only, and only at that
/// gate's fan-in.
pub fn evaluate(
    gate_id: usize,
    kinds: &[GateType],
    connections: &[u32],
    offsets: &[usize],
    current: &[bool],
) -> (out: bool)
    requires
        (Csr { kinds: kinds@, connections: connections@, offsets: offsets@ }).wf(),
        gate_id < kinds@.len(),
        current@.len() == kinds@.len(),
    ensures
        out == (Csr { kinds: kinds@, connections: connections@, offsets: offsets@ }).output(
            gate_id as int,
            current@,
        ),
{
    let ghost csr = Csr { kinds: kinds@, connections: connections@, offsets: offsets@ };
    let ghost inputs = csr.inputs(gate_id as int, current@);
    let start: usize = offsets[gate_id];
    let end: usize = offsets[gate_id + 1];
    let mut all: bool = true;
    let mut any: bool = false;
    let mut odd: bool = false;
    let mut at: usize = start;
    assert(inputs.take(0) =~= Seq::<bool>::empty());
    while at < end
        invariant
            csr == (Csr { kinds: kinds@, connections: connections@, offsets: offsets@ }),
            csr.wf(),
            gate_id < kinds@.len(),
            current@.len() == kinds@.len(),
            inputs == csr.inputs(gate_id as int, current@),
            start == offsets@[gate_id as int],
            end == offsets@[gate_id + 1],
            start <= at <= end,
            end <= connections@.len(),
            all == all_true(inputs.take(at - start)),
            any == any_true(inputs.take(at - start)),
            odd == odd_true(inputs.take(at - start)),
        decreases end - at,
    {
        let source: u32 = connections[at];
        let value: bool = current[source as usize];
        proof {
            let seen = inputs.take(at - start);
            let grown = inputs.take(at - start + 1);
            assert(inputs[at - start] == value);
            assert(grown =~= seen.push(value));
            lemma_count_true_push(seen, value);
            if all_true(seen) && value {
                assert(all_true(grown));
            } else if !value {
                assert(!grown[at - start]);
            } else {
                let i = choose|i: int| 0 <= i < seen.len() && !seen[i];
                assert(!grown[i]);
            }
            if value {
                assert(grown[at - start]);
            } else if any_true(seen) {
                let i = choose|i: int| 0 <= i < seen.len() && seen[i];
                assert(grown[i]);
            } else {
                assert forall|i: int| 0 <= i < grown.len() implies !grown[i] by {
                    if i < seen.len() {
                        assert(grown[i] == seen[i]);
                    }
                }
            }
        }
        all = all && value;
        any = any || value;
        odd = odd != value;
        at = at + 1;
    }
    assert(inputs.take(end - start) =~= inputs);
    match kinds[gate_id] {
        GateType::And => all,
        GateType::Or => any,
        GateType::Xor => odd,
        GateType::Nand => !all,
        GateType::Nor => !any,
        GateType::Xnor => !odd,
    }
}

/// One tick: every gate is evaluated against `current`, and its output is
/// written to its own slot of `next`. Whatever `next` held before is gone;
/// `current` is only read.
pub fn logic_step(
    kinds: &[GateType],
    connections: &[u32],
    offsets: &[usize],
    current: &[bool],
    next: &mut Vec<bool>,
)
    requires
        (Csr { kinds: kinds@, connections: connections@, offsets: offsets@ }).wf(),
        current@.len() == kinds@.len(),
        old(next)@.len() == kinds@.len(),
    ensures
        final(next)@ == (Csr {
            kinds: kinds@,
            connections: connections@,
            offsets: offsets@,
        }).next_state(current@),
{
    let ghost csr = Csr { kinds: kinds@, connections: connections@, offsets: offsets@ };
    let num_gates: usize = kinds.len();
    let mut gate_id: usize = 0;
    while gate_id < num_gates
        invariant
            csr == (Csr { kinds: kinds@, connections: connections@, offsets: offsets@ }),
            csr.wf(),
            num_gates == kinds@.len(),
            current@.len() == num_gates,
            next@.len() == num_gates,
            gate_id <= num_gates,
            forall|g: int| 0 <= g < gate_id ==> next@[g] == csr.output(g, current@),
        decreases num_gates - gate_id,
    {
        let out: bool = evaluate(gate_id, kinds, connections, offsets, current);
        next[gate_id] = out;
        gate_id = gate_id + 1;
    }
    assert(next@ =~= csr.next_state(current@));
}

/// The number of true inputs is the number of times `true` occurs among
/// them.
proof fn lemma_count_true_is_multiplicity(inputs: Seq<bool>)
    ensures
        count_true(inputs) == inputs.to_multiset().count(true),
    decreases inputs.len(),
{
    inputs.to_multiset_ensures();
    if inputs.len() > 0 {
        let before = inputs.drop_last();
        lemma_count_true_is_multiplicity(before);
        before.to_multiset_ensures();
        assert(before.push(inputs.last()) =~= inputs);
    } else {
        assert(inputs.to_multiset().len() == 0);
    }
}

/// The order of its inputs does not matter to a gate: two lists of inputs
/// that hold the same values equally often give the same output.
pub proof fn lemma_input_order_is_irrelevant(kind: GateType, a: Seq<bool>, b: Seq<bool>)
    requires
        a.to_multiset() == b.to_multiset(),
    ensures
        gate_output(kind, a) == gate_output(kind, b),
{
    lemma_count_true_is_multiplicity(a);
    lemma_count_true_is_multiplicity(b);
    a.to_multiset_ensures();
    b.to_multiset_ensures();
    assert(a.contains(true) <==> a.to_multiset().count(true) > 0);
    assert(b.contains(true) <==> b.to_multiset().count(true) > 0);
    assert(a.contains(false) <==> a.to_multiset().count(false) > 0);
    assert(b.contains(false) <==> b.to_multiset().count(false) > 0);
    assert(any_true(a) == a.contains(true)) by {
        if any_true(a) {
            let i = choose|i: int| 0 <= i < a.len() && a[i];
            assert(a[i] == true);
        }
    }
    assert(any_true(b) == b.contains(true)) by {
        if any_true(b) {
            let i = choose|i: int| 0 <= i < b.len() && b[i];
            assert(b[i] == true);
        }
    }
    assert(all_true(a) == !a.contains(false)) by {
        if !all_true(a) {
            let i = choose|i: int| 0 <= i < a.len() && !a[i];
            assert(a[i] == false);
        }
    }
    assert(all_true(b) == !b.contains(false)) by {
        if !all_true(b) {
            let i = choose|i: int| 0 <= i < b.len() && !b[i];
            assert(b[i] == false);
        }
    }
}

/// A gate without inputs: AND, NOR and XNOR are on, while NAND, OR and XOR
/// are off. In a graph this holds of every gate whose slice is empty,
/// whatever the state.
pub proof fn lemma_gate_without_inputs(kind: GateType, csr: Csr, g: int, current: Seq<bool>)
    ensures
        gate_output(kind, Seq::empty()) == (kind is And || kind is Nor || kind is Xnor),
        csr.fan_in(g).len() == 0 ==> csr.output(g, current) == (csr.kinds[g] is And
            || csr.kinds[g] is Nor || csr.kinds[g] is Xnor),
{
    if csr.fan_in(g).len() == 0 {
        assert(csr.inputs(g, current) =~= Seq::<bool>::empty());
    }
}

/// On every input a gate puts out the opposite of what a gate of the
/// negated kind puts out.
pub proof fn lemma_negated_kind(kind: GateType, inputs: Seq<bool>)
    ensures
        gate_output(kind, inputs) == !gate_output(kind.negation(), inputs),
{
}

/// In a graph, two gates of kinds that negate each other and with the same
/// fan-in put out opposite values in every state.
pub proof fn lemma_negated_gate(csr: Csr, a: int, b: int, current: Seq<bool>)
    requires
        csr.kinds[a] == csr.kinds[b].negation(),
        csr.fan_in(a) == csr.fan_in(b),
    ensures
        csr.output(a, current) == !csr.output(b, current),
{
    assert(csr.inputs(a, current) =~= csr.inputs(b, current));
    lemma_negated_kind(csr.kinds[b], csr.inputs(b, current));
}

/// A gate that several gates read shows the same value to all of them within
/// one tick: each reads its entry of the one frozen state.
pub proof fn lemma_fan_out_reads_agree(
    csr: Csr,
    current: Seq<bool>,
    a: int,
    i: int,
    b: int,
    j: int,
)
    requires
        0 <= i < csr.fan_in(a).len(),
        0 <= j < csr.fan_in(b).len(),
        csr.fan_in(a)[i] == csr.fan_in(b)[j],
    ensures
        csr.inputs(a, current)[i] == current[csr.fan_in(a)[i] as int],
        csr.inputs(a, current)[i] == csr.inputs(b, current)[j],
{
}

/// The scratch buffer after the gates named in `order` were evaluated against
/// `current` one after another, each writing its own slot.
pub open spec fn written_in_order(
    csr: Csr,
    current: Seq<bool>,
    scratch: Seq<bool>,
    order: Seq<int>,
) -> Seq<bool>
    decreases order.len(),
{
    if order.len() == 0 {
        scratch
    } else {
        written_in_order(csr, current, scratch, order.drop_last()).update(
            order.last(),
            csr.output(order.last(), current),
        )
    }
}

/// After the evaluations in `order`, a slot holds its gate's output if the
/// gate was evaluated, and what it held before if not.
proof fn lemma_written_slot(
    csr: Csr,
    current: Seq<bool>,
    scratch: Seq<bool>,
    order: Seq<int>,
    g: int,
)
    requires
        0 <= g < scratch.len(),
        forall|i: int| 0 <= i < order.len() ==> 0 <= #[trigger] order[i] < scratch.len(),
    ensures
        written_in_order(csr, current, scratch, order).len() == scratch.len(),
        written_in_order(csr, current, scratch, order)[g] == if order.contains(g) {
            csr.output(g, current)
        } else {
            scratch[g]
        },
    decreases order.len(),
{
    if order.len() > 0 {
        let before = order.drop_last();
        lemma_written_slot(csr, current, scratch, before, g);
        if order.last() != g && order.contains(g) {
            let i = choose|i: int| 0 <= i < order.len() && order[i] == g;
            assert(before[i] == g);
        }
        if before.contains(g) {
            let i = choose|i: int| 0 <= i < before.len() && before[i] == g;
            assert(order[i] == g);
        }
        if order.last() == g {
            assert(order[order.len() - 1] == g);
        }
    }
}

/// The outcome of a tick does not depend on the order in which the gates are
/// evaluated, nor on how often one is, nor on what the scratch buffer held:
/// once every gate has been evaluated against the same frozen state, the
/// buffer holds the next state.
pub proof fn lemma_evaluation_order_is_irrelevant(
    csr: Csr,
    current: Seq<bool>,
    scratch: Seq<bool>,
    order: Seq<int>,
)
    requires
        scratch.len() == csr.num_gates(),
        forall|i: int| 0 <= i < order.len() ==> 0 <= #[trigger] order[i] < csr.num_gates(),
        forall|g: int| 0 <= g < csr.num_gates() ==> order.contains(g),
    ensures
        written_in_order(csr, current, scratch, order) == csr.next_state(current),
{
    let written = written_in_order(csr, current, scratch, order);
    if csr.num_gates() == 0 {
        if order.len() > 0 {
            assert(0 <= order[0] < 0);
        }
    } else {
        lemma_written_slot(csr, current, scratch, order, 0);
    }
    assert forall|g: int| 0 <= g < csr.num_gates() implies written[g] == csr.next_state(
        current,
    )[g] by {
        lemma_written_slot(csr, current, scratch, order, g);
    }
    assert(written =~= csr.next_state(current));
}

/// Two runs of one tick on the same graph from the same state agree,
/// however each orders its evaluations and whatever its scratch buffer held.
pub proof fn lemma_independent_runs_agree(
    csr: Csr,
    current: Seq<bool>,
    scratch_a: Seq<bool>,
    order_a: Seq<int>,
    scratch_b: Seq<bool>,
    order_b: Seq<int>,
)
    requires
        scratch_a.len() == csr.num_gates(),
        scratch_b.len() == csr.num_gates(),
        forall|i: int| 0 <= i < order_a.len() ==> 0 <= #[trigger] order_a[i] < csr.num_gates(),
        forall|i: int| 0 <= i < order_b.len() ==> 0 <= #[trigger] order_b[i] < csr.num_gates(),
        forall|g: int| 0 <= g < csr.num_gates() ==> order_a.contains(g) && order_b.contains(g),
    ensures
        written_in_order(csr, current, scratch_a, order_a) == written_in_order(
            csr,
            current,
            scratch_b,
            order_b,
        ),
{
    lemma_evaluation_order_is_irrelevant(csr, current, scratch_a, order_a);
    lemma_evaluation_order_is_irrelevant(csr, current, scratch_b, order_b);
}

/// Ticks keep the number of entries of a state, and running `first` ticks
/// and then `second` more is running `first + second` ticks.
pub proof fn lemma_state_after(csr: Csr, start: Seq<bool>, first: nat, second: nat)
    requires
        start.len() == csr.num_gates(),
    ensures
        csr.state_after(start, first).len() == csr.num_gates(),
        csr.state_after(csr.state_after(start, first), second) == csr.state_after(
            start,
            first + second,
        ),
    decreases second,
{
    if first > 0 {
        assert(csr.state_after(start, first).len() == csr.num_gates());
    }
    if second > 0 {
        lemma_state_after(csr, start, first, (second - 1) as nat);
    }
}

/// A gate of an inverting kind whose only input is itself flips with every
/// tick: after `ticks` ticks it differs from its first value exactly when
/// `ticks` is odd.
pub proof fn lemma_self_inverter_oscillates(csr: Csr, g: int, start: Seq<bool>, ticks: nat)
    requires
        start.len() == csr.num_gates(),
        0 <= g < csr.num_gates(),
        csr.fan_in(g) == seq![g as u32],
        g <= u32::MAX,
        csr.kinds[g] is Nand || csr.kinds[g] is Nor || csr.kinds[g] is Xnor,
    ensures
        csr.state_after(start, ticks)[g] == (start[g] != (ticks % 2 == 1)),
    decreases ticks,
{
    if ticks > 0 {
        let before = csr.state_after(start, (ticks - 1) as nat);
        lemma_self_inverter_oscillates(csr, g, start, (ticks - 1) as nat);
        lemma_state_after(csr, start, (ticks - 1) as nat, 0);
        let inputs = csr.inputs(g, before);
        assert(inputs =~= seq![before[g]]);
        assert(inputs.drop_last() =~= Seq::<bool>::empty());
        assert(count_true(inputs.drop_last()) == 0);
        assert(count_true(inputs) == if before[g] {
            1nat
        } else {
            0nat
        });
        if before[g] {
            assert(inputs[0]);
        }
        assert(csr.output(g, before) == !before[g]);
    }
}

} // verus!
