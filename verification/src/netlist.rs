//! The netlist compiler: one linear pass that turns an ordered list of gates
//! into the compressed-sparse-row graph the evaluation kernel reads.

use crate::logic::{Csr, Gate};
use crate::parts::GateType;
use vstd::prelude::*;

verus! {

/// What can go wrong in a simulation session.
#[derive(Debug, Clone, Copy, PartialEq, Eq, Structural)]
pub enum SimError {
    /// Entry `input` of the fan-in of gate `gate` is `reference`, which is
    /// the position of no gate.
    InvalidReference { gate: usize, input: usize, reference: u32 },
    /// The execution substrate could not provide the buffers of a session.
    AllocationFailure,
    /// The execution substrate failed to run or to complete a tick.
    DispatchFailure,
}

/// The fan-in lists of the gates, one after another.
pub open spec fn flat_fan_in(gates: Seq<Gate>) -> Seq<u32>
    decreases gates.len(),
{
    if gates.len() == 0 {
        Seq::empty()
    } else {
        flat_fan_in(gates.drop_last()) + gates.last().fan_in@
    }
}

/// The graph of a list of gates: the kinds in order, the fan-in lists one
/// after another, and before each gate the number of connections that
/// precede its own.
pub open spec fn csr_of(gates: Seq<Gate>) -> Csr {
    Csr {
        kinds: Seq::new(gates.len(), |g: int| gates[g].kind),
        connections: flat_fan_in(gates),
        offsets: Seq::new(
            gates.len() + 1,
            |g: int| flat_fan_in(gates.take(g)).len() as usize,
        ),
    }
}

/// Entry `k` of the fan-in of gate `g` names no gate of the list.
pub open spec fn dangling(gates: Seq<Gate>, g: int, k: int) -> bool {
    &&& 0 <= g < gates.len()
    &&& 0 <= k < gates[g].fan_in@.len()
    &&& gates[g].fan_in@[k] >= gates.len()
}

/// Every fan-in entry of every gate names a gate of the list.
pub open spec fn refs_valid(gates: Seq<Gate>) -> bool {
    forall|g: int, k: int| !dangling(gates, g, k)
}

/// Entry `k` of gate `g` is the first that names no gate: no earlier gate has
/// such an entry, and gate `g` has none before `k`.
pub open spec fn first_dangling(gates: Seq<Gate>, g: int, k: int) -> bool {
    &&& dangling(gates, g, k)
    &&& forall|g2: int, k2: int| #[trigger]
        dangling(gates, g2, k2) ==> g < g2 || (g == g2 && k <= k2)
}

/// The flattening of a longer prefix starts with the flattening of a
/// shorter one, and one more gate appends that gate's fan-in.
pub proof fn lemma_flat_fan_in_prefix(gates: Seq<Gate>, i: int, j: int)
    requires
        0 <= i <= j <= gates.len(),
    ensures
        flat_fan_in(gates.take(i)).len() <= flat_fan_in(gates.take(j)).len(),
        flat_fan_in(gates.take(i)) == flat_fan_in(gates.take(j)).take(
            flat_fan_in(gates.take(i)).len() as int,
        ),
        i < gates.len() ==> flat_fan_in(gates.take(i + 1)) == flat_fan_in(gates.take(i))
            + gates[i].fan_in@,
        flat_fan_in(gates.take(gates.len() as int)) == flat_fan_in(gates),
    decreases j - i,
{
    assert(gates.take(gates.len() as int) =~= gates);
    if i < gates.len() {
        assert(gates.take(i + 1).drop_last() =~= gates.take(i));
    }
    if i < j {
        lemma_flat_fan_in_prefix(gates, i, j - 1);
        assert(gates.take(j).drop_last() =~= gates.take(j - 1));
        let shorter = flat_fan_in(gates.take(i));
        let middle = flat_fan_in(gates.take(j - 1));
        let longer = flat_fan_in(gates.take(j));
        assert(longer == middle + gates[j - 1].fan_in@);
        assert(shorter =~= longer.take(shorter.len() as int));
    } else {
        let same = flat_fan_in(gates.take(i));
        assert(same =~= same.take(same.len() as int));
    }
}

/// Every connection of the flattened list is an entry of some gate's
/// fan-in.
proof fn lemma_flat_fan_in_entry(gates: Seq<Gate>, c: int) -> (at: (int, int))
    requires
        0 <= c < flat_fan_in(gates).len(),
    ensures
        0 <= at.0 < gates.len(),
        0 <= at.1 < gates[at.0].fan_in@.len(),
        flat_fan_in(gates)[c] == gates[at.0].fan_in@[at.1],
    decreases gates.len(),
{
    let before = flat_fan_in(gates.drop_last());
    if c < before.len() {
        let at = lemma_flat_fan_in_entry(gates.drop_last(), c);
        at
    } else {
        (gates.len() - 1, c - before.len())
    }
}

/// The graph of a list of gates whose references are valid is well formed,
/// and the slice it gives each gate is that gate's fan-in.
pub proof fn lemma_csr_of_gates(gates: Seq<Gate>)
    requires
        refs_valid(gates),
        flat_fan_in(gates).len() <= usize::MAX,
    ensures
        csr_of(gates).wf(),
        csr_of(gates).num_gates() == gates.len(),
        forall|g: int|
            0 <= g < gates.len() ==> #[trigger] csr_of(gates).fan_in(g) == gates[g].fan_in@,
        forall|g: int| 0 <= g < gates.len() ==> #[trigger] csr_of(gates).kinds[g] == gates[g].kind,
{
    let csr = csr_of(gates);
    let n = gates.len() as int;
    lemma_flat_fan_in_prefix(gates, 0, n);
    assert(gates.take(0) =~= Seq::<Gate>::empty());
    assert forall|i: int, j: int| 0 <= i <= j < csr.offsets.len() implies csr.offsets[i]
        <= csr.offsets[j] by {
        lemma_flat_fan_in_prefix(gates, i, j);
        lemma_flat_fan_in_prefix(gates, j, n);
    }
    assert forall|c: int| 0 <= c < csr.connections.len() implies (#[trigger] csr.connections[c])
        < csr.kinds.len() by {
        let at = lemma_flat_fan_in_entry(gates, c);
        assert(!dangling(gates, at.0, at.1));
    }
    assert forall|g: int| 0 <= g < gates.len() implies #[trigger] csr.fan_in(g)
        == gates[g].fan_in@ by {
        lemma_flat_fan_in_prefix(gates, g, g + 1);
        lemma_flat_fan_in_prefix(gates, g + 1, n);
        let upto = flat_fan_in(gates.take(g));
        let with = flat_fan_in(gates.take(g + 1));
        assert(with == upto + gates[g].fan_in@);
        assert(with == flat_fan_in(gates).take(with.len() as int));
        assert(csr.offsets[g] == upto.len());
        assert(csr.offsets[g + 1] == with.len());
        assert(csr.fan_in(g).len() == gates[g].fan_in@.len());
        assert forall|k: int| 0 <= k < gates[g].fan_in@.len() implies csr.fan_in(g)[k]
            == gates[g].fan_in@[k] by {
            assert(flat_fan_in(gates)[upto.len() + k] == with[upto.len() + k]);
        }
        assert(csr.fan_in(g) =~= gates[g].fan_in@);
    }
}

/// A compiled netlist. It is read-only once built.
pub struct Netlist {
    kinds: Vec<GateType>,
    connections: Vec<u32>,
    offsets: Vec<usize>,
}

impl View for Netlist {
    type V = Csr;

    closed spec fn view(&self) -> Csr {
        Csr { kinds: self.kinds@, connections: self.connections@, offsets: self.offsets@ }
    }
}

/// The first fan-in entry of gate `gate` that names no gate, if it has one.
fn find_dangling_input(gates: &Vec<Gate>, gate: usize) -> (found: Option<usize>)
    requires
        gate < gates@.len(),
    ensures
        found is None ==> forall|k: int| !dangling(gates@, gate as int, k),
        found matches Some(k) ==> dangling(gates@, gate as int, k as int) && forall|k2: int|
            0 <= k2 < k ==> !dangling(gates@, gate as int, k2),
{
    let fan_in = &gates[gate].fan_in;
    let mut k: usize = 0;
    while k < fan_in.len()
        invariant
            gate < gates@.len(),
            fan_in@ == gates@[gate as int].fan_in@,
            k <= fan_in@.len(),
            forall|k2: int| 0 <= k2 < k ==> !dangling(gates@, gate as int, k2),
        decreases fan_in@.len() - k,
    {
        if fan_in[k] as usize >= gates.len() {
            return Some(k);
        }
        k = k + 1;
    }
    None
}

/// The first fan-in entry of the list that names no gate, if there is one:
/// which gate holds it and its place in that gate's fan-in.
fn find_dangling(gates: &Vec<Gate>) -> (found: Option<(usize, usize)>)
    ensures
        found is None <==> refs_valid(gates@),
        found matches Some(at) ==> first_dangling(gates@, at.0 as int, at.1 as int),
{
    let mut g: usize = 0;
    while g < gates.len()
        invariant
            g <= gates@.len(),
            forall|g2: int, k2: int| 0 <= g2 < g ==> !dangling(gates@, g2, k2),
        decreases gates@.len() - g,
    {
        match find_dangling_input(gates, g) {
            Some(k) => {
                return Some((g, k));
            },
            None => {},
        }
        g = g + 1;
    }
    None
}

impl Netlist {
    /// What every netlist satisfies: its graph is well formed.
    #[verifier::type_invariant]
    pub open spec fn wf(&self) -> bool {
        self@.wf()
    }

    /// Compiles a list of gates. It fails on the first fan-in entry that
    /// names no gate, before anything is built, and otherwise yields the
    /// graph of the list; the empty list yields the empty graph.
    pub fn compile(gates: &Vec<Gate>) -> (compiled: Result<Netlist, SimError>)
        ensures
            compiled is Ok <==> refs_valid(gates@),
            compiled matches Ok(netlist) ==> netlist@ == csr_of(gates@) && netlist@.wf(),
            compiled matches Err(error) ==> error matches SimError::InvalidReference {
                gate,
                input,
                reference,
            } && first_dangling(gates@, gate as int, input as int) && reference
                == gates@[gate as int].fan_in@[input as int],
    {
        match find_dangling(gates) {
            Some((gate, input)) => {
                let reference: u32 = gates[gate].fan_in[input];
                return Err(SimError::InvalidReference { gate, input, reference });
            },
            None => {},
        }
        let mut kinds: Vec<GateType> = Vec::new();
        let mut connections: Vec<u32> = Vec::new();
        let mut offsets: Vec<usize> = Vec::new();
        offsets.push(0);
        assert(gates@.take(0) =~= Seq::<Gate>::empty());
        let mut g: usize = 0;
        while g < gates.len()
            invariant
                g <= gates@.len(),
                kinds@ == Seq::new(g as nat, |i: int| gates@[i].kind),
                connections@ == flat_fan_in(gates@.take(g as int)),
                offsets@ == Seq::new(
                    (g + 1) as nat,
                    |i: int| flat_fan_in(gates@.take(i)).len() as usize,
                ),
            decreases gates@.len() - g,
        {
            let gate = &gates[g];
            kinds.push(gate.kind);
            let mut k: usize = 0;
            while k < gate.fan_in.len()
                invariant
                    g < gates@.len(),
                    *gate == gates@[g as int],
                    k <= gate.fan_in@.len(),
                    connections@ == flat_fan_in(gates@.take(g as int)) + gate.fan_in@.take(
                        k as int,
                    ),
                decreases gate.fan_in@.len() - k,
            {
                connections.push(gate.fan_in[k]);
                assert(gate.fan_in@.take(k + 1) =~= gate.fan_in@.take(k as int).push(
                    gate.fan_in@[k as int],
                ));
                k = k + 1;
            }
            proof {
                assert(gate.fan_in@.take(k as int) =~= gate.fan_in@);
                lemma_flat_fan_in_prefix(gates@, g as int, g + 1);
            }
            offsets.push(connections.len());
            g = g + 1;
        }
        proof {
            lemma_flat_fan_in_prefix(gates@, 0, gates@.len() as int);
            vstd::std_specs::vec::axiom_spec_len(&connections);
            lemma_csr_of_gates(gates@);
        }
        Ok(Netlist { kinds, connections, offsets })
    }

    /// The number of gates.
    pub fn num_gates(&self) -> (n: usize)
        ensures
            n == self@.num_gates(),
            self@.wf(),
    {
        proof {
            use_type_invariant(self);
        }
        self.kinds.len()
    }

    /// The total number of fan-in entries.
    pub fn num_connections(&self) -> (n: usize)
        ensures
            n == self@.connections.len(),
            self@.wf(),
    {
        proof {
            use_type_invariant(self);
        }
        self.connections.len()
    }

    /// The kind of every gate, indexed by gate.
    pub fn kinds(&self) -> (kinds: &Vec<GateType>)
        ensures
            kinds@ == self@.kinds,
            self@.wf(),
    {
        proof {
            use_type_invariant(self);
        }
        &self.kinds
    }

    /// The fan-in entries of all gates, gate after gate.
    pub fn connections(&self) -> (connections: &Vec<u32>)
        ensures
            connections@ == self@.connections,
            self@.wf(),
    {
        proof {
            use_type_invariant(self);
        }
        &self.connections
    }

    /// Where each gate's fan-in starts in the connections, and after the last
    /// gate the number of connections.
    pub fn offsets(&self) -> (offsets: &Vec<usize>)
        ensures
            offsets@ == self@.offsets,
            self@.wf(),
    {
        proof {
            use_type_invariant(self);
        }
        &self.offsets
    }
}

} // verus!
