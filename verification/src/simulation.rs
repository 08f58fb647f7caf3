//! A simulation session: a compiled netlist, the two state buffers, and the
//! tick loop that owns them.

use crate::logic::{lemma_state_after, logic_step, unpowered, Csr, Gate};
use crate::netlist::{csr_of, first_dangling, refs_valid, Netlist, SimError};
use vstd::prelude::*;

verus! {

/// What a session is to its users: the graph, and the state that is read
/// back. The scratch buffer of the tick in progress is no part of it.
pub struct Session {
    pub netlist: Csr,
    pub current: Seq<bool>,
}

impl Session {
    /// The graph is well formed and the state has one entry per gate.
    pub open spec fn wf(self) -> bool {
        &&& self.netlist.wf()
        &&& self.current.len() == self.netlist.num_gates()
    }

    /// The session `ticks` ticks later.
    pub open spec fn after(self, ticks: nat) -> Session {
        Session { netlist: self.netlist, current: self.netlist.state_after(self.current, ticks) }
    }

    /// The session with the state of gate `g` set to `value`.
    pub open spec fn forced(self, g: int, value: bool) -> Session {
        Session { netlist: self.netlist, current: self.current.update(g, value) }
    }
}

/// The session that compiling `gates` gives: their graph, with no gate
/// powered.
pub open spec fn compiled(gates: Seq<Gate>) -> Session {
    Session { netlist: csr_of(gates), current: unpowered(gates.len()) }
}

/// A list of gates that was compiled and stepped by no tick at all reads
/// back one `false` for every gate.
pub proof fn lemma_fresh_session_reads_unpowered(gates: Seq<Gate>)
    ensures
        compiled(gates).after(0) == compiled(gates),
        compiled(gates).after(0).current.len() == gates.len(),
        forall|g: int| 0 <= g < gates.len() ==> !(#[trigger] compiled(gates).after(0).current[g]),
{
}

/// Stepping keeps a session well formed, and stepping by `first` ticks and
/// then by `second` is stepping by `first + second`.
pub proof fn lemma_steps_compose(session: Session, first: nat, second: nat)
    requires
        session.wf(),
    ensures
        session.after(first).wf(),
        session.after(first).after(second) == session.after(first + second),
{
    lemma_state_after(session.netlist, session.current, first, second);
}

/// Two sessions on the same graph in the same state are in the same state
/// after any number of ticks.
pub proof fn lemma_runs_agree(a: Session, b: Session, ticks: nat)
    requires
        a.netlist == b.netlist,
        a.current == b.current,
    ensures
        a.after(ticks) == b.after(ticks),
{
}

/// A simulation session. It owns both state buffers: a tick reads `current`
/// and fills the other buffer, and then the two change roles.
///
/// The fields are private, so every session comes from [`compile`] or
/// [`Simulation::new`] and satisfies [`Simulation::wf`] for as long as it
/// lives.
pub struct Simulation {
    netlist: Netlist,
    current: Vec<bool>,
    next: Vec<bool>,
}

impl View for Simulation {
    type V = Session;

    closed spec fn view(&self) -> Session {
        Session { netlist: self.netlist@, current: self.current@ }
    }
}

/// A buffer of the given length in which no gate is powered.
fn unpowered_buffer(num_gates: usize) -> (buffer: Vec<bool>)
    ensures
        buffer@ == unpowered(num_gates as nat),
{
    let mut buffer: Vec<bool> = Vec::new();
    let mut g: usize = 0;
    while g < num_gates
        invariant
            g <= num_gates,
            buffer@ == unpowered(g as nat),
        decreases num_gates - g,
    {
        buffer.push(false);
        assert(buffer@ =~= unpowered((g + 1) as nat));
        g = g + 1;
    }
    buffer
}

/// Compiles a list of gates into a session in which no gate is powered. It
/// fails on the first fan-in entry that names no gate, before any buffer is
/// made; the empty list gives a session without gates.
pub fn compile(gates: &Vec<Gate>) -> (session: Result<Simulation, SimError>)
    ensures
        session is Ok <==> refs_valid(gates@),
        session matches Ok(simulation) ==> simulation@ == compiled(gates@) && simulation.wf(),
        session matches Err(error) ==> error matches SimError::InvalidReference {
            gate,
            input,
            reference,
        } && first_dangling(gates@, gate as int, input as int) && reference
            == gates@[gate as int].fan_in@[input as int],
{
    match Netlist::compile(gates) {
        Ok(netlist) => Ok(Simulation::new(netlist)),
        Err(error) => Err(error),
    }
}

impl Simulation {
    /// Both buffers have one entry per gate of the netlist. The
    /// constructors establish this and every method keeps it.
    pub closed spec fn wf(&self) -> bool {
        &&& self.netlist@.wf()
        &&& self.current@.len() == self.netlist@.num_gates()
        &&& self.next@.len() == self.netlist@.num_gates()
    }

    /// A well-formed session has a well-formed view.
    pub proof fn lemma_wf_view(&self)
        requires
            self.wf(),
        ensures
            self@.wf(),
    {
    }

    /// A session on the given netlist in which no gate is powered.
    pub fn new(netlist: Netlist) -> (simulation: Simulation)
        ensures
            simulation@.netlist == netlist@,
            simulation@.current == unpowered(netlist@.num_gates()),
            simulation.wf(),
    {
        let num_gates: usize = netlist.num_gates();
        let current = unpowered_buffer(num_gates);
        let next = unpowered_buffer(num_gates);
        Simulation { netlist, current, next }
    }

    /// Advances the simulation by `ticks` ticks. Each tick evaluates every
    /// gate against the current state, and only when all are done do the two
    /// buffers change roles.
    pub fn step(&mut self, ticks: usize)
        requires
            old(self).wf(),
        ensures
            final(self).wf(),
            final(self)@ == old(self)@.after(ticks as nat),
    {
        let mut done: usize = 0;
        while done < ticks
            invariant
                done <= ticks,
                self.wf(),
                self@ == old(self)@.after(done as nat),
            decreases ticks - done,
        {
            logic_step(
                self.netlist.kinds(),
                self.netlist.connections(),
                self.netlist.offsets(),
                &self.current,
                &mut self.next,
            );
            std::mem::swap(&mut self.current, &mut self.next);
            done = done + 1;
        }
    }

    /// The state of every gate after the last completed tick, indexed as the
    /// list of gates was.
    pub fn current(&self) -> (state: &Vec<bool>)
        ensures
            state@ == self@.current,
    {
        &self.current
    }

    /// The netlist of this session.
    pub fn netlist(&self) -> (netlist: &Netlist)
        ensures
            netlist@ == self@.netlist,
    {
        &self.netlist
    }

    /// The number of gates.
    pub fn num_gates(&self) -> (n: usize)
        ensures
            n == self@.netlist.num_gates(),
    {
        self.netlist.num_gates()
    }

    /// Sets the current state of one gate from outside, as an input to the
    /// ticks that follow. A `gate_id` that names no gate changes nothing.
    pub fn force(&mut self, gate_id: usize, value: bool) -> (applied: bool)
        requires
            old(self).wf(),
        ensures
            final(self).wf(),
            applied == (gate_id < old(self)@.netlist.num_gates()),
            applied ==> final(self)@ == old(self)@.forced(gate_id as int, value),
            !applied ==> final(self)@ == old(self)@,
    {
        if gate_id < self.current.len() {
            self.current[gate_id] = value;
            true
        } else {
            false
        }
    }
}

} // verus!
