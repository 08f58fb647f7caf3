//! The tick protocol for a substrate that evaluates outside this library,
//! such as an accelerator: the driver decides, the caller performs. The
//! caller hands each outcome in as an [`Event`] and receives the next
//! [`Action`]; the driver keeps track of which of the two state buffers is
//! current, of the ticks still to run, and of failure.

use crate::netlist::SimError;
use vstd::prelude::*;

verus! {

/// One of the two state buffers of a session.
#[derive(Debug, Clone, Copy, PartialEq, Eq, Structural)]
pub enum Slot {
    A,
    B,
}

impl Slot {
    /// The buffer that is not this one.
    pub open spec fn other(self) -> Slot {
        match self {
            Slot::A => Slot::B,
            Slot::B => Slot::A,
        }
    }

    /// The buffer that is not this one.
    pub fn flipped(self) -> (slot: Slot)
        ensures
            slot == self.other(),
    {
        match self {
            Slot::A => Slot::B,
            Slot::B => Slot::A,
        }
    }
}

/// Where a session stands.
#[derive(Debug, Clone, Copy, PartialEq, Eq, Structural)]
pub enum DriverState {
    /// No netlist is loaded.
    Idle,
    /// A netlist is loaded and no tick is in flight: `active` holds the
    /// state of the last completed tick and may be read back.
    Armed { active: Slot },
    /// A tick is in flight: its evaluations read `active` and write the
    /// other buffer. `remaining` counts the ticks still owed, the one in
    /// flight among them; with `stopping` set the run ends when the tick in
    /// flight is done.
    InFlight { active: Slot, remaining: usize, stopping: bool },
    /// The substrate failed. The session is over.
    Failed { error: SimError },
}

/// What the caller reports to the driver.
#[derive(Debug, Clone, Copy, PartialEq, Eq, Structural)]
pub enum Event {
    /// The netlist was compiled and both buffers were zeroed; buffer `A`
    /// holds the first state.
    Loaded,
    /// The given number of ticks is to be run.
    Run(usize),
    /// Every evaluation of the tick in flight has written its slot.
    Completed,
    /// The run is to stop.
    Cancel,
    /// The substrate failed with the given error.
    Fault(SimError),
}

/// What the driver asks of the caller.
#[derive(Debug, Clone, Copy, PartialEq, Eq, Structural)]
pub enum Action {
    /// Nothing is to be done before the next event.
    Wait,
    /// Evaluate every gate against buffer `read`, each writing its slot of
    /// buffer `write`, wait until all are done, and report `Completed`.
    Dispatch { read: Slot, write: Slot },
    /// The run is over; buffer `active` holds the state to read back.
    Finished { active: Slot },
    /// The session failed with the given error and is to be given up.
    Abort(SimError),
}

/// The state that follows `state` on `event`, and what is asked of the
/// caller then.
///
/// A failure is final. A tick is dispatched only from a tick boundary, and
/// the buffers change roles only when a tick in flight completes. A request
/// to stop is noted while a tick is in flight and takes effect once that tick
/// is done. An event that makes no sense in a state leaves it as it is.
pub open spec fn transition(state: DriverState, event: Event) -> (DriverState, Action) {
    match (state, event) {
        (DriverState::Failed { error }, _) => (state, Action::Abort(error)),
        (_, Event::Fault(error)) => (DriverState::Failed { error }, Action::Abort(error)),
        (DriverState::Idle, Event::Loaded) => (
            DriverState::Armed { active: Slot::A },
            Action::Wait,
        ),
        (DriverState::Armed { active }, Event::Run(ticks)) => if ticks == 0 {
            (state, Action::Finished { active })
        } else {
            (
                DriverState::InFlight { active, remaining: ticks, stopping: false },
                Action::Dispatch { read: active, write: active.other() },
            )
        },
        (DriverState::InFlight { active, remaining, stopping }, Event::Completed) => if stopping
            || remaining <= 1 {
            (
                DriverState::Armed { active: active.other() },
                Action::Finished { active: active.other() },
            )
        } else {
            (
                DriverState::InFlight {
                    active: active.other(),
                    remaining: (remaining - 1) as usize,
                    stopping: false,
                },
                Action::Dispatch { read: active.other(), write: active },
            )
        },
        (DriverState::InFlight { active, remaining, stopping }, Event::Cancel) => (
            DriverState::InFlight { active, remaining, stopping: true },
            Action::Wait,
        ),
        _ => (state, Action::Wait),
    }
}

/// Takes one event and gives the state that follows and the action to
/// perform.
pub fn advance(state: DriverState, event: Event) -> (next: (DriverState, Action))
    ensures
        next == transition(state, event),
{
    match state {
        DriverState::Failed { error } => (state, Action::Abort(error)),
        DriverState::Idle => match event {
            Event::Fault(error) => (DriverState::Failed { error }, Action::Abort(error)),
            Event::Loaded => (DriverState::Armed { active: Slot::A }, Action::Wait),
            _ => (state, Action::Wait),
        },
        DriverState::Armed { active } => match event {
            Event::Fault(error) => (DriverState::Failed { error }, Action::Abort(error)),
            Event::Run(ticks) => {
                if ticks == 0 {
                    (state, Action::Finished { active })
                } else {
                    (
                        DriverState::InFlight { active, remaining: ticks, stopping: false },
                        Action::Dispatch { read: active, write: active.flipped() },
                    )
                }
            },
            _ => (state, Action::Wait),
        },
        DriverState::InFlight { active, remaining, stopping } => match event {
            Event::Fault(error) => (DriverState::Failed { error }, Action::Abort(error)),
            Event::Completed => {
                let now = active.flipped();
                if stopping || remaining <= 1 {
                    (DriverState::Armed { active: now }, Action::Finished { active: now })
                } else {
                    (
                        DriverState::InFlight {
                            active: now,
                            remaining: remaining - 1,
                            stopping: false,
                        },
                        Action::Dispatch { read: now, write: active },
                    )
                }
            },
            Event::Cancel => (
                DriverState::InFlight { active, remaining, stopping: true },
                Action::Wait,
            ),
            _ => (state, Action::Wait),
        },
    }
}

impl DriverState {
    /// The buffer that holds the state of the last completed tick, where a
    /// netlist is loaded and the session has not failed.
    pub open spec fn active_slot(self) -> Option<Slot> {
        match self {
            DriverState::Armed { active } => Some(active),
            DriverState::InFlight { active, .. } => Some(active),
            _ => None,
        }
    }

    /// The buffer that holds the state of the last completed tick, where a
    /// netlist is loaded and the session has not failed.
    pub fn active(&self) -> (slot: Option<Slot>)
        ensures
            slot == self.active_slot(),
    {
        match self {
            DriverState::Armed { active } => Some(*active),
            DriverState::InFlight { active, .. } => Some(*active),
            _ => None,
        }
    }

    /// The state after `ticks` more ticks in flight have completed, one
    /// after another.
    pub open spec fn after_completed(self, ticks: nat) -> DriverState
        decreases ticks,
    {
        if ticks == 0 {
            self
        } else {
            transition(self.after_completed((ticks - 1) as nat), Event::Completed).0
        }
    }
}

/// A failure is final: whatever happens afterwards, the session stays
/// failed with the same error and the caller is told to give it up.
pub proof fn lemma_failure_is_final(error: SimError, event: Event)
    ensures
        transition(DriverState::Failed { error }, event) == (
            DriverState::Failed { error },
            Action::Abort(error),
        ),
{
}

/// A failure of the substrate ends the session in whatever state it occurs,
/// and the state it leaves names no buffer to read: no tick that was in
/// flight can be observed.
pub proof fn lemma_fault_aborts(state: DriverState, error: SimError)
    ensures
        transition(state, Event::Fault(error)).0 is Failed,
        transition(state, Event::Fault(error)).1 is Abort,
        transition(state, Event::Fault(error)).0.active_slot() is None,
{
}

/// Whenever a tick is dispatched, it reads the buffer that is current in the
/// state that follows and writes the other one, so no evaluation writes what
/// another reads.
pub proof fn lemma_dispatch_reads_current(state: DriverState, event: Event)
    ensures
        transition(state, event).1 matches Action::Dispatch { read, write } ==> {
            &&& transition(state, event).0 matches DriverState::InFlight { active, remaining, .. }
            &&& active == read
            &&& write == read.other()
            &&& write != read
            &&& remaining >= 1
        },
{
}

/// The current buffer changes only when a tick in flight completes, and it
/// then becomes the buffer that tick wrote. Every other event leaves it as
/// it is or ends the session.
pub proof fn lemma_roles_change_on_completion_only(state: DriverState, event: Event)
    requires
        state.active_slot() is Some,
    ensures
        state is InFlight && event is Completed ==> transition(state, event).0.active_slot()
            == Some(state.active_slot()->0.other()),
        !(state is InFlight && event is Completed) ==> transition(state, event).0.active_slot()
            == state.active_slot() || transition(state, event).0 is Failed,
{
}

/// A request to stop never discards the tick in flight: the driver goes on
/// waiting for it, and when it completes the run ends with that tick's state
/// as the current one.
pub proof fn lemma_cancel_waits_for_tick(active: Slot, remaining: usize, stopping: bool)
    ensures
        ({
            let in_flight = DriverState::InFlight { active, remaining, stopping };
            let noted = transition(in_flight, Event::Cancel);
            let done = transition(noted.0, Event::Completed);
            &&& noted.0 is InFlight
            &&& noted.1 is Wait
            &&& noted.0.active_slot() == Some(active)
            &&& done.0 == DriverState::Armed { active: active.other() }
            &&& done.1 == Action::Finished { active: active.other() }
        }),
{
}

/// A run of `ticks` ticks from a tick boundary is over after exactly that
/// many completions and not before, and the buffers have then changed roles
/// once per tick.
pub proof fn lemma_run_completes(active: Slot, ticks: usize, done: nat)
    requires
        1 <= done <= ticks,
    ensures
        ({
            let started = transition(DriverState::Armed { active }, Event::Run(ticks)).0;
            let reached = started.after_completed(done);
            let slot = if done % 2 == 0 {
                active
            } else {
                active.other()
            };
            if done < ticks {
                reached == DriverState::InFlight {
                    active: slot,
                    remaining: (ticks - done) as usize,
                    stopping: false,
                }
            } else {
                reached == DriverState::Armed { active: slot }
            }
        }),
    decreases done,
{
    let started = transition(DriverState::Armed { active }, Event::Run(ticks)).0;
    if done > 1 {
        lemma_run_completes(active, ticks, (done - 1) as nat);
    } else {
        assert(started.after_completed(0) == started);
    }
}

} // verus!
