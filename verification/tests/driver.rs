use logic_sim::driver::{advance, Action, DriverState, Event, Slot};
use logic_sim::netlist::SimError;

#[test]
fn loading_arms_the_driver_on_the_first_buffer() {
    assert_eq!(
        advance(DriverState::Idle, Event::Loaded),
        (DriverState::Armed { active: Slot::A }, Action::Wait)
    );
    assert_eq!(DriverState::Idle.active(), None);
    assert_eq!(DriverState::Armed { active: Slot::A }.active(), Some(Slot::A));
}

#[test]
fn a_run_of_three_ticks_swaps_three_times() {
    let (state, _) = advance(DriverState::Idle, Event::Loaded);
    let (state, action) = advance(state, Event::Run(3));
    assert_eq!(action, Action::Dispatch { read: Slot::A, write: Slot::B });
    assert_eq!(state, DriverState::InFlight { active: Slot::A, remaining: 3, stopping: false });
    let (state, action) = advance(state, Event::Completed);
    assert_eq!(action, Action::Dispatch { read: Slot::B, write: Slot::A });
    assert_eq!(state, DriverState::InFlight { active: Slot::B, remaining: 2, stopping: false });
    let (state, action) = advance(state, Event::Completed);
    assert_eq!(action, Action::Dispatch { read: Slot::A, write: Slot::B });
    let (state, action) = advance(state, Event::Completed);
    assert_eq!(action, Action::Finished { active: Slot::B });
    assert_eq!(state, DriverState::Armed { active: Slot::B });
    assert_eq!(state.active(), Some(Slot::B));
}

#[test]
fn a_run_of_no_ticks_is_over_at_once() {
    let armed = DriverState::Armed { active: Slot::B };
    assert_eq!(advance(armed, Event::Run(0)), (armed, Action::Finished { active: Slot::B }));
}

#[test]
fn a_fault_is_final() {
    let in_flight = DriverState::InFlight { active: Slot::A, remaining: 5, stopping: false };
    let (failed, action) = advance(in_flight, Event::Fault(SimError::DispatchFailure));
    assert_eq!(failed, DriverState::Failed { error: SimError::DispatchFailure });
    assert_eq!(action, Action::Abort(SimError::DispatchFailure));
    assert_eq!(failed.active(), None);
    for event in [
        Event::Loaded,
        Event::Run(1),
        Event::Completed,
        Event::Cancel,
        Event::Fault(SimError::AllocationFailure),
    ] {
        assert_eq!(advance(failed, event), (failed, Action::Abort(SimError::DispatchFailure)));
    }
}

#[test]
fn a_failed_load_ends_the_session() {
    assert_eq!(
        advance(DriverState::Idle, Event::Fault(SimError::AllocationFailure)),
        (
            DriverState::Failed { error: SimError::AllocationFailure },
            Action::Abort(SimError::AllocationFailure)
        )
    );
}

#[test]
fn cancel_takes_effect_when_the_tick_in_flight_is_done() {
    let (state, _) = advance(DriverState::Armed { active: Slot::A }, Event::Run(10));
    let (state, action) = advance(state, Event::Cancel);
    assert_eq!(action, Action::Wait);
    assert_eq!(state, DriverState::InFlight { active: Slot::A, remaining: 10, stopping: true });
    let (state, action) = advance(state, Event::Completed);
    assert_eq!(action, Action::Finished { active: Slot::B });
    assert_eq!(state, DriverState::Armed { active: Slot::B });
}

#[test]
fn events_out_of_place_change_nothing() {
    let armed = DriverState::Armed { active: Slot::A };
    assert_eq!(advance(armed, Event::Completed), (armed, Action::Wait));
    assert_eq!(advance(armed, Event::Cancel), (armed, Action::Wait));
    assert_eq!(advance(armed, Event::Loaded), (armed, Action::Wait));
    assert_eq!(advance(DriverState::Idle, Event::Run(3)), (DriverState::Idle, Action::Wait));
    assert_eq!(advance(DriverState::Idle, Event::Completed), (DriverState::Idle, Action::Wait));
    let in_flight = DriverState::InFlight { active: Slot::B, remaining: 2, stopping: false };
    assert_eq!(advance(in_flight, Event::Run(4)), (in_flight, Action::Wait));
    assert_eq!(advance(in_flight, Event::Loaded), (in_flight, Action::Wait));
}

#[test]
fn flipping_a_slot_gives_the_other_one() {
    assert_eq!(Slot::A.flipped(), Slot::B);
    assert_eq!(Slot::B.flipped(), Slot::A);
}
