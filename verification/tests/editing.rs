use logic_sim::clipboard::{pasted_selection, remap_connections, selected_connections};
use logic_sim::connections::Connection;
use logic_sim::interaction::{
    history_key, orient_wire, pointer_transition, wire_outcome, HistoryKey, Hit, PointerAction,
    PointerEvent, WireOutcome,
};
use logic_sim::parts::Port;
use logic_sim::state::{select, History, InteractionState, Selection};

fn out_port(part: u64) -> Port {
    Port { part, input: false, port_id: None }
}

fn in_port(part: u64) -> Port {
    Port { part, input: true, port_id: None }
}

fn wire(from: u64, to: u64) -> Connection {
    Connection { start: out_port(from), end: in_port(to), powered: false }
}

const NOTHING_HIT: Hit = Hit { port: None, connection: None, part: None };

#[test]
fn selecting_replaces_unless_shift_is_held() {
    let mut selection = vec![Selection::Part(1), Selection::Connection(0)];
    select(&mut selection, Selection::Part(2), true);
    assert_eq!(
        selection,
        vec![Selection::Part(1), Selection::Connection(0), Selection::Part(2)]
    );
    select(&mut selection, Selection::Connection(4), false);
    assert_eq!(selection, vec![Selection::Connection(4)]);
    select(&mut selection, Selection::Connection(4), true);
    assert_eq!(selection, vec![Selection::Connection(4), Selection::Connection(4)]);
}

#[test]
fn undo_and_redo_walk_the_history() {
    let mut history: History<&str> = History::new();
    assert_eq!(history.undo("a"), ("a", false));
    assert_eq!(history.redo("a"), ("a", false));

    history.push_undo("a");
    history.push_undo("b");
    assert_eq!(history.undo_stack, vec!["a", "b"]);

    assert_eq!(history.undo("c"), ("b", true));
    assert_eq!(history.undo_stack, vec!["a"]);
    assert_eq!(history.redo_stack, vec!["c"]);

    assert_eq!(history.undo("b"), ("a", true));
    assert_eq!(history.redo_stack, vec!["c", "b"]);
    assert_eq!(history.undo("a"), ("a", false));

    assert_eq!(history.redo("a"), ("b", true));
    assert_eq!(history.undo_stack, vec!["a"]);
    assert_eq!(history.redo("b"), ("c", true));
    assert_eq!(history.undo_stack, vec!["a", "b"]);
    assert!(history.redo_stack.is_empty());
}

#[test]
fn a_change_clears_what_could_be_redone() {
    let mut history: History<u32> = History::new();
    history.push_undo(1);
    assert_eq!(history.undo(2), (1, true));
    assert_eq!(history.redo_stack, vec![2]);
    history.push_undo(1);
    assert!(history.redo_stack.is_empty());
    assert_eq!(history.undo_stack, vec![1]);
}

#[test]
fn a_change_given_up_is_forgotten() {
    let mut history: History<u32> = History::new();
    assert!(!history.discard_undo());
    history.push_undo(7);
    history.push_undo(8);
    assert!(history.discard_undo());
    assert_eq!(history.undo_stack, vec![7]);
}

#[test]
fn a_press_on_a_port_begins_a_wire() {
    let hit = Hit { port: Some(out_port(3)), connection: Some(1), part: Some(3) };
    assert_eq!(
        pointer_transition(
            InteractionState::Idle,
            PointerEvent::PrimaryPressed { hit, tool_active: true }
        ),
        (InteractionState::Connecting, PointerAction::BeginWire(out_port(3)))
    );
}

#[test]
fn a_press_picks_a_wire_before_a_part_and_a_part_before_the_canvas() {
    let on_wire = Hit { port: None, connection: Some(2), part: Some(5) };
    assert_eq!(
        pointer_transition(
            InteractionState::Idle,
            PointerEvent::PrimaryPressed { hit: on_wire, tool_active: false }
        ),
        (InteractionState::Idle, PointerAction::SelectConnection(2))
    );
    let on_part = Hit { port: None, connection: None, part: Some(5) };
    assert_eq!(
        pointer_transition(
            InteractionState::Idle,
            PointerEvent::PrimaryPressed { hit: on_part, tool_active: true }
        ),
        (InteractionState::Dragging, PointerAction::BeginDrag(5))
    );
    assert_eq!(
        pointer_transition(
            InteractionState::Idle,
            PointerEvent::PrimaryPressed { hit: NOTHING_HIT, tool_active: false }
        ),
        (InteractionState::BoxSelecting, PointerAction::BeginBox)
    );
    assert_eq!(
        pointer_transition(
            InteractionState::Idle,
            PointerEvent::PrimaryPressed { hit: NOTHING_HIT, tool_active: true }
        ),
        (InteractionState::Idle, PointerAction::UseTool)
    );
}

#[test]
fn panning_lasts_while_its_button_is_down() {
    assert_eq!(
        pointer_transition(InteractionState::Idle, PointerEvent::PanPressed),
        (InteractionState::Panning, PointerAction::Nothing)
    );
    assert_eq!(
        pointer_transition(InteractionState::Panning, PointerEvent::PrimaryReleased { ready: true }),
        (InteractionState::Panning, PointerAction::Nothing)
    );
    assert_eq!(
        pointer_transition(InteractionState::Panning, PointerEvent::PanReleased),
        (InteractionState::Idle, PointerAction::Nothing)
    );
}

#[test]
fn releasing_the_primary_button_ends_the_operation() {
    assert_eq!(
        pointer_transition(
            InteractionState::BoxSelecting,
            PointerEvent::PrimaryReleased { ready: true }
        ),
        (InteractionState::Idle, PointerAction::FinishBox)
    );
    assert_eq!(
        pointer_transition(
            InteractionState::BoxSelecting,
            PointerEvent::PrimaryReleased { ready: false }
        ),
        (InteractionState::BoxSelecting, PointerAction::Nothing)
    );
    assert_eq!(
        pointer_transition(InteractionState::Dragging, PointerEvent::PrimaryReleased { ready: false }),
        (InteractionState::Idle, PointerAction::FinishDrag)
    );
    assert_eq!(
        pointer_transition(
            InteractionState::Connecting,
            PointerEvent::PrimaryReleased { ready: true }
        ),
        (InteractionState::Idle, PointerAction::FinishWire)
    );
    assert_eq!(
        pointer_transition(
            InteractionState::Connecting,
            PointerEvent::PrimaryReleased { ready: false }
        ),
        (InteractionState::Connecting, PointerAction::Nothing)
    );
    assert_eq!(
        pointer_transition(InteractionState::Idle, PointerEvent::PrimaryReleased { ready: true }),
        (InteractionState::Idle, PointerAction::Nothing)
    );
}

#[test]
fn escape_ends_everything_and_presses_wait_for_idle() {
    for state in [
        InteractionState::Idle,
        InteractionState::Panning,
        InteractionState::BoxSelecting,
        InteractionState::Dragging,
        InteractionState::Connecting,
    ] {
        assert_eq!(
            pointer_transition(state, PointerEvent::Escape),
            (InteractionState::Idle, PointerAction::DropTool)
        );
        if state != InteractionState::Idle {
            let hit = Hit { port: Some(in_port(1)), connection: None, part: Some(1) };
            assert_eq!(
                pointer_transition(state, PointerEvent::PrimaryPressed { hit, tool_active: false }),
                (state, PointerAction::Nothing)
            );
            assert_eq!(
                pointer_transition(state, PointerEvent::PanPressed),
                (state, PointerAction::Nothing)
            );
        }
    }
}

#[test]
fn the_z_key_goes_back_or_forward() {
    assert_eq!(history_key(true, true), HistoryKey::Redo);
    assert_eq!(history_key(true, false), HistoryKey::Undo);
    assert_eq!(history_key(false, true), HistoryKey::Nothing);
    assert_eq!(history_key(false, false), HistoryKey::Nothing);
}

#[test]
fn a_wire_runs_to_the_input() {
    assert_eq!(orient_wire(out_port(1), in_port(2)), (out_port(1), in_port(2)));
    assert_eq!(orient_wire(in_port(2), out_port(1)), (out_port(1), in_port(2)));
    assert_eq!(orient_wire(in_port(2), in_port(3)), (in_port(3), in_port(2)));
}

#[test]
fn a_wire_is_made_only_between_an_output_and_an_input_with_room() {
    assert_eq!(
        wire_outcome(out_port(1), in_port(2), 0, Some(1)),
        WireOutcome::Connect(wire(1, 2))
    );
    assert_eq!(wire_outcome(out_port(1), in_port(2), 1, Some(1)), WireOutcome::Refuse);
    assert_eq!(wire_outcome(out_port(1), in_port(2), 0, None), WireOutcome::Refuse);
    assert_eq!(wire_outcome(out_port(1), out_port(2), 0, Some(9)), WireOutcome::GiveUp);
    assert_eq!(wire_outcome(in_port(1), in_port(2), 0, Some(9)), WireOutcome::GiveUp);
    assert_eq!(wire_outcome(in_port(1), in_port(2), 0, None), WireOutcome::GiveUp);
}

#[test]
fn the_selected_wires_go_to_the_clipboard() {
    let wires = vec![wire(1, 2), wire(2, 3), wire(3, 4)];
    let selection = vec![
        Selection::Connection(2),
        Selection::Part(1),
        Selection::Connection(0),
        Selection::Connection(3),
        Selection::Connection(2),
    ];
    assert_eq!(
        selected_connections(&wires, &selection),
        vec![wire(3, 4), wire(1, 2), wire(3, 4)]
    );
    assert_eq!(selected_connections(&wires, &Vec::new()), Vec::new());
    assert_eq!(selected_connections(&Vec::new(), &selection), Vec::new());
}

#[test]
fn pasted_wires_follow_their_parts() {
    let copied = vec![
        Connection {
            start: Port { part: 10, input: false, port_id: Some(4) },
            end: in_port(30),
            powered: true,
        },
        wire(30, 20),
        wire(10, 99),
        wire(98, 30),
    ];
    let pasted = remap_connections(&copied, &vec![10, 20, 30], 100);
    assert_eq!(
        pasted,
        vec![
            Connection {
                start: Port { part: 100, input: false, port_id: Some(4) },
                end: in_port(102),
                powered: true,
            },
            wire(102, 101),
        ]
    );
    assert_eq!(remap_connections(&copied, &Vec::new(), 100), Vec::new());
}

#[test]
fn of_two_pasted_parts_with_one_id_the_later_counts() {
    let pasted = remap_connections(&vec![wire(7, 8)], &vec![7, 8, 7], 50);
    assert_eq!(pasted, vec![wire(52, 51)]);
}

#[test]
fn the_copies_are_selected_after_a_paste() {
    assert_eq!(
        pasted_selection(3, 40),
        vec![Selection::Part(40), Selection::Part(41), Selection::Part(42)]
    );
    assert_eq!(pasted_selection(0, 40), Vec::new());
    assert_eq!(pasted_selection(1, u64::MAX - 1), vec![Selection::Part(u64::MAX - 1)]);
}
