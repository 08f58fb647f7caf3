//! What the editor decides when the pointer or a key does something on the
//! canvas. The caller finds out what lies under the pointer and carries out
//! what is decided here.

use crate::connections::Connection;
use crate::parts::Port;
use crate::state::InteractionState;
use vstd::prelude::*;

verus! {

/// What lies under the pointer.
#[derive(Debug, Clone, Copy, PartialEq, Eq, Structural)]
pub struct Hit {
    pub port: Option<Port>,
    pub connection: Option<usize>,
    pub part: Option<u64>,
}

/// Something the pointer or the keyboard did.
#[derive(Debug, Clone, Copy, PartialEq, Eq, Structural)]
pub enum PointerEvent {
    /// The escape key went down.
    Escape,
    /// The middle or the secondary button went down.
    PanPressed,
    /// The middle or the secondary button came up.
    PanReleased,
    /// The primary button went down on `hit`; `tool_active` tells whether a
    /// tool is in use.
    PrimaryPressed { hit: Hit, tool_active: bool },
    /// The primary button came up. `ready` tells whether the operation in
    /// progress has what it was started with: the corner a box selection
    /// began at, or the port a wire began at.
    PrimaryReleased { ready: bool },
}

/// What is to be done about an event.
#[derive(Debug, Clone, Copy, PartialEq, Eq, Structural)]
pub enum PointerAction {
    Nothing,
    /// Put the tool in use away.
    DropTool,
    /// Remember the port as the start of a wire and record the canvas for
    /// undoing.
    BeginWire(Port),
    /// Select the wire.
    SelectConnection(usize),
    /// Select the part and record the canvas for undoing.
    BeginDrag(u64),
    /// Remember the pointer's place as a corner of the box.
    BeginBox,
    /// Let the tool in use act at the pointer's place.
    UseTool,
    /// Select what lies in the box.
    FinishBox,
    /// Snap what was dragged to the grid, if snapping is on.
    FinishDrag,
    /// Make the wire to the port under the pointer, or give it up.
    FinishWire,
}

/// What a press of the primary button starts while nothing is in progress:
/// a port under the pointer wins over a wire, a wire over a part, and on the
/// empty canvas a box selection begins unless a tool is in use.
pub open spec fn press_outcome(hit: Hit, tool_active: bool) -> (InteractionState, PointerAction) {
    if let Some(port) = hit.port {
        (InteractionState::Connecting, PointerAction::BeginWire(port))
    } else if let Some(connection) = hit.connection {
        (InteractionState::Idle, PointerAction::SelectConnection(connection))
    } else if let Some(part) = hit.part {
        (InteractionState::Dragging, PointerAction::BeginDrag(part))
    } else if !tool_active {
        (InteractionState::BoxSelecting, PointerAction::BeginBox)
    } else {
        (InteractionState::Idle, PointerAction::UseTool)
    }
}

/// The operation in progress after `event`, and what is to be done.
///
/// Escape ends whatever is in progress. Presses start something only while
/// nothing is in progress, and an operation ends only when the button that
/// keeps it going comes up.
pub open spec fn pointer_outcome(state: InteractionState, event: PointerEvent) -> (
    InteractionState,
    PointerAction,
) {
    match (state, event) {
        (_, PointerEvent::Escape) => (InteractionState::Idle, PointerAction::DropTool),
        (InteractionState::Idle, PointerEvent::PanPressed) => (
            InteractionState::Panning,
            PointerAction::Nothing,
        ),
        (InteractionState::Idle, PointerEvent::PrimaryPressed { hit, tool_active }) => press_outcome(
            hit,
            tool_active,
        ),
        (InteractionState::Panning, PointerEvent::PanReleased) => (
            InteractionState::Idle,
            PointerAction::Nothing,
        ),
        (InteractionState::BoxSelecting, PointerEvent::PrimaryReleased { ready: true }) => (
            InteractionState::Idle,
            PointerAction::FinishBox,
        ),
        (InteractionState::Dragging, PointerEvent::PrimaryReleased { .. }) => (
            InteractionState::Idle,
            PointerAction::FinishDrag,
        ),
        (InteractionState::Connecting, PointerEvent::PrimaryReleased { ready: true }) => (
            InteractionState::Idle,
            PointerAction::FinishWire,
        ),
        _ => (state, PointerAction::Nothing),
    }
}

/// Takes one event and gives the operation in progress afterwards and what
/// is to be done.
pub fn pointer_transition(state: InteractionState, event: PointerEvent) -> (outcome: (
    InteractionState,
    PointerAction,
))
    ensures
        outcome == pointer_outcome(state, event),
{
    match event {
        PointerEvent::Escape => (InteractionState::Idle, PointerAction::DropTool),
        PointerEvent::PanPressed => match state {
            InteractionState::Idle => (InteractionState::Panning, PointerAction::Nothing),
            _ => (state, PointerAction::Nothing),
        },
        PointerEvent::PanReleased => match state {
            InteractionState::Panning => (InteractionState::Idle, PointerAction::Nothing),
            _ => (state, PointerAction::Nothing),
        },
        PointerEvent::PrimaryPressed { hit, tool_active } => match state {
            InteractionState::Idle => {
                if let Some(port) = hit.port {
                    (InteractionState::Connecting, PointerAction::BeginWire(port))
                } else if let Some(connection) = hit.connection {
                    (InteractionState::Idle, PointerAction::SelectConnection(connection))
                } else if let Some(part) = hit.part {
                    (InteractionState::Dragging, PointerAction::BeginDrag(part))
                } else if !tool_active {
                    (InteractionState::BoxSelecting, PointerAction::BeginBox)
                } else {
                    (InteractionState::Idle, PointerAction::UseTool)
                }
            },
            _ => (state, PointerAction::Nothing),
        },
        PointerEvent::PrimaryReleased { ready } => match state {
            InteractionState::BoxSelecting => {
                if ready {
                    (InteractionState::Idle, PointerAction::FinishBox)
                } else {
                    (state, PointerAction::Nothing)
                }
            },
            InteractionState::Dragging => (InteractionState::Idle, PointerAction::FinishDrag),
            InteractionState::Connecting => {
                if ready {
                    (InteractionState::Idle, PointerAction::FinishWire)
                } else {
                    (state, PointerAction::Nothing)
                }
            },
            _ => (state, PointerAction::Nothing),
        },
    }
}

/// Only an idle editor starts anything: while an operation is in progress,
/// a press changes nothing and asks for nothing.
pub proof fn lemma_presses_wait_for_idle(state: InteractionState, event: PointerEvent)
    requires
        state != InteractionState::Idle,
        event is PanPressed || event is PrimaryPressed,
    ensures
        pointer_outcome(state, event) == (state, PointerAction::Nothing),
{
}

/// An operation that begins records the canvas for undoing exactly when it
/// may change the canvas: when a wire or a drag begins.
pub proof fn lemma_what_a_press_begins(hit: Hit, tool_active: bool)
    ensures
        press_outcome(hit, tool_active).0 is Connecting <==> press_outcome(hit, tool_active).1
            is BeginWire,
        press_outcome(hit, tool_active).0 is Dragging <==> press_outcome(hit, tool_active).1
            is BeginDrag,
        press_outcome(hit, tool_active).0 is BoxSelecting <==> press_outcome(hit, tool_active).1
            is BeginBox,
        !(press_outcome(hit, tool_active).0 is Panning),
{
}

/// What the undo keys ask for.
#[derive(Debug, Clone, Copy, PartialEq, Eq, Structural)]
pub enum HistoryKey {
    Nothing,
    Undo,
    Redo,
}

/// What a press of the Z key asks for: with control and shift held, to go
/// forward; with control alone, to go back; without control, nothing.
pub fn history_key(ctrl_held: bool, shift_held: bool) -> (key: HistoryKey)
    ensures
        key == if ctrl_held && shift_held {
            HistoryKey::Redo
        } else if ctrl_held {
            HistoryKey::Undo
        } else {
            HistoryKey::Nothing
        },
{
    if ctrl_held && shift_held {
        HistoryKey::Redo
    } else if ctrl_held {
        HistoryKey::Undo
    } else {
        HistoryKey::Nothing
    }
}

/// What becomes of a wire that was begun.
#[derive(Debug, Clone, Copy, PartialEq, Eq, Structural)]
pub enum WireOutcome {
    /// The wire is made.
    Connect(Connection),
    /// The wire cannot be: forget the canvas that was recorded for undoing.
    GiveUp,
    /// The wire is not made, and nothing else changes.
    Refuse,
}

/// The two ends of a wire between the port it was begun at and the port it
/// was dropped on, start first: a wire begun at an input runs to that input.
pub fn orient_wire(begun_at: Port, dropped_on: Port) -> (ends: (Port, Port))
    ensures
        ends == if begun_at.input {
            (dropped_on, begun_at)
        } else {
            (begun_at, dropped_on)
        },
{
    if begun_at.input {
        (dropped_on, begun_at)
    } else {
        (begun_at, dropped_on)
    }
}

/// What becomes of a wire from `start` to `end`, where `end_count` wire ends
/// lie on `end` already and `end_limit` is how many the part of `end` takes,
/// or `None` if that part is gone. A wire between two inputs or two outputs
/// is given up; a wire to a port that is full or gone is refused; any other
/// is made, unpowered.
pub fn wire_outcome(start: Port, end: Port, end_count: u64, end_limit: Option<u64>) -> (outcome:
    WireOutcome)
    ensures
        outcome == if start.input == end.input {
            WireOutcome::GiveUp
        } else if end_limit is Some && end_count < end_limit->0 {
            WireOutcome::Connect(Connection { start, end, powered: false })
        } else {
            WireOutcome::Refuse
        },
{
    if start.input == end.input {
        WireOutcome::GiveUp
    } else {
        match end_limit {
            Some(limit) => {
                if end_count < limit {
                    WireOutcome::Connect(Connection { start, end, powered: false })
                } else {
                    WireOutcome::Refuse
                }
            },
            None => WireOutcome::Refuse,
        }
    }
}

} // verus!
