//! What the editor is doing and what is selected.

use crate::connections::Connection;
use vstd::prelude::*;

verus! {

/// The operation in progress on the canvas.
#[derive(Debug, Clone, Copy, PartialEq, Eq, Structural)]
pub enum InteractionState {
    Idle,
    Panning,
    BoxSelecting,
    Dragging,
    Connecting,
}

impl Default for InteractionState {
    fn default() -> (state: Self)
        ensures
            state == InteractionState::Idle,
    {
        InteractionState::Idle
    }
}

/// One selected thing: a part by its id, or a wire by its position in the
/// list of wires.
#[derive(Debug, Clone, Copy, PartialEq, Eq, Structural)]
pub enum Selection {
    Part(u64),
    Connection(usize),
}

/// Puts `item` into the selection: it joins what is selected while shift is
/// held, and replaces it otherwise.
pub fn select(selection: &mut Vec<Selection>, item: Selection, shift_held: bool)
    ensures
        final(selection)@ == if shift_held {
            old(selection)@.push(item)
        } else {
            seq![item]
        },
{
    if !shift_held {
        selection.clear();
    }
    selection.push(item);
}

/// The ids of the selected parts, in the order the selection names them.
pub open spec fn part_ids(selection: Seq<Selection>) -> Seq<u64>
    decreases selection.len(),
{
    if selection.len() == 0 {
        Seq::empty()
    } else {
        let before = part_ids(selection.drop_last());
        match selection.last() {
            Selection::Part(id) => before.push(id),
            Selection::Connection(_) => before,
        }
    }
}

/// The ids of the selected parts, as for deleting them.
pub fn selected_parts(selection: &Vec<Selection>) -> (ids: Vec<u64>)
    ensures
        ids@ == part_ids(selection@),
{
    let mut ids: Vec<u64> = Vec::new();
    let mut i: usize = 0;
    assert(selection@.take(0) =~= Seq::<Selection>::empty());
    while i < selection.len()
        invariant
            i <= selection@.len(),
            ids@ == part_ids(selection@.take(i as int)),
        decreases selection@.len() - i,
    {
        proof {
            assert(selection@.take(i + 1).drop_last() =~= selection@.take(i as int));
        }
        match selection[i] {
            Selection::Part(id) => {
                ids.push(id);
            },
            Selection::Connection(_) => {},
        }
        i = i + 1;
    }
    assert(selection@.take(i as int) =~= selection@);
    ids
}

/// The wires that stay when the selected ones are deleted: those whose
/// place in the list the selection does not name, in their order.
pub open spec fn kept_wires(connections: Seq<Connection>, selection: Seq<Selection>) -> Seq<
    Connection,
>
    decreases connections.len(),
{
    if connections.len() == 0 {
        Seq::empty()
    } else {
        let before = kept_wires(connections.drop_last(), selection);
        if selection.contains(Selection::Connection((connections.len() - 1) as usize)) {
            before
        } else {
            before.push(connections.last())
        }
    }
}

/// Whether the selection names the wire at place `at`.
fn names_wire(selection: &Vec<Selection>, at: usize) -> (named: bool)
    ensures
        named == selection@.contains(Selection::Connection(at)),
{
    let mut i: usize = 0;
    while i < selection.len()
        invariant
            i <= selection@.len(),
            forall|k: int| 0 <= k < i ==> selection@[k] != Selection::Connection(at),
        decreases selection@.len() - i,
    {
        match selection[i] {
            Selection::Connection(place) => {
                if place == at {
                    return true;
                }
            },
            Selection::Part(_) => {},
        }
        i = i + 1;
    }
    false
}

/// Deletes the selected wires. Each wire that the selection names goes,
/// however often it is named; entries that name parts, or wires that are
/// not there, change nothing.
pub fn remove_selected(connections: &mut Vec<Connection>, selection: &Vec<Selection>)
    ensures
        final(connections)@ == kept_wires(old(connections)@, selection@),
{
    let mut kept: Vec<Connection> = Vec::new();
    let mut i: usize = 0;
    assert(connections@.take(0) =~= Seq::<Connection>::empty());
    while i < connections.len()
        invariant
            i <= connections@.len(),
            connections@ == old(connections)@,
            kept@ == kept_wires(connections@.take(i as int), selection@),
        decreases connections@.len() - i,
    {
        proof {
            assert(connections@.take(i + 1).drop_last() =~= connections@.take(i as int));
        }
        if !names_wire(selection, i) {
            kept.push(connections[i]);
        }
        i = i + 1;
    }
    assert(connections@.take(i as int) =~= connections@);
    *connections = kept;
}

/// The snapshots to go back to and to go forward to. The last entry of each
/// stack is the nearest one.
pub struct History<T> {
    pub undo_stack: Vec<T>,
    pub redo_stack: Vec<T>,
}

impl<T> History<T> {
    /// A history without snapshots.
    pub fn new() -> (history: Self)
        ensures
            history.undo_stack@ == Seq::<T>::empty(),
            history.redo_stack@ == Seq::<T>::empty(),
    {
        History { undo_stack: Vec::new(), redo_stack: Vec::new() }
    }

    /// Records `snapshot`, the state before a change, as the nearest one to
    /// go back to. There is nothing to go forward to after a change.
    pub fn push_undo(&mut self, snapshot: T)
        ensures
            final(self).undo_stack@ == old(self).undo_stack@.push(snapshot),
            final(self).redo_stack@ == Seq::<T>::empty(),
    {
        self.redo_stack.clear();
        self.undo_stack.push(snapshot);
    }

    /// Goes back one change. With something to go back to, `current` becomes
    /// the nearest state to go forward to and the nearest recorded state is
    /// returned with `true`; with nothing, `current` is returned with `false`
    /// and the history stays as it is.
    pub fn undo(&mut self, current: T) -> (restored: (T, bool))
        ensures
            restored.1 == (old(self).undo_stack@.len() > 0),
            restored.1 ==> {
                &&& restored.0 == old(self).undo_stack@.last()
                &&& final(self).undo_stack@ == old(self).undo_stack@.drop_last()
                &&& final(self).redo_stack@ == old(self).redo_stack@.push(current)
            },
            !restored.1 ==> {
                &&& restored.0 == current
                &&& final(self).undo_stack@ == old(self).undo_stack@
                &&& final(self).redo_stack@ == old(self).redo_stack@
            },
    {
        match self.undo_stack.pop() {
            Some(snapshot) => {
                self.redo_stack.push(current);
                (snapshot, true)
            },
            None => (current, false),
        }
    }

    /// Goes forward one change that was gone back: the mirror image of
    /// [`History::undo`].
    pub fn redo(&mut self, current: T) -> (restored: (T, bool))
        ensures
            restored.1 == (old(self).redo_stack@.len() > 0),
            restored.1 ==> {
                &&& restored.0 == old(self).redo_stack@.last()
                &&& final(self).redo_stack@ == old(self).redo_stack@.drop_last()
                &&& final(self).undo_stack@ == old(self).undo_stack@.push(current)
            },
            !restored.1 ==> {
                &&& restored.0 == current
                &&& final(self).undo_stack@ == old(self).undo_stack@
                &&& final(self).redo_stack@ == old(self).redo_stack@
            },
    {
        match self.redo_stack.pop() {
            Some(snapshot) => {
                self.undo_stack.push(current);
                (snapshot, true)
            },
            None => (current, false),
        }
    }

    /// Forgets the nearest state to go back to, as when a change that was
    /// begun is given up. Tells whether there was one.
    pub fn discard_undo(&mut self) -> (discarded: bool)
        ensures
            discarded == (old(self).undo_stack@.len() > 0),
            discarded ==> final(self).undo_stack@ == old(self).undo_stack@.drop_last(),
            !discarded ==> final(self).undo_stack@ == old(self).undo_stack@,
            final(self).redo_stack@ == old(self).redo_stack@,
    {
        self.undo_stack.pop().is_some()
    }
}

} // verus!
