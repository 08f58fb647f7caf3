//! Copying and pasting: which wires go to the clipboard, and how the wires
//! of pasted parts are rewired to the ids the parts get.

use crate::connections::Connection;
use crate::parts::Port;
use crate::state::Selection;
use vstd::prelude::*;

verus! {

/// The wires that a selection names, in the order it names them. An entry
/// that names a part, or a wire that is not there, adds nothing.
pub open spec fn copied_wires(connections: Seq<Connection>, selection: Seq<Selection>) -> Seq<
    Connection,
>
    decreases selection.len(),
{
    if selection.len() == 0 {
        Seq::empty()
    } else {
        let before = copied_wires(connections, selection.drop_last());
        match selection.last() {
            Selection::Connection(i) => if i < connections.len() {
                before.push(connections[i as int])
            } else {
                before
            },
            Selection::Part(_) => before,
        }
    }
}

/// The selected wires, for the clipboard.
pub fn selected_connections(connections: &Vec<Connection>, selection: &Vec<Selection>) -> (wires:
    Vec<Connection>)
    ensures
        wires@ == copied_wires(connections@, selection@),
{
    let mut wires: Vec<Connection> = Vec::new();
    let mut i: usize = 0;
    assert(selection@.take(0) =~= Seq::<Selection>::empty());
    while i < selection.len()
        invariant
            i <= selection@.len(),
            wires@ == copied_wires(connections@, selection@.take(i as int)),
        decreases selection@.len() - i,
    {
        proof {
            assert(selection@.take(i + 1).drop_last() =~= selection@.take(i as int));
        }
        match selection[i] {
            Selection::Connection(at) => {
                if at < connections.len() {
                    wires.push(connections[at]);
                }
            },
            Selection::Part(_) => {},
        }
        i = i + 1;
    }
    assert(selection@.take(i as int) =~= selection@);
    wires
}

/// Where `id` stands last in `ids`, if it stands there at all.
pub open spec fn last_place(ids: Seq<u64>, id: u64) -> Option<int>
    decreases ids.len(),
{
    if ids.len() == 0 {
        None
    } else if ids.last() == id {
        Some(ids.len() - 1)
    } else {
        last_place(ids.drop_last(), id)
    }
}

/// The id that the copy of part `id` gets when the parts `ids` are pasted
/// one after another and the first copy gets the id `first`. Where two of
/// the parts share an id, the later one counts.
pub open spec fn pasted_id(ids: Seq<u64>, first: u64, id: u64) -> Option<int> {
    match last_place(ids, id) {
        Some(place) => Some(first + place),
        None => None,
    }
}

/// The place that `last_place` gives holds the id, and no later place does.
pub proof fn lemma_last_place(ids: Seq<u64>, id: u64)
    ensures
        last_place(ids, id) matches Some(place) ==> 0 <= place < ids.len() && ids[place] == id
            && forall|later: int| place < later < ids.len() ==> ids[later] != id,
        last_place(ids, id) is None ==> forall|i: int| 0 <= i < ids.len() ==> ids[i] != id,
    decreases ids.len(),
{
    if ids.len() > 0 && ids.last() != id {
        let shorter = ids.drop_last();
        lemma_last_place(shorter, id);
        match last_place(ids, id) {
            Some(place) => {
                assert(ids[place] == shorter[place]);
                assert forall|later: int| place < later < ids.len() implies ids[later] != id by {
                    if later < shorter.len() {
                        assert(ids[later] == shorter[later]);
                    }
                }
            },
            None => {
                assert forall|i: int| 0 <= i < ids.len() implies ids[i] != id by {
                    if i < shorter.len() {
                        assert(ids[i] == shorter[i]);
                    }
                }
            },
        }
    }
}

/// The id of the copy of part `id`, if that part is among the pasted ones.
fn new_id(ids: &Vec<u64>, first: u64, id: u64) -> (found: Option<u64>)
    requires
        first + ids@.len() <= u64::MAX,
    ensures
        found is Some <==> pasted_id(ids@, first, id) is Some,
        found matches Some(new) ==> pasted_id(ids@, first, id) == Some(new as int),
{
    let mut at: usize = ids.len();
    assert(ids@.take(at as int) =~= ids@);
    while at > 0
        invariant
            at <= ids@.len(),
            first + ids@.len() <= u64::MAX,
            last_place(ids@, id) == last_place(ids@.take(at as int), id),
        decreases at,
    {
        at = at - 1;
        proof {
            assert(ids@.take(at + 1).drop_last() =~= ids@.take(at as int));
        }
        if ids[at] == id {
            return Some(first + at as u64);
        }
    }
    assert(ids@.take(0) =~= Seq::<u64>::empty());
    None
}

/// The pasted wires: every wire of the clipboard whose two ends lie on
/// pasted parts, moved to the copies of those parts and otherwise
/// unchanged. A wire with an end on a part that was not copied is left out.
pub open spec fn rewired(connections: Seq<Connection>, ids: Seq<u64>, first: u64) -> Seq<
    Connection,
>
    decreases connections.len(),
{
    if connections.len() == 0 {
        Seq::empty()
    } else {
        let before = rewired(connections.drop_last(), ids, first);
        let wire = connections.last();
        match (pasted_id(ids, first, wire.start.part), pasted_id(ids, first, wire.end.part)) {
            (Some(start), Some(end)) => before.push(
                Connection {
                    start: Port { part: start as u64, ..wire.start },
                    end: Port { part: end as u64, ..wire.end },
                    powered: wire.powered,
                },
            ),
            _ => before,
        }
    }
}

/// The wires to add to the canvas when the parts with the ids `ids` are
/// pasted with their wires `connections`, the first copy getting the id
/// `first` and each further one the next id.
pub fn remap_connections(connections: &Vec<Connection>, ids: &Vec<u64>, first: u64) -> (wires: Vec<
    Connection,
>)
    requires
        first + ids@.len() <= u64::MAX,
    ensures
        wires@ == rewired(connections@, ids@, first),
{
    let mut wires: Vec<Connection> = Vec::new();
    let mut i: usize = 0;
    assert(connections@.take(0) =~= Seq::<Connection>::empty());
    while i < connections.len()
        invariant
            i <= connections@.len(),
            first + ids@.len() <= u64::MAX,
            wires@ == rewired(connections@.take(i as int), ids@, first),
        decreases connections@.len() - i,
    {
        proof {
            assert(connections@.take(i + 1).drop_last() =~= connections@.take(i as int));
        }
        let wire = connections[i];
        match new_id(ids, first, wire.start.part) {
            Some(start) => match new_id(ids, first, wire.end.part) {
                Some(end) => {
                    wires.push(
                        Connection {
                            start: Port {
                                part: start,
                                input: wire.start.input,
                                port_id: wire.start.port_id,
                            },
                            end: Port {
                                part: end,
                                input: wire.end.input,
                                port_id: wire.end.port_id,
                            },
                            powered: wire.powered,
                        },
                    );
                },
                None => {},
            },
            None => {},
        }
        i = i + 1;
    }
    assert(connections@.take(i as int) =~= connections@);
    wires
}

/// The selection after a paste: the copies, in the order they were pasted.
pub fn pasted_selection(count: usize, first: u64) -> (selection: Vec<Selection>)
    requires
        first + count <= u64::MAX,
    ensures
        selection@ == Seq::new(count as nat, |i: int| Selection::Part((first + i) as u64)),
{
    let mut selection: Vec<Selection> = Vec::new();
    let mut i: usize = 0;
    while i < count
        invariant
            i <= count,
            first + count <= u64::MAX,
            selection@ == Seq::new(i as nat, |k: int| Selection::Part((first + k) as u64)),
        decreases count - i,
    {
        selection.push(Selection::Part(first + i as u64));
        assert(selection@ =~= Seq::new(
            (i + 1) as nat,
            |k: int| Selection::Part((first + k) as u64),
        ));
        i = i + 1;
    }
    selection
}

} // verus!
