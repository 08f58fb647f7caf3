//! Wires between the ports of parts.

use crate::parts::Port;
use vstd::prelude::*;

verus! {

/// A wire from the port `start` to the port `end`.
#[derive(Debug, Clone, Copy, PartialEq, Eq, Structural)]
pub struct Connection {
    pub start: Port,
    pub end: Port,
    pub powered: bool,
}

/// How many ends of the given wires lie on `port`: a wire from a port to
/// itself counts twice.
pub open spec fn ends_at(connections: Seq<Connection>, port: Port) -> nat
    decreases connections.len(),
{
    if connections.len() == 0 {
        0
    } else {
        let last = connections.last();
        ends_at(connections.drop_last(), port) + if last.start == port {
            1nat
        } else {
            0nat
        } + if last.end == port {
            1nat
        } else {
            0nat
        }
    }
}

/// The number of wire ends on `port`, as the editor shows it beside the
/// port. A count beyond `u64::MAX` is given as `u64::MAX`.
pub fn connection_count(connections: &Vec<Connection>, port: &Port) -> (count: u64)
    ensures
        count == if ends_at(connections@, *port) <= u64::MAX {
            ends_at(connections@, *port)
        } else {
            u64::MAX as nat
        },
{
    let mut count: u64 = 0;
    let mut i: usize = 0;
    assert(connections@.take(0) =~= Seq::<Connection>::empty());
    while i < connections.len()
        invariant
            i <= connections@.len(),
            count == if ends_at(connections@.take(i as int), *port) <= u64::MAX {
                ends_at(connections@.take(i as int), *port)
            } else {
                u64::MAX as nat
            },
        decreases connections@.len() - i,
    {
        let connection = &connections[i];
        proof {
            assert(connections@.take(i + 1).drop_last() =~= connections@.take(i as int));
        }
        if connection.start == *port {
            count = count.saturating_add(1);
        }
        if connection.end == *port {
            count = count.saturating_add(1);
        }
        i = i + 1;
    }
    assert(connections@.take(i as int) =~= connections@);
    count
}

} // verus!
