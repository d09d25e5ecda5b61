use vstd::prelude::*;

verus! {

/// What the port selector decides for one snapshot of the port list.
pub enum SelectionOutcome<P> {
    /// No port is visible yet: wait for the next poll.
    Empty,
    /// Exactly one port is visible: it is chosen without asking.
    Unique(P),
    /// Several ports are visible, in enumeration order: a human must choose.
    Ambiguous(Vec<P>),
}

/// The outcome that a port list of the given contents calls for.
pub open spec fn selection_of<P>(ports: Seq<P>, out: SelectionOutcome<P>) -> bool {
    match out {
        SelectionOutcome::Empty => ports.len() == 0,
        SelectionOutcome::Unique(p) => ports.len() == 1 && p == ports[0],
        SelectionOutcome::Ambiguous(v) => ports.len() >= 2 && v@ == ports,
    }
}

/// Decides among waiting, taking the only port, and asking which one.
pub fn select<P>(ports: Vec<P>) -> (out: SelectionOutcome<P>)
    ensures
        selection_of(ports@, out),
{
    let mut ports = ports;
    if ports.len() == 0 {
        SelectionOutcome::Empty
    } else if ports.len() == 1 {
        let p = ports.remove(0);
        SelectionOutcome::Unique(p)
    } else {
        SelectionOutcome::Ambiguous(ports)
    }
}

/// Takes the port at `index` of an ambiguous listing, or `None` when the
/// index is out of bounds.
pub fn resolve<P>(ports: Vec<P>, index: usize) -> (r: Option<P>)
    ensures
        index < ports@.len() <==> r is Some,
        r matches Some(p) ==> p == ports@[index as int],
{
    let mut ports = ports;
    if index < ports.len() {
        Some(ports.remove(index))
    } else {
        None
    }
}

} // verus!
