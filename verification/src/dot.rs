//! Dots: the logical timestamps of single events.

use vstd::prelude::*;

verus! {

/// One causally ordered event of one actor: the actor and the event's number
/// among that actor's events.
#[derive(Clone, Copy, Debug, PartialEq, Eq, Structural)]
pub struct Dot {
    pub actor: u64,
    pub counter: u64,
}

impl Dot {
    /// The dot of `actor` with the number `counter`.
    pub fn new(actor: u64, counter: u64) -> (dot: Dot)
        ensures
            dot.actor == actor,
            dot.counter == counter,
    {
        Dot { actor, counter }
    }
}

} // verus!
