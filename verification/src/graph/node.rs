use crate::coords::Coords;
use crate::graph::gate::Gate;
use vstd::prelude::*;

verus! {

/// A placed gate instance at a grid coordinate.
pub struct Node {
    pub gate: Gate,
    pub coords: Coords,
}

impl Node {
    pub fn new(gate: &Gate, coords: &Coords) -> (n: Self)
        ensures
            n.gate == *gate,
            n.coords == *coords,
    {
        Self { gate: *gate, coords: *coords }
    }
}

} // verus!
