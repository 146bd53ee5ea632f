use crate::coords::Coords;
use crate::wire::{Elbow, Wire};
use vstd::prelude::*;

verus! {

/// The kind of a placed gate.
#[derive(Clone, Copy, Debug, PartialEq, Eq, Structural)]
pub enum Gate {
    Never,
    Always,
    Random,
    Buffer,
    And,
    Or,
    Nor,
    Xor,
}

impl Gate {
    /// The successor in the fixed cyclic order
    /// `Never -> Always -> Random -> Buffer -> And -> Or -> Nor -> Xor -> Never`.
    pub open spec fn next_spec(self) -> Self {
        match self {
            Gate::Never => Gate::Always,
            Gate::Always => Gate::Random,
            Gate::Random => Gate::Buffer,
            Gate::Buffer => Gate::And,
            Gate::And => Gate::Or,
            Gate::Or => Gate::Nor,
            Gate::Nor => Gate::Xor,
            Gate::Xor => Gate::Never,
        }
    }

    /// The predecessor in the same cyclic order.
    pub open spec fn prev_spec(self) -> Self {
        match self {
            Gate::Never => Gate::Xor,
            Gate::Always => Gate::Never,
            Gate::Random => Gate::Always,
            Gate::Buffer => Gate::Random,
            Gate::And => Gate::Buffer,
            Gate::Or => Gate::And,
            Gate::Nor => Gate::Or,
            Gate::Xor => Gate::Nor,
        }
    }

    pub fn next(&self) -> (r: Self)
        ensures
            r == self.next_spec(),
    {
        match *self {
            Gate::Never => Gate::Always,
            Gate::Always => Gate::Random,
            Gate::Random => Gate::Buffer,
            Gate::Buffer => Gate::And,
            Gate::And => Gate::Or,
            Gate::Or => Gate::Nor,
            Gate::Nor => Gate::Xor,
            Gate::Xor => Gate::Never,
        }
    }

    pub fn prev(&self) -> (r: Self)
        ensures
            r == self.prev_spec(),
    {
        match *self {
            Gate::Never => Gate::Xor,
            Gate::Always => Gate::Never,
            Gate::Random => Gate::Always,
            Gate::Buffer => Gate::Random,
            Gate::And => Gate::Buffer,
            Gate::Or => Gate::And,
            Gate::Nor => Gate::Or,
            Gate::Xor => Gate::Nor,
        }
    }
}

/// A placed gate instance at a grid coordinate, together with the wires that
/// feed it. Wires name nodes by index, which keeps the ownership acyclic.
pub struct Node {
    pub gate: Gate,
    pub coords: Coords,
    pub inputs: Vec<Wire>,
}

impl Node {
    pub fn new(gate: &Gate, coords: &Coords) -> (n: Self)
        ensures
            n.gate == *gate,
            n.coords == *coords,
            n.inputs@ =~= Seq::<Wire>::empty(),
    {
        Self { gate: *gate, coords: *coords, inputs: Vec::new() }
    }

    /// Record a wire from the node with index `input` into this node. `self_id`
    /// is this node's own index, which becomes the wire's output endpoint.
    pub fn add_input(&mut self, self_id: usize, input: usize, elbow: Elbow)
        ensures
            final(self).gate == old(self).gate,
            final(self).coords == old(self).coords,
            final(self).inputs@.len() == old(self).inputs@.len() + 1,
            final(self).inputs@.last().input == input,
            final(self).inputs@.last().output == self_id,
            final(self).inputs@.last().elbow == elbow,
            final(self).inputs@.drop_last() =~= old(self).inputs@,
    {
        let wire = Wire::new(input, self_id, elbow);
        self.inputs.push(wire);
    }

    pub fn num_input(&self) -> (n: usize)
        ensures
            n == self.inputs@.len(),
    {
        self.inputs.len()
    }
}

} // verus!
