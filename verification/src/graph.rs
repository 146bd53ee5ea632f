pub mod elbow;
pub mod gate;
pub mod node;
pub mod wire;

use crate::coords::Coords;
use crate::graph::elbow::Elbow;
use crate::graph::gate::Gate;
use crate::graph::node::Node;
use crate::graph::wire::Wire;
use vstd::prelude::*;

verus! {

/// Owns all nodes and wires of the circuit. Lookups are linear scans; wires
/// refer to nodes by index into `nodes`.
pub struct Graph {
    pub nodes: Vec<Node>,
    pub wires: Vec<Wire>,
}

impl Graph {
    pub fn new() -> (g: Self)
        ensures
            g.nodes@ =~= Seq::<Node>::empty(),
            g.wires@ =~= Seq::<Wire>::empty(),
    {
        Self { nodes: Vec::new(), wires: Vec::new() }
    }

    /// Place a new node and return its index.
    pub fn add_node(&mut self, gate: &Gate, coords: &Coords) -> (id: usize)
        ensures
            id == old(self).nodes@.len(),
            final(self).nodes@.len() == old(self).nodes@.len() + 1,
            final(self).nodes@.last().gate == *gate,
            final(self).nodes@.last().coords == *coords,
            final(self).nodes@.drop_last() =~= old(self).nodes@,
            final(self).wires@ =~= old(self).wires@,
    {
        let id = self.nodes.len();
        self.nodes.push(Node::new(gate, coords));
        id
    }

    /// Connect the node with index `src` to the node with index `dest` and
    /// return the new wire's index.
    pub fn add_wire(&mut self, src: usize, dest: usize, elbow: &Elbow) -> (id: usize)
        ensures
            id == old(self).wires@.len(),
            final(self).wires@.len() == old(self).wires@.len() + 1,
            final(self).wires@.last().input == src,
            final(self).wires@.last().output == dest,
            final(self).wires@.last().elbow == *elbow,
            final(self).wires@.drop_last() =~= old(self).wires@,
            final(self).nodes@ =~= old(self).nodes@,
    {
        let id = self.wires.len();
        self.wires.push(Wire::new(src, dest, elbow));
        id
    }

    /// The first node placed at the given coordinate, if any.
    pub fn find_node_at_coords(&self, search_coords: &Coords) -> (r: Option<&Node>)
        ensures
            r is Some <==> exists|i: int|
                0 <= i < self.nodes@.len() && self.nodes@[i].coords == *search_coords,
            r matches Some(n) ==> exists|i: int|
                {
                    &&& 0 <= i < self.nodes@.len()
                    &&& *n == self.nodes@[i]
                    &&& self.nodes@[i].coords == *search_coords
                    &&& forall|j: int| 0 <= j < i ==> self.nodes@[j].coords != *search_coords
                },
    {
        let mut idx: usize = 0;
        while idx < self.nodes.len()
            invariant
                idx <= self.nodes@.len(),
                forall|j: int| 0 <= j < idx ==> self.nodes@[j].coords != *search_coords,
            decreases self.nodes@.len() - idx,
        {
            if self.nodes[idx].coords == *search_coords {
                return Some(&self.nodes[idx]);
            }
            idx += 1;
        }
        None
    }
}

} // verus!
