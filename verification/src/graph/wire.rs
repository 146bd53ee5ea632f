use crate::graph::elbow::Elbow;
use vstd::prelude::*;

verus! {

/// A directed edge between two nodes of the graph, with an elbow routing
/// style. Nodes are named by their index in the graph, which keeps the
/// node/wire ownership free of cyclic references.
pub struct Wire {
    pub input: usize,
    pub output: usize,
    pub elbow: Elbow,
}

impl Wire {
    pub fn new(input: usize, output: usize, elbow: &Elbow) -> (w: Self)
        ensures
            w.input == input,
            w.output == output,
            w.elbow == *elbow,
    {
        Self { input, output, elbow: *elbow }
    }
}

} // verus!
