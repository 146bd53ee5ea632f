use vstd::prelude::*;

verus! {

/// The routing style of a wire's bend between its two endpoints.
#[derive(Clone, Copy, Debug, PartialEq, Eq, Structural)]
pub enum Elbow {
    Horizontal,
    Vertical,
    DiagonalFirst,
    DiagonalLast,
}

impl Elbow {
    /// The successor in the fixed cyclic order
    /// `Horizontal -> DiagonalLast -> Vertical -> DiagonalFirst -> Horizontal`.
    pub open spec fn next_spec(self) -> Self {
        match self {
            Elbow::Horizontal => Elbow::DiagonalLast,
            Elbow::DiagonalLast => Elbow::Vertical,
            Elbow::Vertical => Elbow::DiagonalFirst,
            Elbow::DiagonalFirst => Elbow::Horizontal,
        }
    }

    /// The predecessor in the same cyclic order.
    pub open spec fn prev_spec(self) -> Self {
        match self {
            Elbow::Horizontal => Elbow::DiagonalFirst,
            Elbow::DiagonalLast => Elbow::Horizontal,
            Elbow::Vertical => Elbow::DiagonalLast,
            Elbow::DiagonalFirst => Elbow::Vertical,
        }
    }

    pub fn next(&self) -> (r: Self)
        ensures
            r == self.next_spec(),
    {
        match *self {
            Elbow::Horizontal => Elbow::DiagonalLast,
            Elbow::DiagonalLast => Elbow::Vertical,
            Elbow::Vertical => Elbow::DiagonalFirst,
            Elbow::DiagonalFirst => Elbow::Horizontal,
        }
    }

    pub fn prev(&self) -> (r: Self)
        ensures
            r == self.prev_spec(),
    {
        match *self {
            Elbow::Horizontal => Elbow::DiagonalFirst,
            Elbow::DiagonalLast => Elbow::Horizontal,
            Elbow::Vertical => Elbow::DiagonalLast,
            Elbow::DiagonalFirst => Elbow::Vertical,
        }
    }
}

/// A directed edge between two nodes. Nodes are named by index, so a wire
/// never holds a cyclic reference to the nodes it joins.
pub struct Wire {
    pub input: usize,
    pub output: usize,
    pub elbow: Elbow,
}

impl Wire {
    pub fn new(input: usize, output: usize, elbow: Elbow) -> (w: Self)
        ensures
            w.input == input,
            w.output == output,
            w.elbow == elbow,
    {
        Self { input, output, elbow }
    }
}

} // verus!
