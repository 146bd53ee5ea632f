use crate::common_traits::Scrollable;
use vstd::prelude::*;

verus! {

/// The routing style of a wire's bend: which leg leaves the start first.
#[derive(Clone, Copy, Debug, PartialEq, Eq, Structural)]
pub enum Elbow {
    /// Horizontal start
    HorzS,
    /// Vertical start
    VertS,
    /// Diagonal start
    DiagS,
    /// Diagonal end
    DiagE,
}

impl Scrollable for Elbow {
    /// The successor in the fixed cyclic order
    /// `HorzS -> DiagE -> VertS -> DiagS -> HorzS`.
    open spec fn next_spec(&self) -> Self {
        match *self {
            Elbow::HorzS => Elbow::DiagE,
            Elbow::DiagE => Elbow::VertS,
            Elbow::VertS => Elbow::DiagS,
            Elbow::DiagS => Elbow::HorzS,
        }
    }

    /// The predecessor in the same cyclic order.
    open spec fn prev_spec(&self) -> Self {
        match *self {
            Elbow::HorzS => Elbow::DiagS,
            Elbow::DiagE => Elbow::HorzS,
            Elbow::VertS => Elbow::DiagE,
            Elbow::DiagS => Elbow::VertS,
        }
    }

    fn next(&self) -> Self {
        match *self {
            Elbow::HorzS => Elbow::DiagE,
            Elbow::DiagE => Elbow::VertS,
            Elbow::VertS => Elbow::DiagS,
            Elbow::DiagS => Elbow::HorzS,
        }
    }

    fn prev(&self) -> Self {
        match *self {
            Elbow::HorzS => Elbow::DiagS,
            Elbow::DiagE => Elbow::HorzS,
            Elbow::VertS => Elbow::DiagE,
            Elbow::DiagS => Elbow::VertS,
        }
    }
}

} // verus!
