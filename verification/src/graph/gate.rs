use crate::common_traits::Scrollable;
use vstd::prelude::*;

verus! {

/// Classification of a gate by the number of inputs it accepts.
pub trait GateIn {
    const MAX_INPUTS: usize;
}

/// Gates that take no input.
#[derive(Clone, Copy, Debug, PartialEq, Eq, Structural)]
pub enum Gate0 {
    Never,
    Always,
    Random,
}

impl Scrollable for Gate0 {
    /// The successor in the fixed cyclic order `Never -> Always -> Random -> Never`.
    open spec fn next_spec(&self) -> Self {
        match *self {
            Gate0::Never => Gate0::Always,
            Gate0::Always => Gate0::Random,
            Gate0::Random => Gate0::Never,
        }
    }

    /// The predecessor in the same cyclic order.
    open spec fn prev_spec(&self) -> Self {
        match *self {
            Gate0::Never => Gate0::Random,
            Gate0::Always => Gate0::Never,
            Gate0::Random => Gate0::Always,
        }
    }

    fn next(&self) -> Self {
        match *self {
            Gate0::Never => Gate0::Always,
            Gate0::Always => Gate0::Random,
            Gate0::Random => Gate0::Never,
        }
    }

    fn prev(&self) -> Self {
        match *self {
            Gate0::Never => Gate0::Random,
            Gate0::Always => Gate0::Never,
            Gate0::Random => Gate0::Always,
        }
    }
}

impl GateIn for Gate0 {
    const MAX_INPUTS: usize = 0;
}

/// Gates that take exactly one input.
#[derive(Clone, Copy, Debug, PartialEq, Eq, Structural)]
pub enum Gate1 {
    Buffer,
}

impl Scrollable for Gate1 {
    /// The one variant is its own successor.
    open spec fn next_spec(&self) -> Self {
        match *self {
            Gate1::Buffer => Gate1::Buffer,
        }
    }

    /// The one variant is its own predecessor.
    open spec fn prev_spec(&self) -> Self {
        match *self {
            Gate1::Buffer => Gate1::Buffer,
        }
    }

    fn next(&self) -> Self {
        match *self {
            Gate1::Buffer => Gate1::Buffer,
        }
    }

    fn prev(&self) -> Self {
        match *self {
            Gate1::Buffer => Gate1::Buffer,
        }
    }
}

impl GateIn for Gate1 {
    const MAX_INPUTS: usize = 1;
}

/// Gates that take any number of inputs.
#[derive(Clone, Copy, Debug, PartialEq, Eq, Structural)]
pub enum GateN {
    And,
    Nand,
    Or,
    Nor,
    Xor,
    Xnor,
}

impl Scrollable for GateN {
    /// The successor in the fixed cyclic order
    /// `And -> Nand -> Or -> Nor -> Xor -> Xnor -> And`.
    open spec fn next_spec(&self) -> Self {
        match *self {
            GateN::And => GateN::Nand,
            GateN::Nand => GateN::Or,
            GateN::Or => GateN::Nor,
            GateN::Nor => GateN::Xor,
            GateN::Xor => GateN::Xnor,
            GateN::Xnor => GateN::And,
        }
    }

    /// The predecessor in the same cyclic order.
    open spec fn prev_spec(&self) -> Self {
        match *self {
            GateN::And => GateN::Xnor,
            GateN::Nand => GateN::And,
            GateN::Or => GateN::Nand,
            GateN::Nor => GateN::Or,
            GateN::Xor => GateN::Nor,
            GateN::Xnor => GateN::Xor,
        }
    }

    fn next(&self) -> Self {
        match *self {
            GateN::And => GateN::Nand,
            GateN::Nand => GateN::Or,
            GateN::Or => GateN::Nor,
            GateN::Nor => GateN::Xor,
            GateN::Xor => GateN::Xnor,
            GateN::Xnor => GateN::And,
        }
    }

    fn prev(&self) -> Self {
        match *self {
            GateN::And => GateN::Xnor,
            GateN::Nand => GateN::And,
            GateN::Or => GateN::Nand,
            GateN::Nor => GateN::Or,
            GateN::Xor => GateN::Nor,
            GateN::Xnor => GateN::Xor,
        }
    }
}

impl GateIn for GateN {
    const MAX_INPUTS: usize = usize::MAX;
}

/// A gate of any arity class. Scrolling stays within the current class.
#[derive(Clone, Copy, Debug, PartialEq, Eq, Structural)]
pub enum Gate {
    G0(Gate0),
    G1(Gate1),
    GN(GateN),
}

impl Scrollable for Gate {
    /// Scrolling a composite gate scrolls within its arity class.
    open spec fn next_spec(&self) -> Self {
        match *self {
            Gate::G0(gate_0) => Gate::G0(gate_0.next_spec()),
            Gate::G1(gate_1) => Gate::G1(gate_1.next_spec()),
            Gate::GN(gate_n) => Gate::GN(gate_n.next_spec()),
        }
    }

    open spec fn prev_spec(&self) -> Self {
        match *self {
            Gate::G0(gate_0) => Gate::G0(gate_0.prev_spec()),
            Gate::G1(gate_1) => Gate::G1(gate_1.prev_spec()),
            Gate::GN(gate_n) => Gate::GN(gate_n.prev_spec()),
        }
    }

    fn next(&self) -> Self {
        match self {
            Gate::G0(gate_0) => Gate::G0(gate_0.next()),
            Gate::G1(gate_1) => Gate::G1(gate_1.next()),
            Gate::GN(gate_n) => Gate::GN(gate_n.next()),
        }
    }

    fn prev(&self) -> Self {
        match self {
            Gate::G0(gate_0) => Gate::G0(gate_0.prev()),
            Gate::G1(gate_1) => Gate::G1(gate_1.prev()),
            Gate::GN(gate_n) => Gate::GN(gate_n.prev()),
        }
    }
}

} // verus!
