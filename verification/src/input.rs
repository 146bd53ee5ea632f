use vstd::prelude::*;

verus! {

/// A logical editor action. The mapping from raw device bindings (keys,
/// mouse buttons, scroll wheel) to these actions lives with the windowing
/// glue, outside this library.
#[derive(Clone, Copy, Hash, PartialEq, Eq, Structural, Debug)]
pub enum Input {
    CreateNode,
    DestroyHovered,
    IncrementGate,
    DecrementGate,
    IncrementElbow,
    DecrementElbow,
}

} // verus!
