use vstd::prelude::*;

verus! {

/// Both incrementable and decrementable: advancing or retreating wraps around
/// a fixed ordered set of values.
pub trait Scrollable: Sized {
    /// What `next` returns.
    spec fn next_spec(&self) -> Self;

    /// What `prev` returns.
    spec fn prev_spec(&self) -> Self;

    /// Get the next value for the object.
    fn next(&self) -> (r: Self)
        ensures
            r == self.next_spec(),
    ;

    /// Get the previous value for the object.
    fn prev(&self) -> (r: Self)
        ensures
            r == self.prev_spec(),
    ;

    /// Set the object's value to that of `next()`.
    fn incr(&mut self)
        ensures
            *final(self) == old(self).next_spec(),
    {
        *self = self.next();
    }

    /// Set the object's value to that of `prev()`.
    fn decr(&mut self)
        ensures
            *final(self) == old(self).prev_spec(),
    {
        *self = self.prev();
    }
}

} // verus!
