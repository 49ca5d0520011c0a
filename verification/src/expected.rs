//! The expected-value adapter: normalizes the right-hand argument of a
//! check (a bare value or a reference to one) into one owned value, used
//! both for the comparison and for the diagnostic text.

use vstd::prelude::*;

verus! {

/// A value usable as the expected side of a check: either an owned value
/// or a reference to one. `value` hands the matcher an owned copy;
/// adapting a reference never mutates or moves the referent.
pub trait Expected<T>: Sized {
    /// The value this argument stands for.
    spec fn spec_value(&self) -> T;

    /// An owned copy of the value this argument stands for.
    fn value(&self) -> (r: T)
        ensures
            r == self.spec_value(),
    ;
}

impl<T: Copy> Expected<T> for T {
    open spec fn spec_value(&self) -> T {
        *self
    }

    fn value(&self) -> (r: T) {
        *self
    }
}

impl<'a, T: Copy> Expected<T> for &'a T {
    open spec fn spec_value(&self) -> T {
        **self
    }

    fn value(&self) -> (r: T) {
        **self
    }
}

} // verus!
