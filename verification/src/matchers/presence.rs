//! Optional-presence checks on the optional-value container.

use vstd::prelude::*;

use crate::describe::Describe;
use crate::outcome::CheckKind;
use crate::outcome::Failure;
use crate::outcome::Outcome;

verus! {

/// Presence checks for a container that holds a value of `T` or none.
pub trait ShouldBeOption<T>: Describe + Sized {
    /// Whether the container holds a value.
    spec fn present(&self) -> bool;

    /// The held value, when present.
    spec fn held(&self) -> T
        recommends
            self.present(),
    ;

    /// Hands out the held value exactly when one is present; an absent
    /// container yields the failure `{subject} should be Some but was
    /// None`.
    fn should_be_some(&self) -> (r: Result<&T, Failure>)
        ensures
            r is Ok <==> self.present(),
            r matches Ok(v) ==> *v == self.held(),
            r matches Err(f) ==> {
                &&& f.kind == CheckKind::BeSome
                &&& f.expected is None
                &&& f.actual is None
            },
    ;

    /// Passes exactly when the container holds no value; fails with
    /// `{subject} should be None but was {actual}`, rendering the whole
    /// container as the actual value.
    fn should_be_none(&self) -> (r: Outcome)
        ensures
            r is Pass <==> !self.present(),
            r matches Outcome::Fail(f) ==> {
                &&& f.kind == CheckKind::BeNone
                &&& f.expected is None
                &&& f.actual matches Some(a) && a@ == self.text()
            },
    ;
}

impl<T: Describe> ShouldBeOption<T> for Option<T> {
    open spec fn present(&self) -> bool {
        self is Some
    }

    open spec fn held(&self) -> T {
        self->0
    }

    fn should_be_some(&self) -> (r: Result<&T, Failure>) {
        match self {
            Some(value) => Ok(value),
            None => Err(Failure { kind: CheckKind::BeSome, expected: None, actual: None }),
        }
    }

    fn should_be_none(&self) -> (r: Outcome) {
        match self {
            Some(_) => Outcome::Fail(Failure {
                kind: CheckKind::BeNone,
                expected: None,
                actual: Some(self.describe()),
            }),
            None => Outcome::Pass,
        }
    }
}

} // verus!
