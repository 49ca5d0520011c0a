//! Emptiness checks on dynamic sequences.

use vstd::prelude::*;

use crate::describe::Describe;
use crate::outcome::CheckKind;
use crate::outcome::Failure;
use crate::outcome::Outcome;

verus! {

/// Emptiness checks for a container with a length.
pub trait ShouldBeEmpty: Describe + Sized {
    /// Whether the container has zero length.
    spec fn empty_holds(&self) -> bool;

    /// Passes exactly when the container is empty; fails with
    /// `{subject} should be empty but was {actual}`, rendering the
    /// contents as the actual value.
    fn should_be_empty(&self) -> (r: Outcome)
        ensures
            r is Pass <==> self.empty_holds(),
            r matches Outcome::Fail(f) ==> {
                &&& f.kind == CheckKind::BeEmpty
                &&& f.expected is None
                &&& f.actual matches Some(a) && a@ == self.text()
            },
    ;

    /// Passes exactly when the container is not empty; fails with
    /// `{subject} should not be empty`.
    fn should_not_be_empty(&self) -> (r: Outcome)
        ensures
            r is Pass <==> !self.empty_holds(),
            r matches Outcome::Fail(f) ==> {
                &&& f.kind == CheckKind::NotBeEmpty
                &&& f.expected is None
                &&& f.actual is None
            },
    ;
}

impl<T: Describe> ShouldBeEmpty for Vec<T> {
    open spec fn empty_holds(&self) -> bool {
        self@.len() == 0
    }

    fn should_be_empty(&self) -> (r: Outcome) {
        if self.len() == 0 {
            Outcome::Pass
        } else {
            Outcome::Fail(Failure {
                kind: CheckKind::BeEmpty,
                expected: None,
                actual: Some(self.describe()),
            })
        }
    }

    fn should_not_be_empty(&self) -> (r: Outcome) {
        if self.len() != 0 {
            Outcome::Pass
        } else {
            Outcome::Fail(Failure { kind: CheckKind::NotBeEmpty, expected: None, actual: None })
        }
    }
}

} // verus!
