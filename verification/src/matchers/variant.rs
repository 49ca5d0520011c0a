//! Result-variant checks.

use vstd::prelude::*;

use crate::describe::Describe;
use crate::outcome::CheckKind;
use crate::outcome::Failure;
use crate::outcome::Outcome;

verus! {

/// Variant checks for a value that holds either a success of `T` or a
/// failure.
pub trait ShouldResult<T>: Describe + Sized {
    /// Whether the value holds the success variant.
    spec fn ok_holds(&self) -> bool;

    /// Passes exactly when the value holds the success variant; fails
    /// with `{subject} should be Ok but was {actual}`, rendering the
    /// whole value as the actual value.
    fn should_be_ok(&self) -> (r: Outcome)
        ensures
            r is Pass <==> self.ok_holds(),
            r matches Outcome::Fail(f) ==> {
                &&& f.kind == CheckKind::BeOk
                &&& f.expected is None
                &&& f.actual matches Some(a) && a@ == self.text()
            },
    ;

    /// Passes exactly when the value holds the failure variant; fails
    /// with `{subject} should be Err but was {actual}`, rendering the
    /// whole value as the actual value.
    fn should_be_err(&self) -> (r: Outcome)
        ensures
            r is Pass <==> !self.ok_holds(),
            r matches Outcome::Fail(f) ==> {
                &&& f.kind == CheckKind::BeErr
                &&& f.expected is None
                &&& f.actual matches Some(a) && a@ == self.text()
            },
    ;
}

impl<T: Describe, E: Describe> ShouldResult<T> for Result<T, E> {
    open spec fn ok_holds(&self) -> bool {
        self is Ok
    }

    fn should_be_ok(&self) -> (r: Outcome) {
        match self {
            Ok(_) => Outcome::Pass,
            Err(_) => Outcome::Fail(Failure {
                kind: CheckKind::BeOk,
                expected: None,
                actual: Some(self.describe()),
            }),
        }
    }

    fn should_be_err(&self) -> (r: Outcome) {
        match self {
            Ok(_) => Outcome::Fail(Failure {
                kind: CheckKind::BeErr,
                expected: None,
                actual: Some(self.describe()),
            }),
            Err(_) => Outcome::Pass,
        }
    }
}

} // verus!
