//! Identity (aliasing) checks: same underlying storage, not value
//! equality.
//!
//! Storage identity lies outside the value model the contracts are
//! written in, so these checks carry the one claim that model supports:
//! two references to the same storage hold equal values. A passing
//! `should_be_same` therefore guarantees value equality, and a failing
//! `should_not_be_same` does too; nothing is claimed in the converse
//! directions, since distinct storage may well hold equal values.

use vstd::prelude::*;

use crate::describe::Describe;
use crate::outcome::CheckKind;
use crate::outcome::Failure;
use crate::outcome::Outcome;

verus! {

/// Relies on std::ptr::eq: true exactly when the two references address
/// the same storage, in which case they read the same value.
#[verifier::external_body]
fn same_storage<T>(a: &T, b: &T) -> (r: bool)
    ensures
        r ==> a == b,
{
    std::ptr::eq(a, b)
}

/// Identity checks against another reference of the same category.
pub trait ShouldBeSame: Describe + Sized {
    /// Passes only when both references address the same storage (and
    /// the values are then equal); fails with `{subject} should be the
    /// same as {expected} but was not`.
    fn should_be_same(&self, other: &Self) -> (r: Outcome)
        ensures
            r is Pass ==> *self == *other,
            r matches Outcome::Fail(f) ==> {
                &&& f.kind == CheckKind::BeSame
                &&& f.expected matches Some(e) && e@ == other.text()
                &&& f.actual is None
            },
    ;

    /// Fails only when both references address the same storage (and the
    /// values are then equal), with `{subject} should not be the same as
    /// {actual}`.
    fn should_not_be_same(&self, other: &Self) -> (r: Outcome)
        ensures
            r matches Outcome::Fail(f) ==> {
                &&& *self == *other
                &&& f.kind == CheckKind::NotBeSame
                &&& f.actual matches Some(a) && a@ == other.text()
                &&& f.expected is None
            },
    ;
}

impl<T: Describe> ShouldBeSame for T {
    fn should_be_same(&self, other: &Self) -> (r: Outcome) {
        if same_storage(self, other) {
            Outcome::Pass
        } else {
            Outcome::Fail(Failure {
                kind: CheckKind::BeSame,
                expected: Some(other.describe()),
                actual: None,
            })
        }
    }

    fn should_not_be_same(&self, other: &Self) -> (r: Outcome) {
        if same_storage(self, other) {
            Outcome::Fail(Failure {
                kind: CheckKind::NotBeSame,
                expected: None,
                actual: Some(other.describe()),
            })
        } else {
            Outcome::Pass
        }
    }
}

} // verus!
