//! Equality checks.
//!
//! For every pair of equal values `a == b` of a comparable category,
//! `a.should_be(b)` passes and `a.should_not_be(b)` fails; for every
//! unequal pair the converse holds: the contracts below state this for
//! all inputs, through `eq_holds`.

use vstd::prelude::*;

use crate::describe::Describe;
use crate::expected::Expected;
use crate::outcome::CheckKind;
use crate::outcome::Failure;
use crate::outcome::Outcome;

verus! {

/// Equality checks against an expected value of `T`.
pub trait ShouldBeEqual<T: Describe>: Sized {
    /// Whether this receiver counts as equal to the expected value: plain
    /// equality for a value, and for a present-value container, equality
    /// of the held value (an absent container equals nothing).
    spec fn eq_holds(&self, expected: T) -> bool;

    /// The actual-value text a failed equality check reports: the
    /// receiver's own rendering, or for a present-value container the
    /// held value's.
    spec fn eq_actual_text(&self) -> Seq<char>;

    /// Passes exactly when this receiver equals `expected`; fails with
    /// `{subject} should be {expected} but was {actual}` otherwise.
    fn should_be<E: Expected<T>>(&self, expected: E) -> (r: Outcome)
        ensures
            r is Pass <==> self.eq_holds(expected.spec_value()),
            r matches Outcome::Fail(f) ==> {
                &&& f.kind == CheckKind::Be
                &&& f.expected matches Some(e) && e@ == expected.spec_value().text()
                &&& f.actual matches Some(a) && a@ == self.eq_actual_text()
            },
    ;

    /// Passes exactly when this receiver does not equal `expected`; fails
    /// with `{subject} should not be {actual}` otherwise.
    fn should_not_be<E: Expected<T>>(&self, expected: E) -> (r: Outcome)
        ensures
            r is Pass <==> !self.eq_holds(expected.spec_value()),
            r matches Outcome::Fail(f) ==> {
                &&& f.kind == CheckKind::NotBe
                &&& f.expected is None
                &&& f.actual matches Some(a) && a@ == self.eq_actual_text()
            },
    ;
}

impl ShouldBeEqual<i32> for i32 {
    open spec fn eq_holds(&self, expected: i32) -> bool {
        *self == expected
    }

    open spec fn eq_actual_text(&self) -> Seq<char> {
        self.text()
    }

    fn should_be<E: Expected<i32>>(&self, expected: E) -> (r: Outcome) {
        let other = expected.value();
        if *self == other {
            Outcome::Pass
        } else {
            Outcome::Fail(Failure {
                kind: CheckKind::Be,
                expected: Some(other.describe()),
                actual: Some(self.describe()),
            })
        }
    }

    fn should_not_be<E: Expected<i32>>(&self, expected: E) -> (r: Outcome) {
        let other = expected.value();
        if *self != other {
            Outcome::Pass
        } else {
            Outcome::Fail(Failure {
                kind: CheckKind::NotBe,
                expected: None,
                actual: Some(self.describe()),
            })
        }
    }
}

impl ShouldBeEqual<u64> for u64 {
    open spec fn eq_holds(&self, expected: u64) -> bool {
        *self == expected
    }

    open spec fn eq_actual_text(&self) -> Seq<char> {
        self.text()
    }

    fn should_be<E: Expected<u64>>(&self, expected: E) -> (r: Outcome) {
        let other = expected.value();
        if *self == other {
            Outcome::Pass
        } else {
            Outcome::Fail(Failure {
                kind: CheckKind::Be,
                expected: Some(other.describe()),
                actual: Some(self.describe()),
            })
        }
    }

    fn should_not_be<E: Expected<u64>>(&self, expected: E) -> (r: Outcome) {
        let other = expected.value();
        if *self != other {
            Outcome::Pass
        } else {
            Outcome::Fail(Failure {
                kind: CheckKind::NotBe,
                expected: None,
                actual: Some(self.describe()),
            })
        }
    }
}

impl ShouldBeEqual<bool> for bool {
    open spec fn eq_holds(&self, expected: bool) -> bool {
        *self == expected
    }

    open spec fn eq_actual_text(&self) -> Seq<char> {
        self.text()
    }

    fn should_be<E: Expected<bool>>(&self, expected: E) -> (r: Outcome) {
        let other = expected.value();
        if *self == other {
            Outcome::Pass
        } else {
            Outcome::Fail(Failure {
                kind: CheckKind::Be,
                expected: Some(other.describe()),
                actual: Some(self.describe()),
            })
        }
    }

    fn should_not_be<E: Expected<bool>>(&self, expected: E) -> (r: Outcome) {
        let other = expected.value();
        if *self != other {
            Outcome::Pass
        } else {
            Outcome::Fail(Failure {
                kind: CheckKind::NotBe,
                expected: None,
                actual: Some(self.describe()),
            })
        }
    }
}

impl<T: Describe + ShouldBeEqual<T>> ShouldBeEqual<T> for Option<T> {
    /// An absent container equals nothing; a present one equals what its
    /// held value equals.
    open spec fn eq_holds(&self, expected: T) -> bool {
        match *self {
            Some(v) => v.eq_holds(expected),
            None => false,
        }
    }

    open spec fn eq_actual_text(&self) -> Seq<char> {
        match *self {
            Some(v) => v.eq_actual_text(),
            None => "None"@,
        }
    }

    /// A present container delegates to the held value's own check; an
    /// absent one fails directly.
    fn should_be<E: Expected<T>>(&self, expected: E) -> (r: Outcome) {
        match self {
            Some(value) => value.should_be(expected),
            None => Outcome::Fail(Failure {
                kind: CheckKind::Be,
                expected: Some(expected.value().describe()),
                actual: Some("None".to_owned()),
            }),
        }
    }

    /// A present container delegates to the held value's own check; an
    /// absent one passes, since absence can never equal a present
    /// expected value.
    fn should_not_be<E: Expected<T>>(&self, expected: E) -> (r: Outcome) {
        match self {
            Some(value) => value.should_not_be(expected),
            None => Outcome::Pass,
        }
    }
}

/// For equal values, `should_be` passes and `should_not_be` fails; for
/// unequal values the converse holds (by the contracts above, which tie
/// passing to `eq_holds`).
pub proof fn lemma_equality_decides_checks(a: i32, b: i32)
    ensures
        a == b ==> a.eq_holds(b),
        a != b ==> !a.eq_holds(b),
{
}

/// An absent container counts as equal to no expected value, so its
/// `should_not_be` passes for every expected value and its `should_be`
/// fails for every expected value (by the contracts above, which tie
/// passing to `eq_holds`).
pub proof fn lemma_absent_equals_nothing<T: Describe + ShouldBeEqual<T>>(expected: T)
    ensures
        !None::<T>.eq_holds(expected),
{
}

/// A present container behaves under equality checks exactly as its held
/// value does: it counts as equal to the same expected values, and a
/// failure reports the held value's own actual text.
pub proof fn lemma_present_equality_delegates<T: Describe + ShouldBeEqual<T>>(held: T, expected: T)
    ensures
        Some(held).eq_holds(expected) == held.eq_holds(expected),
        Some(held).eq_actual_text() == held.eq_actual_text(),
{
}

} // verus!
