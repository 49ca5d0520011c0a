//! Ordering checks.
//!
//! For every ordered pair `a < b` of an orderable category,
//! `a.should_be_lt(b)` and `a.should_be_le(b)` pass while
//! `a.should_be_gt(b)` and `a.should_be_ge(b)` fail, and symmetrically:
//! the contracts below state this for all inputs, through the four
//! `*_holds` relations.

use vstd::prelude::*;

use crate::describe::Describe;
use crate::expected::Expected;
use crate::outcome::CheckKind;
use crate::outcome::Failure;
use crate::outcome::Outcome;

verus! {

/// Ordering checks against an expected value of `T`.
pub trait ShouldBeOrdered<T: Describe>: Sized {
    /// Whether this receiver counts as less than the expected value; for
    /// a present-value container, whether the held value does (an absent
    /// container is ordered against nothing).
    spec fn lt_holds(&self, expected: T) -> bool;

    /// As `lt_holds`, for less-than-or-equal.
    spec fn le_holds(&self, expected: T) -> bool;

    /// As `lt_holds`, for greater-than.
    spec fn gt_holds(&self, expected: T) -> bool;

    /// As `lt_holds`, for greater-than-or-equal.
    spec fn ge_holds(&self, expected: T) -> bool;

    /// The actual-value text a failed ordering check reports: the
    /// receiver's own rendering, or for a present-value container the
    /// held value's.
    spec fn ord_actual_text(&self) -> Seq<char>;

    /// Passes exactly when this receiver is less than `expected`; fails
    /// with `{subject} should be less than {expected} but was {actual}`
    /// otherwise.
    fn should_be_lt<E: Expected<T>>(&self, expected: E) -> (r: Outcome)
        ensures
            r is Pass <==> self.lt_holds(expected.spec_value()),
            r matches Outcome::Fail(f) ==> {
                &&& f.kind == CheckKind::Lt
                &&& f.expected matches Some(e) && e@ == expected.spec_value().text()
                &&& f.actual matches Some(a) && a@ == self.ord_actual_text()
            },
    ;

    /// Passes exactly when this receiver is at most `expected`; fails with
    /// `{subject} should be less than or equal to {expected} but was
    /// {actual}` otherwise.
    fn should_be_le<E: Expected<T>>(&self, expected: E) -> (r: Outcome)
        ensures
            r is Pass <==> self.le_holds(expected.spec_value()),
            r matches Outcome::Fail(f) ==> {
                &&& f.kind == CheckKind::Le
                &&& f.expected matches Some(e) && e@ == expected.spec_value().text()
                &&& f.actual matches Some(a) && a@ == self.ord_actual_text()
            },
    ;

    /// Passes exactly when this receiver is greater than `expected`; fails
    /// with `{subject} should be greater than {expected} but was {actual}`
    /// otherwise.
    fn should_be_gt<E: Expected<T>>(&self, expected: E) -> (r: Outcome)
        ensures
            r is Pass <==> self.gt_holds(expected.spec_value()),
            r matches Outcome::Fail(f) ==> {
                &&& f.kind == CheckKind::Gt
                &&& f.expected matches Some(e) && e@ == expected.spec_value().text()
                &&& f.actual matches Some(a) && a@ == self.ord_actual_text()
            },
    ;

    /// Passes exactly when this receiver is at least `expected`; fails
    /// with `{subject} should be greater than or equal to {expected} but
    /// was {actual}` otherwise.
    fn should_be_ge<E: Expected<T>>(&self, expected: E) -> (r: Outcome)
        ensures
            r is Pass <==> self.ge_holds(expected.spec_value()),
            r matches Outcome::Fail(f) ==> {
                &&& f.kind == CheckKind::Ge
                &&& f.expected matches Some(e) && e@ == expected.spec_value().text()
                &&& f.actual matches Some(a) && a@ == self.ord_actual_text()
            },
    ;
}

impl ShouldBeOrdered<i32> for i32 {
    open spec fn lt_holds(&self, expected: i32) -> bool {
        *self < expected
    }

    open spec fn le_holds(&self, expected: i32) -> bool {
        *self <= expected
    }

    open spec fn gt_holds(&self, expected: i32) -> bool {
        *self > expected
    }

    open spec fn ge_holds(&self, expected: i32) -> bool {
        *self >= expected
    }

    open spec fn ord_actual_text(&self) -> Seq<char> {
        self.text()
    }

    fn should_be_lt<E: Expected<i32>>(&self, expected: E) -> (r: Outcome) {
        let other = expected.value();
        if *self < other {
            Outcome::Pass
        } else {
            Outcome::Fail(Failure {
                kind: CheckKind::Lt,
                expected: Some(other.describe()),
                actual: Some(self.describe()),
            })
        }
    }

    fn should_be_le<E: Expected<i32>>(&self, expected: E) -> (r: Outcome) {
        let other = expected.value();
        if *self <= other {
            Outcome::Pass
        } else {
            Outcome::Fail(Failure {
                kind: CheckKind::Le,
                expected: Some(other.describe()),
                actual: Some(self.describe()),
            })
        }
    }

    fn should_be_gt<E: Expected<i32>>(&self, expected: E) -> (r: Outcome) {
        let other = expected.value();
        if *self > other {
            Outcome::Pass
        } else {
            Outcome::Fail(Failure {
                kind: CheckKind::Gt,
                expected: Some(other.describe()),
                actual: Some(self.describe()),
            })
        }
    }

    fn should_be_ge<E: Expected<i32>>(&self, expected: E) -> (r: Outcome) {
        let other = expected.value();
        if *self >= other {
            Outcome::Pass
        } else {
            Outcome::Fail(Failure {
                kind: CheckKind::Ge,
                expected: Some(other.describe()),
                actual: Some(self.describe()),
            })
        }
    }
}

impl ShouldBeOrdered<u64> for u64 {
    open spec fn lt_holds(&self, expected: u64) -> bool {
        *self < expected
    }

    open spec fn le_holds(&self, expected: u64) -> bool {
        *self <= expected
    }

    open spec fn gt_holds(&self, expected: u64) -> bool {
        *self > expected
    }

    open spec fn ge_holds(&self, expected: u64) -> bool {
        *self >= expected
    }

    open spec fn ord_actual_text(&self) -> Seq<char> {
        self.text()
    }

    fn should_be_lt<E: Expected<u64>>(&self, expected: E) -> (r: Outcome) {
        let other = expected.value();
        if *self < other {
            Outcome::Pass
        } else {
            Outcome::Fail(Failure {
                kind: CheckKind::Lt,
                expected: Some(other.describe()),
                actual: Some(self.describe()),
            })
        }
    }

    fn should_be_le<E: Expected<u64>>(&self, expected: E) -> (r: Outcome) {
        let other = expected.value();
        if *self <= other {
            Outcome::Pass
        } else {
            Outcome::Fail(Failure {
                kind: CheckKind::Le,
                expected: Some(other.describe()),
                actual: Some(self.describe()),
            })
        }
    }

    fn should_be_gt<E: Expected<u64>>(&self, expected: E) -> (r: Outcome) {
        let other = expected.value();
        if *self > other {
            Outcome::Pass
        } else {
            Outcome::Fail(Failure {
                kind: CheckKind::Gt,
                expected: Some(other.describe()),
                actual: Some(self.describe()),
            })
        }
    }

    fn should_be_ge<E: Expected<u64>>(&self, expected: E) -> (r: Outcome) {
        let other = expected.value();
        if *self >= other {
            Outcome::Pass
        } else {
            Outcome::Fail(Failure {
                kind: CheckKind::Ge,
                expected: Some(other.describe()),
                actual: Some(self.describe()),
            })
        }
    }
}

impl<T: Describe + ShouldBeOrdered<T>> ShouldBeOrdered<T> for Option<T> {
    open spec fn lt_holds(&self, expected: T) -> bool {
        match *self {
            Some(v) => v.lt_holds(expected),
            None => false,
        }
    }

    open spec fn le_holds(&self, expected: T) -> bool {
        match *self {
            Some(v) => v.le_holds(expected),
            None => false,
        }
    }

    open spec fn gt_holds(&self, expected: T) -> bool {
        match *self {
            Some(v) => v.gt_holds(expected),
            None => false,
        }
    }

    open spec fn ge_holds(&self, expected: T) -> bool {
        match *self {
            Some(v) => v.ge_holds(expected),
            None => false,
        }
    }

    open spec fn ord_actual_text(&self) -> Seq<char> {
        match *self {
            Some(v) => v.ord_actual_text(),
            None => "None"@,
        }
    }

    /// A present container delegates to the held value's own check; an
    /// absent one fails directly, reporting `None` as the actual value.
    fn should_be_lt<E: Expected<T>>(&self, expected: E) -> (r: Outcome) {
        match self {
            Some(value) => value.should_be_lt(expected),
            None => Outcome::Fail(Failure {
                kind: CheckKind::Lt,
                expected: Some(expected.value().describe()),
                actual: Some("None".to_owned()),
            }),
        }
    }

    /// As `should_be_lt`.
    fn should_be_le<E: Expected<T>>(&self, expected: E) -> (r: Outcome) {
        match self {
            Some(value) => value.should_be_le(expected),
            None => Outcome::Fail(Failure {
                kind: CheckKind::Le,
                expected: Some(expected.value().describe()),
                actual: Some("None".to_owned()),
            }),
        }
    }

    /// As `should_be_lt`.
    fn should_be_gt<E: Expected<T>>(&self, expected: E) -> (r: Outcome) {
        match self {
            Some(value) => value.should_be_gt(expected),
            None => Outcome::Fail(Failure {
                kind: CheckKind::Gt,
                expected: Some(expected.value().describe()),
                actual: Some("None".to_owned()),
            }),
        }
    }

    /// As `should_be_lt`.
    fn should_be_ge<E: Expected<T>>(&self, expected: E) -> (r: Outcome) {
        match self {
            Some(value) => value.should_be_ge(expected),
            None => Outcome::Fail(Failure {
                kind: CheckKind::Ge,
                expected: Some(expected.value().describe()),
                actual: Some("None".to_owned()),
            }),
        }
    }
}

/// For values ordered `a < b`, `should_be_lt` and `should_be_le` pass
/// while `should_be_gt` and `should_be_ge` fail (by the contracts above,
/// which tie passing to the four relations).
pub proof fn lemma_strict_order_decides_checks(a: i32, b: i32)
    requires
        a < b,
    ensures
        a.lt_holds(b),
        a.le_holds(b),
        !a.gt_holds(b),
        !a.ge_holds(b),
{
}

/// A present container behaves under ordering checks exactly as its held
/// value does: the four relations agree, and a failure reports the held
/// value's own actual text.
pub proof fn lemma_present_ordering_delegates<T: Describe + ShouldBeOrdered<T>>(held: T, expected: T)
    ensures
        Some(held).lt_holds(expected) == held.lt_holds(expected),
        Some(held).le_holds(expected) == held.le_holds(expected),
        Some(held).gt_holds(expected) == held.gt_holds(expected),
        Some(held).ge_holds(expected) == held.ge_holds(expected),
        Some(held).ord_actual_text() == held.ord_actual_text(),
{
}

/// An absent container is ordered against nothing: every ordering check
/// on it fails, whatever the expected value (by the contracts above).
pub proof fn lemma_absent_ordered_against_nothing<T: Describe + ShouldBeOrdered<T>>(expected: T)
    ensures
        !None::<T>.lt_holds(expected),
        !None::<T>.le_holds(expected),
        !None::<T>.gt_holds(expected),
        !None::<T>.ge_holds(expected),
{
}

} // verus!
