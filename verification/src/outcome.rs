//! The outcome of a check and the diagnostic formatter.
//!
//! A check evaluates its predicate and returns an [`Outcome`]: `Pass`, or
//! `Fail` with a [`Failure`] holding the operation kind and the rendered
//! expected/actual values. The subject name (the literal source text of
//! the receiver) is only known to the caller that resolves the call site,
//! so [`Failure::message`] takes it as an argument and composes the final
//! single-line diagnostic from the fixed template of the kind.

use vstd::prelude::*;
use vstd::string::StringExecFns;

verus! {

/// The operation a failed check was performing; selects the message template.
#[derive(Clone, Copy, PartialEq, Eq, Structural, Debug)]
pub enum CheckKind {
    /// `should_be`: `{subject} should be {expected} but was {actual}`
    Be,
    /// `should_not_be`: `{subject} should not be {actual}`
    NotBe,
    /// `should_be_lt`: `{subject} should be less than {expected} but was {actual}`
    Lt,
    /// `should_be_le`: `{subject} should be less than or equal to {expected} but was {actual}`
    Le,
    /// `should_be_gt`: `{subject} should be greater than {expected} but was {actual}`
    Gt,
    /// `should_be_ge`: `{subject} should be greater than or equal to {expected} but was {actual}`
    Ge,
    /// `should_be_some`: `{subject} should be Some but was None`
    BeSome,
    /// `should_be_none`: `{subject} should be None but was {actual}`
    BeNone,
    /// `should_be_empty`: `{subject} should be empty but was {actual}`
    BeEmpty,
    /// `should_not_be_empty`: `{subject} should not be empty`
    NotBeEmpty,
    /// `should_be_ok`: `{subject} should be Ok but was {actual}`
    BeOk,
    /// `should_be_err`: `{subject} should be Err but was {actual}`
    BeErr,
    /// `should_be_same`: `{subject} should be the same as {expected} but was not`
    BeSame,
    /// `should_not_be_same`: `{subject} should not be the same as {actual}`
    NotBeSame,
}

/// Everything a failed check knows without the call site: the operation
/// kind and the rendered expected and actual values (absent for the kinds
/// whose template has no such slot).
pub struct Failure {
    pub kind: CheckKind,
    pub expected: Option<String>,
    pub actual: Option<String>,
}

/// What a check returns: silence, or a failure to be reported.
pub enum Outcome {
    Pass,
    Fail(Failure),
}

/// The rendered text of an optional message slot; empty when absent.
pub open spec fn slot_text(s: Option<String>) -> Seq<char> {
    match s {
        Some(t) => t@,
        None => Seq::<char>::empty(),
    }
}

/// The fixed-template diagnostic for a failure, given the subject name.
pub open spec fn message_text(f: Failure, subject: Seq<char>) -> Seq<char> {
    let e = slot_text(f.expected);
    let a = slot_text(f.actual);
    match f.kind {
        CheckKind::Be => subject + " should be "@ + e + " but was "@ + a,
        CheckKind::NotBe => subject + " should not be "@ + a,
        CheckKind::Lt => subject + " should be less than "@ + e + " but was "@ + a,
        CheckKind::Le => subject + " should be less than or equal to "@ + e + " but was "@ + a,
        CheckKind::Gt => subject + " should be greater than "@ + e + " but was "@ + a,
        CheckKind::Ge => subject + " should be greater than or equal to "@ + e + " but was "@ + a,
        CheckKind::BeSome => subject + " should be Some but was None"@,
        CheckKind::BeNone => subject + " should be None but was "@ + a,
        CheckKind::BeEmpty => subject + " should be empty but was "@ + a,
        CheckKind::NotBeEmpty => subject + " should not be empty"@,
        CheckKind::BeOk => subject + " should be Ok but was "@ + a,
        CheckKind::BeErr => subject + " should be Err but was "@ + a,
        CheckKind::BeSame => subject + " should be the same as "@ + e + " but was not"@,
        CheckKind::NotBeSame => subject + " should not be the same as "@ + a,
    }
}

impl Failure {
    /// Renders the optional expected slot onto `out`.
    fn append_slot(out: &mut String, slot: &Option<String>)
        ensures
            final(out)@ == old(out)@ + slot_text(*slot),
    {
        match slot {
            Some(t) => {
                out.append(t.as_str());
            },
            None => {
                assert(out@ =~= out@ + Seq::<char>::empty());
            },
        }
    }

    /// The diagnostic formatter: composes the single-line message for this
    /// failure from the fixed template of its kind and the given subject
    /// name.
    pub fn message(&self, subject: &str) -> (r: String)
        ensures
            r@ == message_text(*self, subject@),
    {
        let mut out = subject.to_owned();
        match self.kind {
            CheckKind::Be => {
                out.append(" should be ");
                Self::append_slot(&mut out, &self.expected);
                out.append(" but was ");
                Self::append_slot(&mut out, &self.actual);
            },
            CheckKind::NotBe => {
                out.append(" should not be ");
                Self::append_slot(&mut out, &self.actual);
            },
            CheckKind::Lt => {
                out.append(" should be less than ");
                Self::append_slot(&mut out, &self.expected);
                out.append(" but was ");
                Self::append_slot(&mut out, &self.actual);
            },
            CheckKind::Le => {
                out.append(" should be less than or equal to ");
                Self::append_slot(&mut out, &self.expected);
                out.append(" but was ");
                Self::append_slot(&mut out, &self.actual);
            },
            CheckKind::Gt => {
                out.append(" should be greater than ");
                Self::append_slot(&mut out, &self.expected);
                out.append(" but was ");
                Self::append_slot(&mut out, &self.actual);
            },
            CheckKind::Ge => {
                out.append(" should be greater than or equal to ");
                Self::append_slot(&mut out, &self.expected);
                out.append(" but was ");
                Self::append_slot(&mut out, &self.actual);
            },
            CheckKind::BeSome => {
                out.append(" should be Some but was None");
            },
            CheckKind::BeNone => {
                out.append(" should be None but was ");
                Self::append_slot(&mut out, &self.actual);
            },
            CheckKind::BeEmpty => {
                out.append(" should be empty but was ");
                Self::append_slot(&mut out, &self.actual);
            },
            CheckKind::NotBeEmpty => {
                out.append(" should not be empty");
            },
            CheckKind::BeOk => {
                out.append(" should be Ok but was ");
                Self::append_slot(&mut out, &self.actual);
            },
            CheckKind::BeErr => {
                out.append(" should be Err but was ");
                Self::append_slot(&mut out, &self.actual);
            },
            CheckKind::BeSame => {
                out.append(" should be the same as ");
                Self::append_slot(&mut out, &self.expected);
                out.append(" but was not");
            },
            CheckKind::NotBeSame => {
                out.append(" should not be the same as ");
                Self::append_slot(&mut out, &self.actual);
            },
        }
        out
    }
}

impl Outcome {
    /// Whether the check passed.
    pub open spec fn spec_passed(&self) -> bool {
        self is Pass
    }

    /// Whether the check passed.
    pub fn passed(&self) -> (r: bool)
        ensures
            r == self.spec_passed(),
    {
        match self {
            Outcome::Pass => true,
            Outcome::Fail(_) => false,
        }
    }

    /// The failure, if the check failed.
    pub fn failure(self) -> (r: Option<Failure>)
        ensures
            self is Pass ==> r is None,
            self matches Outcome::Fail(f) ==> r == Some(f),
    {
        match self {
            Outcome::Pass => None,
            Outcome::Fail(f) => Some(f),
        }
    }
}

} // verus!
