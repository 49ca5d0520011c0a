//! A matcher toolkit: chainable check operations (`should_be`,
//! `should_be_lt`, `should_be_some`, ...) whose outcome carries a fully
//! formed diagnostic, together with the call-site machinery that recovers
//! the literal source text of the expression under check.

pub mod describe;
pub mod expected;
pub mod locate;
pub mod matchers;
pub mod outcome;
pub mod subject;

pub use describe::Describe;
pub use expected::Expected;
pub use locate::locate_caller;
pub use locate::parse_location;
pub use matchers::emptiness::ShouldBeEmpty;
pub use matchers::equality::ShouldBeEqual;
pub use matchers::identity::ShouldBeSame;
pub use matchers::ordering::ShouldBeOrdered;
pub use matchers::presence::ShouldBeOption;
pub use matchers::variant::ShouldResult;
pub use outcome::CheckKind;
pub use outcome::Failure;
pub use outcome::Outcome;
pub use subject::extract_subject;
pub use subject::subject_or_unknown;
