//! The matcher interfaces: one capability-constrained family of check
//! operations per category of values, each returning an [`crate::Outcome`]
//! whose failure pins the operation kind and the rendered expected and
//! actual values.

pub mod emptiness;
pub mod equality;
pub mod identity;
pub mod ordering;
pub mod presence;
pub mod variant;
