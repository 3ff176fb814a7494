//! Shared error taxonomy for every fallible operation of the crate.

use vstd::prelude::*;

verus! {

/// `Error` is the error type of the crate. Every failure is a permanent
/// rejection of the offending input; no kind is transient or retryable.
#[derive(Clone, Copy, Debug, PartialEq, Eq, Structural)]
pub enum Error {
    /// A length or charset constraint failed while validating a code.
    InvalidFormat,
    /// A structurally valid country code is not present in the registry.
    CodeNotFound,
    /// The embedded registry data set itself failed to parse: a
    /// build or packaging defect, never a user-input defect.
    LoadError,
}

} // verus!
