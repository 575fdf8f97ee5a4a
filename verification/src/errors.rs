//! The error taxonomy of the core: every operation returns its result or one
//! typed failure kind.

use vstd::prelude::*;

verus! {

#[derive(Clone, Copy, PartialEq, Eq, Structural, Debug)]
pub enum CoreError {
    /// A unique field (username or email) is already taken.
    Conflict,
    /// Credential mismatch, an invalid token signature, or an expired token —
    /// deliberately one opaque kind, whatever the root cause.
    Unauthorized,
    /// The id an operation referenced is absent.
    NotFound,
    /// A cryptographic operation failed unexpectedly; never silent.
    InternalFault,
}

} // verus!
