//! What the persistence gateway reports back.
//!
//! The gateway itself (connections, statements, rows) lives with the caller.
//! The services only see its answers: a value on success, or a
//! [`GatewayError`] that carries the store's error code, if it gave one, and
//! its diagnostic text.

use vstd::prelude::*;
use crate::text::same_text;

verus! {

/// SQLSTATE class reported for an integrity-constraint violation.
pub const SQLSTATE_INTEGRITY_VIOLATION: &'static str = "23000";

/// Vendor code reported for a duplicate entry in a unique index.
pub const VENDOR_DUPLICATE_ENTRY: &'static str = "1062";

/// A failure reported by the persistence gateway.
#[derive(Clone, Debug, PartialEq, Eq)]
pub struct GatewayError {
    /// Error code of the store, when the failure came from the store itself.
    pub code: Option<String>,
    /// Diagnostic text, meant for logs only.
    pub message: String,
}

/// Whether `code` is one of the two codes by which the store signals a
/// duplicate key.
pub open spec fn is_duplicate_code(code: Seq<char>) -> bool {
    code == SQLSTATE_INTEGRITY_VIOLATION@ || code == VENDOR_DUPLICATE_ENTRY@
}

impl GatewayError {
    /// Whether this failure is the store's duplicate-key signal.
    pub open spec fn spec_is_duplicate_key(&self) -> bool {
        match self.code {
            Some(code) => is_duplicate_code(code@),
            None => false,
        }
    }

    /// Tells a duplicate-key signal from every other failure.
    #[verifier::when_used_as_spec(spec_is_duplicate_key)]
    pub fn is_duplicate_key(&self) -> (duplicate: bool)
        ensures
            duplicate == self.spec_is_duplicate_key(),
    {
        match &self.code {
            Some(code) => {
                same_text(code.as_str(), SQLSTATE_INTEGRITY_VIOLATION)
                    || same_text(code.as_str(), VENDOR_DUPLICATE_ENTRY)
            },
            None => false,
        }
    }
}

} // verus!
