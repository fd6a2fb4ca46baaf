//! What the cluster store answers, and how the controller reads its errors.
//!
//! Mapping of store errors, used everywhere in this crate:
//! - on a lookup of the child, status 404 means that the child is absent;
//! - on a create of the child, status 409 with reason `AlreadyExists` means
//!   that an earlier or concurrent attempt created it, which is success;
//! - every other error is retryable and is handed back to the runtime.
use vstd::prelude::*;

verus! {

/// HTTP status with which the store reports a missing object.
pub const NOT_FOUND: u16 = 404;

/// HTTP status with which the store reports a conflict.
pub const CONFLICT: u16 = 409;

/// Reason that accompanies a conflict on create when the name is taken.
pub const ALREADY_EXISTS: &'static str = "AlreadyExists";

/// An error answered by the store, or by the transport (`code` 0).
#[derive(Clone, Debug)]
pub struct StoreError {
    pub code: u16,
    pub reason: String,
    pub message: String,
}

impl StoreError {
    pub open spec fn spec_is_not_found(&self) -> bool {
        self.code == NOT_FOUND
    }

    pub open spec fn spec_is_already_exists(&self) -> bool {
        self.code == CONFLICT && self.reason@ == ALREADY_EXISTS@
    }

    /// The object asked for does not exist.
    #[verifier::when_used_as_spec(spec_is_not_found)]
    pub fn is_not_found(&self) -> (r: bool)
        ensures
            r == self.spec_is_not_found(),
    {
        self.code == NOT_FOUND
    }

    /// A create was refused because an object of that name exists.
    #[verifier::when_used_as_spec(spec_is_already_exists)]
    pub fn is_already_exists(&self) -> (r: bool)
        ensures
            r == self.spec_is_already_exists(),
    {
        self.code == CONFLICT && self.reason == String::from_str(ALREADY_EXISTS)
    }
}

} // verus!
