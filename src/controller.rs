//! The reconciler: the phase state machine of an At object.
use vstd::prelude::*;

use crate::resource::At;
use crate::store::StoreError;

verus! {

/// A key of an object's metadata that the reconciler needs.
#[derive(Clone, Copy, Debug, PartialEq, Eq, Structural)]
pub enum ObjectKey {
    Name,
    Namespace,
    Uid,
    ResourceVersion,
}

impl ObjectKey {
    /// Path of the key within the object, as reported in errors.
    pub fn path(&self) -> (r: &'static str)
        ensures
            r@ == match self {
                ObjectKey::Name => ".metadata.name"@,
                ObjectKey::Namespace => ".metadata.namespace"@,
                ObjectKey::Uid => ".metadata.uid"@,
                ObjectKey::ResourceVersion => ".metadata.resourceVersion"@,
            },
    {
        match self {
            ObjectKey::Name => ".metadata.name",
            ObjectKey::Namespace => ".metadata.namespace",
            ObjectKey::Uid => ".metadata.uid",
            ObjectKey::ResourceVersion => ".metadata.resourceVersion",
        }
    }
}

/// Why one reconcile attempt failed. Every variant is retryable: the runtime
/// backs off and reconciles again from a fresh read.
#[derive(Clone, Debug)]
pub enum Error {
    /// Looking up the child failed.
    GetPod(StoreError),
    /// Creating the child failed.
    CreatePod(StoreError),
    /// Writing the status failed.
    PatchStatus(StoreError),
    /// The snapshot lacks a key that a persisted object has.
    MissingObjectKey(ObjectKey),
}

/// When the runtime should reconcile the object again of its own accord.
#[derive(Clone, Copy, Debug, PartialEq, Eq, Structural)]
pub struct ReconcilerAction {
    /// `None`: only on the next watch event; `Some(ms)`: after `ms` milliseconds.
    pub requeue_after: Option<u64>,
}

/// Name of the object, or the error that it has none.
pub fn get_name_ref(at: &At) -> (r: Result<&String, Error>)
    ensures
        match at.metadata.name {
            Some(n) => r == Ok::<&String, Error>(&n),
            None => r matches Err(Error::MissingObjectKey(ObjectKey::Name)),
        },
{
    match &at.metadata.name {
        Some(n) => Ok(n),
        None => Err(Error::MissingObjectKey(ObjectKey::Name)),
    }
}

/// Namespace of the object, or the error that it has none.
pub fn get_namespace_ref(at: &At) -> (r: Result<&String, Error>)
    ensures
        match at.metadata.namespace {
            Some(n) => r == Ok::<&String, Error>(&n),
            None => r matches Err(Error::MissingObjectKey(ObjectKey::Namespace)),
        },
{
    match &at.metadata.namespace {
        Some(n) => Ok(n),
        None => Err(Error::MissingObjectKey(ObjectKey::Namespace)),
    }
}

/// Delay, in milliseconds, after which a failed reconcile is tried again.
pub const ERROR_REQUEUE_MILLIS: u64 = 5_000;

/// What the runtime does after a failed reconcile: every error is retryable,
/// so the object is always reconciled again, from a fresh read, after
/// `ERROR_REQUEUE_MILLIS`.
pub fn error_policy(error: &Error) -> (r: ReconcilerAction)
    ensures
        r.requeue_after == Some(ERROR_REQUEUE_MILLIS),
        r.requeue_after matches Some(ms) && ms > 0,
{
    ReconcilerAction { requeue_after: Some(ERROR_REQUEUE_MILLIS) }
}

} // verus!
