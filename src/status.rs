//! The status writer: a merge patch of the status phase.
use vstd::prelude::*;

use crate::controller::{Error, ObjectKey};
use crate::resource::{At, AtPhase};

verus! {

/// A merge patch of `status.phase` on the status subresource of one At.
///
/// Only `status.phase` changes. The patch carries the version token of the
/// snapshot it was computed from as a precondition, so that the store refuses
/// it with a conflict when the object changed since that read; a patch is
/// never sent without one.
#[derive(Clone, Debug)]
pub struct StatusPatch {
    pub namespace: String,
    pub name: String,
    pub resource_version: String,
    pub phase: AtPhase,
}

/// The error for a snapshot that lacks its namespace, its name or its
/// version token, looked at in that order.
pub open spec fn missing_key_error(at: At) -> Error {
    if at.metadata.namespace is None {
        Error::MissingObjectKey(ObjectKey::Namespace)
    } else if at.metadata.name is None {
        Error::MissingObjectKey(ObjectKey::Name)
    } else {
        Error::MissingObjectKey(ObjectKey::ResourceVersion)
    }
}

/// `p` moves `at` to `phase`, conditioned on the snapshot's version.
pub open spec fn is_status_patch(p: StatusPatch, at: At, phase: AtPhase) -> bool {
    &&& at.metadata.namespace == Some(p.namespace)
    &&& at.metadata.name == Some(p.name)
    &&& at.metadata.resource_version == Some(p.resource_version)
    &&& p.phase == phase
}

/// The patch that moves `at` to `phase`; fails when `at` lacks its key or
/// its version token.
pub fn to_next_phase(at: &At, phase: AtPhase) -> (r: Result<StatusPatch, Error>)
    ensures
        match r {
            Ok(p) => is_status_patch(p, *at, phase),
            Err(e) => e == missing_key_error(*at),
        },
        r is Ok <==> at.can_patch(),
{
    let namespace = match &at.metadata.namespace {
        Some(n) => n.clone(),
        None => return Err(Error::MissingObjectKey(ObjectKey::Namespace)),
    };
    let name = match &at.metadata.name {
        Some(n) => n.clone(),
        None => return Err(Error::MissingObjectKey(ObjectKey::Name)),
    };
    let resource_version = match &at.metadata.resource_version {
        Some(v) => v.clone(),
        None => return Err(Error::MissingObjectKey(ObjectKey::ResourceVersion)),
    };
    Ok(StatusPatch { namespace, name, resource_version, phase })
}

} // verus!
