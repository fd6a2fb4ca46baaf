//! The `At` custom resource: identity, declared intent and status.
use vstd::prelude::*;

use crate::time::Timestamp;

verus! {

/// API group of the `At` kind.
pub const GROUP: &'static str = "example.kazk.dev";

/// API version of the `At` kind within its group.
pub const VERSION: &'static str = "v1alpha1";

/// Kind name of the resource.
pub const KIND: &'static str = "At";

/// Name under which the resource definition is installed (`<plural>.<group>`).
pub const CRD_NAME: &'static str = "ats.example.kazk.dev";

/// Describes the status of the scheduled command.
#[derive(Clone, Copy, Debug, PartialEq, Eq, Structural)]
pub enum AtPhase {
    /// The command is currently running.
    Running,
    /// The command was executed.
    Done,
}

/// Status for custom resource At.
#[derive(Clone, Copy, Debug, PartialEq, Eq, Structural)]
pub struct AtStatus {
    /// Set to Running when it is time to execute the command, and to Done
    /// when the command has finished.
    pub phase: AtPhase,
}

/// Spec for custom resource At.
#[derive(Clone, Debug)]
pub struct AtSpec {
    /// When to execute the command.
    pub schedule: Timestamp,
    /// The command to run, program first.
    pub command: Vec<String>,
}

/// The identity of an object as the store assigned it.
#[derive(Clone, Debug)]
pub struct ObjectMeta {
    pub name: Option<String>,
    pub namespace: Option<String>,
    /// Unique id, assigned by the store when the object is persisted.
    pub uid: Option<String>,
    /// Opaque version token of the snapshot, for optimistic concurrency.
    pub resource_version: Option<String>,
}

/// A snapshot of one At object.
#[derive(Clone, Debug)]
pub struct At {
    pub metadata: ObjectMeta,
    pub spec: AtSpec,
    pub status: Option<AtStatus>,
}

/// The phase an optional status stands for; no status means Unset.
pub open spec fn phase_of(status: Option<AtStatus>) -> Option<AtPhase> {
    match status {
        Some(s) => Some(s.phase),
        None => None,
    }
}

/// Position of a phase in the lifecycle Unset, Running, Done.
pub open spec fn phase_rank(phase: Option<AtPhase>) -> int {
    match phase {
        None => 0,
        Some(AtPhase::Running) => 1,
        Some(AtPhase::Done) => 2,
    }
}

/// `apiVersion` of the kind as written in owner references.
pub open spec fn api_version_spec() -> Seq<char> {
    GROUP@ + "/"@ + VERSION@
}

pub fn api_version() -> (r: String)
    ensures
        r@ == api_version_spec(),
{
    let mut r = String::from_str(GROUP);
    r.append("/");
    r.append(VERSION);
    r
}

pub fn kind() -> (r: String)
    ensures
        r@ == KIND@,
{
    String::from_str(KIND)
}

impl At {
    /// A new, not yet persisted At named `name` with no status.
    pub fn new(name: &str, spec: AtSpec) -> (r: At)
        ensures
            r.metadata.name matches Some(n) && n@ == name@,
            r.metadata.namespace is None,
            r.metadata.uid is None,
            r.metadata.resource_version is None,
            r.spec == spec,
            r.status is None,
    {
        At {
            metadata: ObjectMeta {
                name: Some(String::from_str(name)),
                namespace: None,
                uid: None,
                resource_version: None,
            },
            spec,
            status: None,
        }
    }

    /// Whether the snapshot carries the key (namespace and name) that a
    /// persisted object always has.
    pub open spec fn has_key(&self) -> bool {
        self.metadata.name is Some && self.metadata.namespace is Some
    }

    /// Whether a status patch can be computed from the snapshot: it has its
    /// key and the version token that the patch is conditioned on.
    pub open spec fn can_patch(&self) -> bool {
        self.has_key() && self.metadata.resource_version is Some
    }
}

} // verus!
