//! The child: the one-shot pod that executes an At's command.
use vstd::prelude::*;

use crate::controller::{Error, ObjectKey};
use crate::resource::{api_version, api_version_spec, kind, At, KIND};

verus! {

/// Name and image of the container that runs the command.
pub const CONTAINER_IMAGE: &'static str = "busybox";

/// Restart policy of the child: it runs once.
pub const RESTART_NEVER: &'static str = "Never";

/// Link from the child to the At that owns it.
#[derive(Clone, Debug)]
pub struct OwnerReference {
    pub api_version: String,
    pub kind: String,
    pub name: String,
    pub uid: String,
    /// The owner is the child's controller.
    pub controller: bool,
}

/// The single container of the child.
#[derive(Clone, Debug)]
pub struct Container {
    pub name: String,
    pub image: String,
    pub command: Vec<String>,
}

/// Descriptor of the pod to create for an At.
#[derive(Clone, Debug)]
pub struct OwnedPod {
    pub name: String,
    pub owner: OwnerReference,
    pub container: Container,
    pub restart_policy: String,
}

/// `pod` is the child of `at`: named after it, running exactly its command
/// once, with `at` as its controlling owner.
pub open spec fn is_child_of(pod: OwnedPod, at: At) -> bool {
    &&& at.metadata.name matches Some(name)
    &&& at.metadata.uid matches Some(uid)
    &&& pod.name@ == name@
    &&& pod.owner.api_version@ == api_version_spec()
    &&& pod.owner.kind@ == KIND@
    &&& pod.owner.name@ == name@
    &&& pod.owner.uid@ == uid@
    &&& pod.owner.controller
    &&& pod.container.name@ == CONTAINER_IMAGE@
    &&& pod.container.image@ == CONTAINER_IMAGE@
    &&& pod.container.command@ == at.spec.command@
    &&& pod.restart_policy@ == RESTART_NEVER@
}

fn clone_strings(v: &Vec<String>) -> (r: Vec<String>)
    ensures
        r@ == v@,
{
    let mut r: Vec<String> = Vec::new();
    let mut i: usize = 0;
    while i < v.len()
        invariant
            i <= v.len(),
            r@ == v@.subrange(0, i as int),
        decreases v.len() - i,
    {
        r.push(v[i].clone());
        i = i + 1;
    }
    assert(r@ =~= v@);
    r
}

/// Builds the child of `at`. Fails, without touching the store, when `at`
/// has no name or has not been assigned its unique id yet.
pub fn build_owned_pod(at: &At) -> (r: Result<OwnedPod, Error>)
    ensures
        match r {
            Ok(pod) => is_child_of(pod, *at),
            Err(e) => e == (if at.metadata.name is None {
                Error::MissingObjectKey(ObjectKey::Name)
            } else {
                Error::MissingObjectKey(ObjectKey::Uid)
            }),
        },
        r is Ok <==> (at.metadata.name is Some && at.metadata.uid is Some),
{
    let name = match &at.metadata.name {
        Some(n) => n,
        None => return Err(Error::MissingObjectKey(ObjectKey::Name)),
    };
    let uid = match &at.metadata.uid {
        Some(u) => u,
        None => return Err(Error::MissingObjectKey(ObjectKey::Uid)),
    };
    Ok(OwnedPod {
        name: name.clone(),
        owner: OwnerReference {
            api_version: api_version(),
            kind: kind(),
            name: name.clone(),
            uid: uid.clone(),
            controller: true,
        },
        container: Container {
            name: String::from_str(CONTAINER_IMAGE),
            image: String::from_str(CONTAINER_IMAGE),
            command: clone_strings(&at.spec.command),
        },
        restart_policy: String::from_str(RESTART_NEVER),
    })
}

/// Pod phases after which the child will not run again.
pub const SUCCEEDED: &'static str = "Succeeded";

pub const FAILED: &'static str = "Failed";

/// What a lookup found of an existing child.
#[derive(Clone, Debug)]
pub struct ChildObservation {
    /// The pod's `status.phase`, if it reported one.
    pub phase: Option<String>,
}

impl ChildObservation {
    pub open spec fn spec_is_terminal(&self) -> bool {
        self.phase matches Some(p) && (p@ == SUCCEEDED@ || p@ == FAILED@)
    }

    /// The child has finished, successfully or not. Pending, Running,
    /// Unknown and a missing phase are not terminal.
    #[verifier::when_used_as_spec(spec_is_terminal)]
    pub fn is_terminal(&self) -> (r: bool)
        ensures
            r == self.spec_is_terminal(),
    {
        match &self.phase {
            Some(p) => *p == String::from_str(SUCCEEDED) || *p == String::from_str(FAILED),
            None => false,
        }
    }
}

} // verus!
