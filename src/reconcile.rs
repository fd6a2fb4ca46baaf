//! One reconcile of one At, as a state machine driven by the store's answers.
//!
//! `Reconcile::start` takes the latest snapshot and yields the first action.
//! The caller performs it against the store and resumes the machine with the
//! answer, until the action is `Finish`. Every branch is safe to run again:
//! the machine is a function of the snapshot, the clock and the answers.
use vstd::prelude::*;

use crate::child::{build_owned_pod, is_child_of, ChildObservation, OwnedPod};
use crate::controller::{Error, ObjectKey, ReconcilerAction};
use crate::resource::{phase_of, At, AtPhase};
use crate::status::{is_status_patch, missing_key_error, to_next_phase, StatusPatch};
use crate::store::StoreError;
use crate::time::{current_time, Timestamp};

verus! {

/// What the reconcile waits for.
#[derive(Debug)]
pub enum Reconcile {
    /// The answer to a `PatchStatus`.
    PatchingStatus,
    /// The answer to a `GetChild` for the child of `at`.
    FetchingChild { at: At },
    /// The answer to a `CreateChild`.
    CreatingChild,
    /// Nothing: the reconcile is over.
    Finished,
}

/// What the caller does next.
#[derive(Debug)]
pub enum Action {
    /// Apply the patch to the At's status; answer with `StatusPatched`.
    PatchStatus(StatusPatch),
    /// Look up the pod `namespace/name`; answer with `ChildFetched`.
    GetChild { namespace: String, name: String },
    /// Create `pod` in `namespace`; answer with `ChildCreated`.
    CreateChild { namespace: String, pod: OwnedPod },
    /// Report the outcome to the runtime.
    Finish(Result<ReconcilerAction, Error>),
}

/// The store's answer to the last action.
#[derive(Debug)]
pub enum Event {
    StatusPatched(Result<(), StoreError>),
    ChildFetched(Result<ChildObservation, StoreError>),
    ChildCreated(Result<(), StoreError>),
}

/// Finished with no requeue of the runtime's own.
pub open spec fn done_action() -> Action {
    Action::Finish(Ok(ReconcilerAction { requeue_after: None }))
}

/// The step that writes `phase` for `at`, or fails when `at` lacks its key
/// or its version token.
pub open spec fn patch_step(at: At, phase: AtPhase, s: Reconcile, a: Action) -> bool {
    if at.can_patch() {
        &&& s == Reconcile::PatchingStatus
        &&& a matches Action::PatchStatus(p)
        &&& is_status_patch(p, at, phase)
    } else {
        s == Reconcile::Finished && a == Action::Finish(Err(missing_key_error(at)))
    }
}

/// The first step of a reconcile of `at` evaluated at `now`.
pub open spec fn start_step(at: At, now: Timestamp, s: Reconcile, a: Action) -> bool {
    match phase_of(at.status) {
        None => if at.spec.schedule.millis <= now.millis {
            patch_step(at, AtPhase::Running, s, a)
        } else {
            s == Reconcile::Finished && a == Action::Finish(
                Ok(
                    ReconcilerAction {
                        requeue_after: Some((at.spec.schedule.millis - now.millis) as u64),
                    },
                ),
            )
        },
        Some(AtPhase::Running) => if at.has_key() {
            s == Reconcile::FetchingChild { at } && a == Action::GetChild {
                namespace: at.metadata.namespace->0,
                name: at.metadata.name->0,
            }
        } else {
            s == Reconcile::Finished && a == Action::Finish(Err(missing_key_error(at)))
        },
        Some(AtPhase::Done) => s == Reconcile::Finished && a == done_action(),
    }
}

/// The step after the lookup of the child of `at` answered `r`.
pub open spec fn fetched_step(
    at: At,
    r: Result<ChildObservation, StoreError>,
    s: Reconcile,
    a: Action,
) -> bool {
    match r {
        Ok(obs) => if obs.is_terminal() {
            patch_step(at, AtPhase::Done, s, a)
        } else {
            s == Reconcile::Finished && a == done_action()
        },
        Err(e) => if e.is_not_found() {
            if at.metadata.name is Some && at.metadata.uid is Some {
                &&& s == Reconcile::CreatingChild
                &&& a matches Action::CreateChild { namespace, pod }
                &&& at.metadata.namespace == Some(namespace)
                &&& is_child_of(pod, at)
            } else {
                s == Reconcile::Finished && a == Action::Finish(
                    Err(
                        if at.metadata.name is None {
                            Error::MissingObjectKey(ObjectKey::Name)
                        } else {
                            Error::MissingObjectKey(ObjectKey::Uid)
                        },
                    ),
                )
            }
        } else {
            s == Reconcile::Finished && a == Action::Finish(Err(Error::GetPod(e)))
        },
    }
}

impl Reconcile {
    /// `e` answers what `self` waits for (a state that `start` or `resume`
    /// produced always has the keys it needs).
    pub open spec fn spec_accepts(&self, e: Event) -> bool {
        match (self, e) {
            (Reconcile::PatchingStatus, Event::StatusPatched(_)) => true,
            (Reconcile::FetchingChild { at }, Event::ChildFetched(_)) => at.has_key(),
            (Reconcile::CreatingChild, Event::ChildCreated(_)) => true,
            _ => false,
        }
    }

    /// The step from `self` on the answer `e`, to state `s` and action `a`.
    pub open spec fn resume_step(&self, e: Event, s: Reconcile, a: Action) -> bool {
        match (self, e) {
            (Reconcile::PatchingStatus, Event::StatusPatched(r)) => s == Reconcile::Finished
                && a == match r {
                Ok(_) => done_action(),
                Err(x) => Action::Finish(Err(Error::PatchStatus(x))),
            },
            (Reconcile::FetchingChild { at }, Event::ChildFetched(r)) => fetched_step(*at, r, s, a),
            (Reconcile::CreatingChild, Event::ChildCreated(r)) => s == Reconcile::Finished && a
                == match r {
                Ok(_) => done_action(),
                Err(x) => if x.is_already_exists() {
                    done_action()
                } else {
                    Action::Finish(Err(Error::CreatePod(x)))
                },
            },
            _ => false,
        }
    }

    /// The step that writes `phase` for `at`.
    fn patch(at: &At, phase: AtPhase) -> (r: (Reconcile, Action))
        ensures
            patch_step(*at, phase, r.0, r.1),
    {
        match to_next_phase(at, phase) {
            Ok(p) => (Reconcile::PatchingStatus, Action::PatchStatus(p)),
            Err(e) => (Reconcile::Finished, Action::Finish(Err(e))),
        }
    }

    /// Starts a reconcile of the snapshot `at`, evaluated at `now`.
    pub fn start_at(at: At, now: Timestamp) -> (r: (Reconcile, Action))
        ensures
            start_step(at, now, r.0, r.1),
    {
        match at.status {
            None => {
                if at.spec.schedule.millis <= now.millis {
                    Self::patch(&at, AtPhase::Running)
                } else {
                    let wait = now.millis_until(&at.spec.schedule);
                    (
                        Reconcile::Finished,
                        Action::Finish(Ok(ReconcilerAction { requeue_after: Some(wait) })),
                    )
                }
            },
            Some(status) => match status.phase {
                AtPhase::Running => {
                    let namespace = match &at.metadata.namespace {
                        Some(n) => n.clone(),
                        None => {
                            let e = Error::MissingObjectKey(ObjectKey::Namespace);
                            return (Reconcile::Finished, Action::Finish(Err(e)));
                        },
                    };
                    let name = match &at.metadata.name {
                        Some(n) => n.clone(),
                        None => {
                            let e = Error::MissingObjectKey(ObjectKey::Name);
                            return (Reconcile::Finished, Action::Finish(Err(e)));
                        },
                    };
                    (Reconcile::FetchingChild { at }, Action::GetChild { namespace, name })
                },
                AtPhase::Done => (
                    Reconcile::Finished,
                    Action::Finish(Ok(ReconcilerAction { requeue_after: None })),
                ),
            },
        }
    }

    /// Starts a reconcile of the snapshot `at`, reading the clock now.
    pub fn start(at: At) -> (r: (Reconcile, Action))
        ensures
            exists|now: Timestamp| start_step(at, now, r.0, r.1),
    {
        let now = current_time();
        Self::start_at(at, now)
    }

    /// Whether `e` answers what `self` waits for.
    pub fn accepts(&self, e: &Event) -> (r: bool)
        ensures
            r == self.spec_accepts(*e),
    {
        match (self, e) {
            (Reconcile::PatchingStatus, Event::StatusPatched(_)) => true,
            (Reconcile::FetchingChild { at }, Event::ChildFetched(_)) => {
                at.metadata.name.is_some() && at.metadata.namespace.is_some()
            },
            (Reconcile::CreatingChild, Event::ChildCreated(_)) => true,
            _ => false,
        }
    }

    /// Resumes the reconcile with the store's answer to the last action.
    pub fn resume(self, e: Event) -> (r: (Reconcile, Action))
        requires
            self.spec_accepts(e),
        ensures
            self.resume_step(e, r.0, r.1),
    {
        match (self, e) {
            (Reconcile::PatchingStatus, Event::StatusPatched(r)) => {
                let a = match r {
                    Ok(_) => Action::Finish(Ok(ReconcilerAction { requeue_after: None })),
                    Err(x) => Action::Finish(Err(Error::PatchStatus(x))),
                };
                (Reconcile::Finished, a)
            },
            (Reconcile::FetchingChild { at }, Event::ChildFetched(r)) => match r {
                Ok(obs) => {
                    if obs.is_terminal() {
                        Self::patch(&at, AtPhase::Done)
                    } else {
                        (
                            Reconcile::Finished,
                            Action::Finish(Ok(ReconcilerAction { requeue_after: None })),
                        )
                    }
                },
                Err(x) => {
                    if x.is_not_found() {
                        match build_owned_pod(&at) {
                            Ok(pod) => {
                                let namespace = at.metadata.namespace.unwrap();
                                (Reconcile::CreatingChild, Action::CreateChild { namespace, pod })
                            },
                            Err(err) => (Reconcile::Finished, Action::Finish(Err(err))),
                        }
                    } else {
                        (Reconcile::Finished, Action::Finish(Err(Error::GetPod(x))))
                    }
                },
            },
            (Reconcile::CreatingChild, Event::ChildCreated(r)) => {
                let a = match r {
                    Ok(_) => Action::Finish(Ok(ReconcilerAction { requeue_after: None })),
                    Err(x) => {
                        if x.is_already_exists() {
                            Action::Finish(Ok(ReconcilerAction { requeue_after: None }))
                        } else {
                            Action::Finish(Err(Error::CreatePod(x)))
                        }
                    },
                };
                (Reconcile::Finished, a)
            },
            // excluded by the precondition
            _ => (Reconcile::Finished, Action::Finish(Ok(ReconcilerAction { requeue_after: None }))),
        }
    }
}

} // verus!
