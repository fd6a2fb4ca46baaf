//! Controller core for the `At` custom resource: a cluster-native `at`.
//!
//! The reconciler is a state machine: it is started with the latest snapshot
//! of one `At` object, hands back the next action against the cluster store,
//! and is resumed with the store's answer until it finishes. Store access,
//! watches and the work queue belong to the caller.
pub mod child;
pub mod controller;
pub mod crd;
pub mod laws;
pub mod reconcile;
pub mod resource;
pub mod status;
pub mod store;
pub mod time;

pub use child::{ChildObservation, Container, OwnedPod, OwnerReference};
pub use controller::{Error, ObjectKey, ReconcilerAction};
pub use reconcile::{Action, Event, Reconcile};
pub use resource::{At, AtPhase, AtSpec, AtStatus, ObjectMeta};
pub use status::StatusPatch;
pub use store::StoreError;
pub use time::Timestamp;
