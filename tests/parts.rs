use cnat::child::build_owned_pod;
use cnat::controller::{error_policy, get_name_ref, get_namespace_ref, ERROR_REQUEUE_MILLIS};
use cnat::crd::{field_selector, names_accepted, CrdCondition};
use cnat::resource::{api_version, kind};
use cnat::status::to_next_phase;
use cnat::{
    At, AtPhase, AtSpec, ChildObservation, Error, ObjectKey, ObjectMeta, StoreError, Timestamp,
};

fn s(v: &str) -> String {
    v.to_string()
}

fn sample() -> At {
    At {
        metadata: ObjectMeta {
            name: Some(s("example")),
            namespace: Some(s("jobs")),
            uid: Some(s("0f1e2d3c")),
            resource_version: Some(s("42")),
        },
        spec: AtSpec {
            schedule: Timestamp::from_millis(0),
            command: vec![s("echo"), s("hi")],
        },
        status: None,
    }
}

#[test]
fn owned_pod_is_built_from_parent() {
    let pod = build_owned_pod(&sample()).unwrap();
    assert_eq!(pod.name, "example");
    assert_eq!(pod.owner.api_version, "example.kazk.dev/v1alpha1");
    assert_eq!(pod.owner.kind, "At");
    assert_eq!(pod.owner.name, "example");
    assert_eq!(pod.owner.uid, "0f1e2d3c");
    assert!(pod.owner.controller);
    assert_eq!(pod.container.name, "busybox");
    assert_eq!(pod.container.image, "busybox");
    assert_eq!(pod.container.command, vec![s("echo"), s("hi")]);
    assert_eq!(pod.restart_policy, "Never");
}

#[test]
fn owned_pod_needs_uid_and_name() {
    let mut at = sample();
    at.metadata.uid = None;
    assert!(matches!(build_owned_pod(&at), Err(Error::MissingObjectKey(ObjectKey::Uid))));
    at.metadata.name = None;
    assert!(matches!(build_owned_pod(&at), Err(Error::MissingObjectKey(ObjectKey::Name))));
}

#[test]
fn owned_pod_keeps_empty_command() {
    let mut at = sample();
    at.spec.command = Vec::new();
    assert!(build_owned_pod(&at).unwrap().container.command.is_empty());
}

#[test]
fn status_patch_targets_parent() {
    let p = to_next_phase(&sample(), AtPhase::Done).unwrap();
    assert_eq!(p.namespace, "jobs");
    assert_eq!(p.name, "example");
    assert_eq!(p.resource_version, "42");
    assert_eq!(p.phase, AtPhase::Done);

    let mut at = sample();
    at.metadata.resource_version = None;
    assert!(matches!(
        to_next_phase(&at, AtPhase::Running),
        Err(Error::MissingObjectKey(ObjectKey::ResourceVersion))
    ));
    at.metadata.name = None;
    at.metadata.namespace = None;
    assert!(matches!(
        to_next_phase(&at, AtPhase::Running),
        Err(Error::MissingObjectKey(ObjectKey::Namespace))
    ));
    at.metadata.namespace = Some(s("jobs"));
    assert!(matches!(
        to_next_phase(&at, AtPhase::Running),
        Err(Error::MissingObjectKey(ObjectKey::Name))
    ));
}

#[test]
fn key_accessors() {
    let at = sample();
    assert_eq!(get_name_ref(&at).unwrap(), "example");
    assert_eq!(get_namespace_ref(&at).unwrap(), "jobs");
    let mut at = sample();
    at.metadata.name = None;
    at.metadata.namespace = None;
    assert!(matches!(get_name_ref(&at), Err(Error::MissingObjectKey(ObjectKey::Name))));
    assert!(matches!(
        get_namespace_ref(&at),
        Err(Error::MissingObjectKey(ObjectKey::Namespace))
    ));
}

#[test]
fn key_paths() {
    assert_eq!(ObjectKey::Name.path(), ".metadata.name");
    assert_eq!(ObjectKey::Namespace.path(), ".metadata.namespace");
    assert_eq!(ObjectKey::Uid.path(), ".metadata.uid");
    assert_eq!(ObjectKey::ResourceVersion.path(), ".metadata.resourceVersion");
}

#[test]
fn errors_are_retried() {
    assert_eq!(ERROR_REQUEUE_MILLIS, 5_000);
    let e = Error::MissingObjectKey(ObjectKey::Uid);
    assert_eq!(error_policy(&e).requeue_after, Some(5_000));
    let e = Error::GetPod(StoreError { code: 500, reason: s("InternalError"), message: s("") });
    assert_eq!(error_policy(&e).requeue_after, Some(5_000));
}

#[test]
fn resource_names() {
    assert_eq!(api_version(), "example.kazk.dev/v1alpha1");
    assert_eq!(kind(), "At");
    assert_eq!(field_selector(), "metadata.name=ats.example.kazk.dev");
}

#[test]
fn new_at_has_only_a_name() {
    let at = At::new("example", AtSpec { schedule: Timestamp::from_millis(7), command: vec![s("true")] });
    assert_eq!(at.metadata.name, Some(s("example")));
    assert!(at.metadata.namespace.is_none());
    assert!(at.metadata.uid.is_none());
    assert!(at.status.is_none());
    assert_eq!(at.spec.schedule.millis, 7);
}

#[test]
fn millis_between_instants() {
    let a = Timestamp::from_millis(-5);
    let b = Timestamp::from_millis(20);
    assert_eq!(a.millis_until(&b), 25);
    assert_eq!(b.millis_until(&b), 0);
}

#[test]
fn store_error_mapping() {
    let e = |code: u16, reason: &str| StoreError { code, reason: s(reason), message: s("") };
    assert!(e(404, "NotFound").is_not_found());
    assert!(!e(409, "AlreadyExists").is_not_found());
    assert!(e(409, "AlreadyExists").is_already_exists());
    assert!(!e(409, "Conflict").is_already_exists());
    assert!(!e(500, "AlreadyExists").is_already_exists());
}

#[test]
fn terminal_child_phases() {
    let obs = |p: Option<&str>| ChildObservation { phase: p.map(s) };
    assert!(obs(Some("Succeeded")).is_terminal());
    assert!(obs(Some("Failed")).is_terminal());
    assert!(!obs(Some("Pending")).is_terminal());
    assert!(!obs(Some("Running")).is_terminal());
    assert!(!obs(Some("Unknown")).is_terminal());
    assert!(!obs(None).is_terminal());
}

#[test]
fn crd_readiness() {
    let c = |t: &str, st: &str| CrdCondition { type_: s(t), status: s(st) };
    assert!(!names_accepted(&Vec::new()));
    assert!(!names_accepted(&vec![c("NamesAccepted", "False"), c("Established", "True")]));
    assert!(names_accepted(&vec![c("Established", "True"), c("NamesAccepted", "True")]));
}
