//! Properties of whole reconciles, proved over the steps of the machine.
use vstd::prelude::*;

use crate::reconcile::{done_action, start_step, Action, Event, Reconcile};
use crate::resource::{phase_of, phase_rank, At, AtPhase};
use crate::time::Timestamp;

verus! {

/// `trace` is a run of one reconcile of `at` evaluated at `now`: its first
/// state and action come from `start`, and each later one from `resume` on
/// the store's answer `events[i]` to the action before it.
pub open spec fn is_run(
    at: At,
    now: Timestamp,
    events: Seq<Event>,
    trace: Seq<(Reconcile, Action)>,
) -> bool {
    &&& 1 <= trace.len() <= events.len() + 1
    &&& start_step(at, now, trace[0].0, trace[0].1)
    &&& forall|i: int|
        0 <= i < trace.len() - 1 ==> (#[trigger] trace[i].0).spec_accepts(events[i])
            && trace[i].0.resume_step(events[i], trace[i + 1].0, trace[i + 1].1)
}

/// The action changes the store.
pub open spec fn is_write(a: Action) -> bool {
    a is PatchStatus || a is CreateChild
}

/// The actions of `trace` that change the store, in order.
pub open spec fn writes(trace: Seq<(Reconcile, Action)>) -> Seq<Action>
    decreases trace.len(),
{
    if trace.len() == 0 {
        Seq::empty()
    } else {
        let rest = writes(trace.drop_last());
        if is_write(trace.last().1) {
            rest.push(trace.last().1)
        } else {
            rest
        }
    }
}

/// No state follows `Finished`, and a reconcile takes at most three steps.
proof fn lemma_run_len(at: At, now: Timestamp, events: Seq<Event>, trace: Seq<(Reconcile, Action)>)
    requires
        is_run(at, now, events, trace),
    ensures
        trace.len() <= 3,
        forall|i: int| 0 <= i < trace.len() && trace[i].0 is Finished ==> i == trace.len() - 1,
        trace[0].0 is PatchingStatus ==> trace.len() <= 2,
        trace[0].0 is Finished ==> trace.len() == 1,
{
    assert forall|i: int| 0 <= i < trace.len() && trace[i].0 is Finished implies i == trace.len()
        - 1 by {
        if i < trace.len() - 1 {
            assert(trace[i].0.spec_accepts(events[i]));
        }
    }
    if trace.len() > 1 {
        assert(trace[0].0.spec_accepts(events[0]));
        assert(trace[0].0.resume_step(events[0], trace[1].0, trace[1].1));
        if trace[0].0 is PatchingStatus {
            assert(trace[1].0 is Finished);
        }
        if trace.len() > 2 {
            assert(trace[1].0.spec_accepts(events[1]));
            assert(trace[1].0.resume_step(events[1], trace[2].0, trace[2].1));
            assert(trace[1].0 is PatchingStatus || trace[1].0 is CreatingChild);
            assert(trace[2].0 is Finished);
        }
    }
}

/// A parent with no status whose schedule has come is moved to Running by one
/// reconcile with exactly one write, the status patch to Running. The parent
/// is a snapshot of a stored object, which always carries its key and its
/// version token (`can_patch`); the patch is conditioned on that token.
pub proof fn lemma_due_parent_starts_running(
    at: At,
    now: Timestamp,
    events: Seq<Event>,
    trace: Seq<(Reconcile, Action)>,
)
    requires
        at.status is None,
        at.can_patch(),
        at.spec.schedule.millis <= now.millis,
        is_run(at, now, events, trace),
    ensures
        writes(trace).len() == 1,
        writes(trace)[0] matches Action::PatchStatus(p) && p.phase == AtPhase::Running,
{
    lemma_run_len(at, now, events, trace);
    reveal_with_fuel(writes, 3);
    if trace.len() == 2 {
        assert(trace[0].0.resume_step(events[0], trace[1].0, trace[1].1));
        assert(trace.drop_last() =~= seq![trace[0]]);
        assert(seq![trace[0]].drop_last() =~= Seq::<(Reconcile, Action)>::empty());
    } else {
        assert(trace.drop_last() =~= Seq::<(Reconcile, Action)>::empty());
    }
}

/// A parent with no status whose schedule lies ahead is left unchanged and
/// woken again exactly when due.
pub proof fn lemma_early_parent_waits(
    at: At,
    now: Timestamp,
    events: Seq<Event>,
    trace: Seq<(Reconcile, Action)>,
)
    requires
        at.status is None,
        at.spec.schedule.millis > now.millis,
        is_run(at, now, events, trace),
    ensures
        writes(trace).len() == 0,
        trace.len() == 1,
        trace[0].1 matches Action::Finish(Ok(r)) && r.requeue_after == Some(
            (at.spec.schedule.millis - now.millis) as u64,
        ),
{
    lemma_run_len(at, now, events, trace);
    reveal_with_fuel(writes, 2);
    assert(trace.drop_last() =~= Seq::<(Reconcile, Action)>::empty());
}

/// A reconcile in Running phase that finds the child alive writes nothing.
pub proof fn lemma_running_child_alive_is_noop(
    at: At,
    now: Timestamp,
    events: Seq<Event>,
    trace: Seq<(Reconcile, Action)>,
)
    requires
        phase_of(at.status) == Some(AtPhase::Running),
        events.len() >= 1,
        events[0] matches Event::ChildFetched(Ok(obs)) && !obs.spec_is_terminal(),
        is_run(at, now, events, trace),
    ensures
        writes(trace).len() == 0,
        trace.len() == 2 ==> trace[1].1 == done_action(),
{
    lemma_run_len(at, now, events, trace);
    reveal_with_fuel(writes, 3);
    if trace.len() >= 2 {
        assert(trace[0].0.resume_step(events[0], trace[1].0, trace[1].1));
        assert(trace.len() == 2);
        assert(trace.drop_last() =~= seq![trace[0]]);
        assert(seq![trace[0]].drop_last() =~= Seq::<(Reconcile, Action)>::empty());
    } else {
        assert(trace.drop_last() =~= Seq::<(Reconcile, Action)>::empty());
    }
}

/// The store refused a create because the child exists.
pub open spec fn is_already_exists_answer(e: Event) -> bool {
    e matches Event::ChildCreated(Err(x)) && x.spec_is_already_exists()
}

/// Where in a run a child can be created, and which child.
proof fn lemma_create_step(
    at: At,
    now: Timestamp,
    events: Seq<Event>,
    trace: Seq<(Reconcile, Action)>,
    i: int,
)
    requires
        is_run(at, now, events, trace),
        0 <= i < trace.len(),
        trace[i].1 is CreateChild,
    ensures
        i == 1,
        at.metadata.namespace == Some(trace[i].1->CreateChild_namespace),
        at.metadata.name is Some,
        trace[i].1->CreateChild_pod.name@ == at.metadata.name->0@,
        i + 1 < trace.len() ==> (events[i] matches Event::ChildCreated(r) && trace[i + 1].1 == (
        match r {
            Ok(_) => done_action(),
            Err(x) => if x.spec_is_already_exists() {
                done_action()
            } else {
                Action::Finish(Err(crate::controller::Error::CreatePod(x)))
            },
        }) && i + 1 == trace.len() - 1),
{
    lemma_run_len(at, now, events, trace);
    if i == 0 {
        assert(false);
    } else if i == 2 {
        assert(trace[1].0.resume_step(events[1], trace[2].0, trace[2].1));
        assert(false);
    } else {
        assert(trace[0].0.resume_step(events[0], trace[1].0, trace[1].1));
        assert(trace[0].0 == Reconcile::FetchingChild { at });
        if i + 1 < trace.len() {
            assert(trace[1].0.resume_step(events[1], trace[2].0, trace[2].1));
        }
    }
}

/// Reconciles of one parent never make more than one child: a reconcile asks
/// for at most one create, every create for the parent (from any snapshot of
/// it) names the same child, and a create that the store refuses because the
/// child exists ends the reconcile successfully with no further write.
pub proof fn lemma_one_child_per_parent(
    at1: At,
    now1: Timestamp,
    events1: Seq<Event>,
    trace1: Seq<(Reconcile, Action)>,
    at2: At,
    now2: Timestamp,
    events2: Seq<Event>,
    trace2: Seq<(Reconcile, Action)>,
)
    requires
        is_run(at1, now1, events1, trace1),
        is_run(at2, now2, events2, trace2),
        at1.metadata.namespace == at2.metadata.namespace,
        at1.metadata.name == at2.metadata.name,
    ensures
        forall|i: int, j: int|
            0 <= i < trace1.len() && 0 <= j < trace1.len() && (#[trigger] trace1[i]).1 is CreateChild
                && (#[trigger] trace1[j]).1 is CreateChild ==> i == j,
        forall|i: int, j: int|
            0 <= i < trace1.len() && 0 <= j < trace2.len() && (#[trigger] trace1[i]).1 is CreateChild
                && (#[trigger] trace2[j]).1 is CreateChild ==> trace1[i].1->CreateChild_namespace
                == trace2[j].1->CreateChild_namespace && trace1[i].1->CreateChild_pod.name@
                == trace2[j].1->CreateChild_pod.name@,
        forall|i: int|
            0 <= i < trace1.len() - 1 && (#[trigger] trace1[i]).1 is CreateChild && is_already_exists_answer(events1[i]) ==> trace1[i + 1].1 == done_action() && i + 1
                == trace1.len() - 1,
{
    assert forall|i: int, j: int|
        0 <= i < trace1.len() && 0 <= j < trace1.len() && (#[trigger] trace1[i]).1 is CreateChild
            && (#[trigger] trace1[j]).1 is CreateChild implies i == j by {
        lemma_create_step(at1, now1, events1, trace1, i);
        lemma_create_step(at1, now1, events1, trace1, j);
    }
    assert forall|i: int, j: int|
        0 <= i < trace1.len() && 0 <= j < trace2.len() && (#[trigger] trace1[i]).1 is CreateChild
            && (#[trigger] trace2[j]).1 is CreateChild implies trace1[i].1->CreateChild_namespace
            == trace2[j].1->CreateChild_namespace && trace1[i].1->CreateChild_pod.name@
            == trace2[j].1->CreateChild_pod.name@ by {
        lemma_create_step(at1, now1, events1, trace1, i);
        lemma_create_step(at2, now2, events2, trace2, j);
    }
    assert forall|i: int|
        0 <= i < trace1.len() - 1 && (#[trigger] trace1[i]).1 is CreateChild && is_already_exists_answer(events1[i]) implies trace1[i + 1].1 == done_action() && i + 1
            == trace1.len() - 1 by {
        lemma_create_step(at1, now1, events1, trace1, i);
    }
}

/// The phase that the store holds after it is sent `p` while it holds
/// `stored_phase` at version `stored_version`: a patch conditioned on another
/// version is refused with a conflict and changes nothing.
pub open spec fn patched_phase(
    stored_version: Seq<char>,
    stored_phase: Option<AtPhase>,
    p: crate::status::StatusPatch,
) -> Option<AtPhase> {
    if p.resource_version@ != stored_version {
        stored_phase
    } else {
        Some(p.phase)
    }
}

/// The phase never regresses: every status write of a reconcile moves the
/// phase of its snapshot one step forward (so nothing is written once Done),
/// and it is conditioned on the snapshot's version, so that however stale the
/// snapshot and whatever the store holds meanwhile, the stored phase never
/// moves back. The store is described by its current version and phase; the
/// one thing assumed of the snapshot is that, if it was read at the store's
/// current version, it shows the stored phase.
pub proof fn lemma_phase_never_regresses(
    at: At,
    now: Timestamp,
    events: Seq<Event>,
    trace: Seq<(Reconcile, Action)>,
    stored_version: Seq<char>,
    stored_phase: Option<AtPhase>,
)
    requires
        is_run(at, now, events, trace),
        at.metadata.resource_version matches Some(v) && v@ == stored_version ==> stored_phase
            == phase_of(at.status),
    ensures
        forall|i: int|
            0 <= i < trace.len() && (#[trigger] trace[i]).1 is PatchStatus ==> {
                let p = trace[i].1->PatchStatus_0;
                &&& phase_rank(Some(p.phase)) == phase_rank(phase_of(at.status)) + 1
                &&& at.metadata.resource_version == Some(p.resource_version)
                &&& phase_rank(patched_phase(stored_version, stored_phase, p)) >= phase_rank(
                    stored_phase,
                )
            },
{
    lemma_run_len(at, now, events, trace);
    assert forall|i: int|
        0 <= i < trace.len() && (#[trigger] trace[i]).1 is PatchStatus implies {
            let p = trace[i].1->PatchStatus_0;
            &&& phase_rank(Some(p.phase)) == phase_rank(phase_of(at.status)) + 1
            &&& at.metadata.resource_version == Some(p.resource_version)
            &&& phase_rank(patched_phase(stored_version, stored_phase, p)) >= phase_rank(
                stored_phase,
            )
        } by {
        if i >= 1 {
            assert(trace[0].0.resume_step(events[0], trace[1].0, trace[1].1));
        }
        if i == 2 {
            assert(trace[1].0.resume_step(events[1], trace[2].0, trace[2].1));
        }
    }
}

} // verus!
