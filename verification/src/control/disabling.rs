//! Disabling the protection as a sequence of steps: stop the runtime, then restore the
//! snapshot that the state records and check the network. Each step takes what the last piece
//! of outside work reported, updates the runtime state, and says which work comes next.
use vstd::prelude::*;

use crate::blocking::blocklist::BlocklistBundle;
use crate::clock::Timestamp;
use crate::control::activation::{
    begin_deactivation, deactivated, deactivation_without_snapshot, finish_deactivation, stopped, unrestorable,
};
use crate::storage::events::EventRecord;
use crate::storage::state::{RestoreVerification, RuntimeState};

verus! {

/// Where a deactivation stands.
#[derive(Debug)]
pub enum Deactivation {
    /// The runtime has to stop first.
    Stopping,
    /// The runtime is stopped; the snapshot is being read.
    Loading,
    /// The snapshot was found; the network is being restored from it.
    Restoring,
    /// Nothing is left to do.
    Done,
}

/// What a piece of outside work reported.
#[derive(Debug)]
pub enum DeactivationOutcome {
    /// The runtime is no longer running.
    RuntimeStopped,
    /// Whether the snapshot asked for was found.
    SnapshotLoaded(bool),
    /// The snapshot was restored; this is what the network looks like.
    Restored(RestoreVerification),
}

/// The outside work a deactivation asks for.
#[derive(Debug)]
pub enum DeactivationWork {
    /// Stop the runtime process, when one is recorded.
    StopRuntime { pid: Option<u32> },
    /// Read the snapshot `snapshot_id`.
    LoadSnapshot { snapshot_id: String },
    /// Restore the snapshot just read and check the network.
    RestoreSnapshot,
    /// The deactivation is over.
    Finish,
}

/// The first step of disabling the protection recorded in `state`: stop its runtime.
pub fn deactivation_start(state: &RuntimeState) -> (r: (Deactivation, DeactivationWork))
    ensures
        r.0 == Deactivation::Stopping,
        r.1 == (DeactivationWork::StopRuntime { pid: state.runtime_pid }),
{
    (Deactivation::Stopping, DeactivationWork::StopRuntime { pid: state.runtime_pid })
}

/// How an outcome moves the deactivation, from the state `a` it starts the step in: once the
/// runtime stopped, the recorded snapshot is read, or there is none and it ends; a snapshot
/// found is restored; the restored network ends it. An outcome out of turn ends it too.
pub open spec fn deactivation_moves(stage: Deactivation, outcome: DeactivationOutcome, a: RuntimeState, next: Deactivation, work: DeactivationWork) -> bool {
    match stage {
        Deactivation::Stopping => match outcome {
            DeactivationOutcome::RuntimeStopped => match a.snapshot_id {
                Some(id) => next == Deactivation::Loading && work == (DeactivationWork::LoadSnapshot { snapshot_id: id }),
                None => next == Deactivation::Done && work == DeactivationWork::Finish,
            },
            _ => next == Deactivation::Done && work == DeactivationWork::Finish,
        },
        Deactivation::Loading => match outcome {
            DeactivationOutcome::SnapshotLoaded(found) => if found {
                next == Deactivation::Restoring && work == DeactivationWork::RestoreSnapshot
            } else {
                next == Deactivation::Done && work == DeactivationWork::Finish
            },
            _ => next == Deactivation::Done && work == DeactivationWork::Finish,
        },
        _ => next == Deactivation::Done && work == DeactivationWork::Finish,
    }
}

/// What each step does to the state `a`, giving `b`, and writes to the log: stopping marks the
/// protection as recovering (and, with no snapshot recorded, as unrestorable), a missing
/// snapshot is unrestorable, and the restored network decides the outcome.
pub open spec fn deactivation_effect(
    stage: Deactivation,
    outcome: DeactivationOutcome,
    a: RuntimeState,
    b: RuntimeState,
    now: Timestamp,
    bundle: BlocklistBundle,
    log: Seq<EventRecord>,
) -> bool {
    match stage {
        Deactivation::Stopping => match outcome {
            DeactivationOutcome::RuntimeStopped => if a.snapshot_id is Some {
                stopped(a, b, now) && log.len() == 0
            } else {
                log.len() == 1 && exists|m: RuntimeState| stopped(a, m, now) && #[trigger] unrestorable(m, b, now, log[0])
            },
            _ => b == a && log.len() == 0,
        },
        Deactivation::Loading => match outcome {
            DeactivationOutcome::SnapshotLoaded(found) => if found {
                b == a && log.len() == 0
            } else {
                log.len() == 1 && unrestorable(a, b, now, log[0])
            },
            _ => b == a && log.len() == 0,
        },
        Deactivation::Restoring => match outcome {
            DeactivationOutcome::Restored(verification) => log.len() == 1 && deactivated(a, b, verification, now, bundle, log[0]),
            _ => b == a && log.len() == 0,
        },
        Deactivation::Done => b == a && log.len() == 0,
    }
}

/// Takes one outcome: updates the state, and gives the next stage, the work to do next and the
/// events to append to the log.
pub fn deactivation_step(
    state: &mut RuntimeState,
    stage: Deactivation,
    outcome: DeactivationOutcome,
    now: Timestamp,
    bundle: &BlocklistBundle,
) -> (r: (Deactivation, DeactivationWork, Vec<EventRecord>))
    ensures
        deactivation_moves(stage, outcome, *old(state), r.0, r.1),
        deactivation_effect(stage, outcome, *old(state), *final(state), now, *bundle, r.2@),
        old(state).recoverable() ==> final(state).recoverable(),
{
    match stage {
        Deactivation::Stopping => match outcome {
            DeactivationOutcome::RuntimeStopped => {
                let snapshot_id = match &state.snapshot_id {
                    Some(id) => Some(id.clone()),
                    None => None,
                };
                begin_deactivation(state, now);
                match snapshot_id {
                    Some(id) => (Deactivation::Loading, DeactivationWork::LoadSnapshot { snapshot_id: id }, Vec::new()),
                    None => {
                        let ghost stopped_state = *state;
                        let event = deactivation_without_snapshot(state, now);
                        assert(unrestorable(stopped_state, *state, now, event));
                        let mut log: Vec<EventRecord> = Vec::new();
                        log.push(event);
                        assert(stopped(*old(state), stopped_state, now));
                        assert(unrestorable(stopped_state, *state, now, log@[0]));
                        (Deactivation::Done, DeactivationWork::Finish, log)
                    },
                }
            },
            _ => (Deactivation::Done, DeactivationWork::Finish, Vec::new()),
        },
        Deactivation::Loading => match outcome {
            DeactivationOutcome::SnapshotLoaded(found) => if found {
                (Deactivation::Restoring, DeactivationWork::RestoreSnapshot, Vec::new())
            } else {
                let event = deactivation_without_snapshot(state, now);
                let mut log: Vec<EventRecord> = Vec::new();
                log.push(event);
                (Deactivation::Done, DeactivationWork::Finish, log)
            },
            _ => (Deactivation::Done, DeactivationWork::Finish, Vec::new()),
        },
        Deactivation::Restoring => match outcome {
            DeactivationOutcome::Restored(verification) => {
                let event = finish_deactivation(state, verification, now, bundle);
                let mut log: Vec<EventRecord> = Vec::new();
                log.push(event);
                (Deactivation::Done, DeactivationWork::Finish, log)
            },
            _ => (Deactivation::Done, DeactivationWork::Finish, Vec::new()),
        },
        Deactivation::Done => (Deactivation::Done, DeactivationWork::Finish, Vec::new()),
    }
}

/// A run of the deactivation from its start: stage `i`, in the state `states[i]`, takes
/// outcome `i` to stage `i + 1`, asking for work `i`.
pub open spec fn deactivation_run(
    states: Seq<RuntimeState>,
    stages: Seq<Deactivation>,
    outcomes: Seq<DeactivationOutcome>,
    works: Seq<DeactivationWork>,
) -> bool {
    &&& stages.len() == outcomes.len() + 1
    &&& states.len() == stages.len()
    &&& works.len() == outcomes.len()
    &&& stages[0] == Deactivation::Stopping
    &&& forall|i: int| 0 <= i < outcomes.len() ==> #[trigger] deactivation_moves(stages[i], outcomes[i], states[i], stages[i + 1], works[i])
}

/// Where a run can be: stopping only at its start, loading only right after the runtime
/// stopped, restoring only right after that.
proof fn lemma_deactivation_stages(
    states: Seq<RuntimeState>,
    stages: Seq<Deactivation>,
    outcomes: Seq<DeactivationOutcome>,
    works: Seq<DeactivationWork>,
    k: int,
)
    requires
        deactivation_run(states, stages, outcomes, works),
        0 <= k < stages.len(),
    ensures
        stages[k] == Deactivation::Stopping ==> k == 0,
        stages[k] == Deactivation::Loading ==> k == 1 && outcomes[0] == DeactivationOutcome::RuntimeStopped
            && states[0].snapshot_id is Some
            && works[0] == (DeactivationWork::LoadSnapshot { snapshot_id: states[0].snapshot_id->Some_0 }),
        stages[k] == Deactivation::Restoring ==> k == 2 && stages[1] == Deactivation::Loading,
    decreases k,
{
    if k > 0 {
        lemma_deactivation_stages(states, stages, outcomes, works, k - 1);
        let p = k - 1;
        assert(deactivation_moves(stages[p], outcomes[p], states[p], stages[p + 1], works[p]));
        assert(p + 1 == k);
        if stages[k] == Deactivation::Restoring {
            lemma_deactivation_stages(states, stages, outcomes, works, 1);
        }
    }
}

/// The network is restored only after the runtime stopped, and from the snapshot that the
/// state recorded when disabling began: in every run of the deactivation, the restore is asked
/// for second, after the runtime was reported stopped and that snapshot was asked for.
pub proof fn lemma_restore_follows_stop(
    states: Seq<RuntimeState>,
    stages: Seq<Deactivation>,
    outcomes: Seq<DeactivationOutcome>,
    works: Seq<DeactivationWork>,
    i: int,
)
    requires
        deactivation_run(states, stages, outcomes, works),
        0 <= i < works.len(),
        works[i] == DeactivationWork::RestoreSnapshot,
    ensures
        i == 1,
        outcomes[0] == DeactivationOutcome::RuntimeStopped,
        states[0].snapshot_id is Some,
        works[0] == (DeactivationWork::LoadSnapshot { snapshot_id: states[0].snapshot_id->Some_0 }),
{
    assert(deactivation_moves(stages[i], outcomes[i], states[i], stages[i + 1], works[i]));
    lemma_deactivation_stages(states, stages, outcomes, works, i);
}

} // verus!
