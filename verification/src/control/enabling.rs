//! Enabling the protection as a sequence of steps: each step takes what the last piece of
//! outside work reported, updates the runtime state, and says which work comes next. The
//! caller does the work (checks, snapshots, processes, `networksetup`) and feeds the outcome
//! back until the work is `Finish`.
use vstd::prelude::*;

use crate::blocking::blocklist::BlocklistBundle;
use crate::clock::Timestamp;
use crate::control::activation::{
    began, begin_activation, blocked, block_activation, complete_activation, completed, fail_activation, failed,
    local_dns_servers, safety_allows_activation,
};
use crate::storage::events::{records_safety, safety_event, EventRecord};
use crate::storage::state::{RestoreVerification, RuntimeState, SafetyCheckSummary};
use crate::text::views;

verus! {

/// Where an activation stands.
#[derive(Debug)]
pub enum Activation {
    /// The safety checks have not run yet.
    Checking,
    /// The checks passed: a snapshot has to be captured before the network is touched.
    Capturing { safety: SafetyCheckSummary },
    /// The snapshot `snapshot_id` of `services` is recorded: the runtime has to start.
    Starting { snapshot_id: String, services: Vec<String> },
    /// The runtime runs: `services[next..]` still have to use it.
    Applying { snapshot_id: String, services: Vec<String>, runtime_pid: u32, runtime_addr: String, next: usize },
    /// A DNS change failed with `error`: the network is being put back.
    RollingBack { error: String },
    /// Nothing is left to do.
    Done,
}

/// What a piece of outside work reported.
#[derive(Debug)]
pub enum ActivationOutcome {
    /// The safety checks ran.
    Checked(SafetyCheckSummary),
    /// The DNS servers of `services` were captured and saved as the snapshot `snapshot_id`.
    Captured { snapshot_id: String, services: Vec<String> },
    /// The runtime started as process `pid`, listening on `addr`.
    Started { pid: u32, addr: String },
    /// The service asked for now uses the given servers.
    DnsSet,
    /// Changing the service's DNS failed.
    DnsFailed(String),
    /// The runtime was stopped and the snapshot restored; this is what the network looks like.
    RolledBack(RestoreVerification),
}

/// The outside work an activation asks for.
#[derive(Debug)]
pub enum ActivationWork {
    /// Capture the DNS servers of every service and save them as a snapshot.
    CaptureSnapshot,
    /// Start the runtime and give it time to listen.
    StartRuntime,
    /// Point `service` at `servers`.
    SetDns { service: String, servers: Vec<String> },
    /// Stop the runtime `runtime_pid`, restore the snapshot and check the network.
    RollBack { runtime_pid: u32 },
    /// The activation is over.
    Finish,
}

/// The state records what the stage relies on: from the snapshot on, the snapshot and the
/// checks that allowed it; while applying, a service still to do.
pub open spec fn recorded(stage: Activation, s: RuntimeState) -> bool {
    match stage {
        Activation::Starting { snapshot_id, .. } => s.snapshot_id == Some(snapshot_id) && s.last_safety_check is Some,
        Activation::Applying { snapshot_id, services, next, .. } => s.snapshot_id == Some(snapshot_id)
            && s.last_safety_check is Some && next < services@.len(),
        _ => true,
    }
}

/// The stage after the runtime came up with `k` services done: the next service to point at
/// the local resolver, or the end.
pub open spec fn applying_from(
    snapshot_id: String,
    services: Vec<String>,
    runtime_pid: u32,
    runtime_addr: String,
    k: int,
    next: Activation,
    work: ActivationWork,
) -> bool {
    if k < services@.len() {
        &&& next matches Activation::Applying { snapshot_id: i, services: v, runtime_pid: p, runtime_addr: r, next: n }
            && i == snapshot_id && v == services && p == runtime_pid && r == runtime_addr && n == k
        &&& work matches ActivationWork::SetDns { service, servers } && service == services@[k]
            && views(servers@) == seq!["127.0.0.1"@]
    } else {
        next == Activation::Done && work == ActivationWork::Finish
    }
}

/// How an outcome moves the activation: checks that fail end it, checks that pass ask for the
/// snapshot, the snapshot asks for the runtime, the runtime and each DNS change ask for the
/// next service, a failed change asks to roll back, and the roll-back ends it. An outcome that
/// does not belong to the stage ends it too.
pub open spec fn activation_moves(stage: Activation, outcome: ActivationOutcome, next: Activation, work: ActivationWork) -> bool {
    match stage {
        Activation::Checking => match outcome {
            ActivationOutcome::Checked(safety) => if safety.connectivity_ready && safety.recovery_ready {
                next == Activation::Capturing { safety } && work == ActivationWork::CaptureSnapshot
            } else {
                next == Activation::Done && work == ActivationWork::Finish
            },
            _ => next == Activation::Done && work == ActivationWork::Finish,
        },
        Activation::Capturing { .. } => match outcome {
            ActivationOutcome::Captured { snapshot_id, services } => next == Activation::Starting { snapshot_id, services }
                && work == ActivationWork::StartRuntime,
            _ => next == Activation::Done && work == ActivationWork::Finish,
        },
        Activation::Starting { snapshot_id, services } => match outcome {
            ActivationOutcome::Started { pid, addr } => applying_from(snapshot_id, services, pid, addr, 0, next, work),
            _ => next == Activation::Done && work == ActivationWork::Finish,
        },
        Activation::Applying { snapshot_id, services, runtime_pid, runtime_addr, next: k } => match outcome {
            ActivationOutcome::DnsSet => applying_from(snapshot_id, services, runtime_pid, runtime_addr, k + 1, next, work),
            ActivationOutcome::DnsFailed(error) => next == Activation::RollingBack { error }
                && work == ActivationWork::RollBack { runtime_pid },
            _ => next == Activation::Done && work == ActivationWork::Finish,
        },
        _ => next == Activation::Done && work == ActivationWork::Finish,
    }
}

/// What each step does to the state `a`, giving `b`, and writes to the log: a refusal degrades
/// the protection, the snapshot starts the change, the last service completes it, and a
/// roll-back records the failure; everything else leaves the state alone.
pub open spec fn activation_effect(
    stage: Activation,
    outcome: ActivationOutcome,
    a: RuntimeState,
    b: RuntimeState,
    now: Timestamp,
    bundle: BlocklistBundle,
    log: Seq<EventRecord>,
) -> bool {
    match stage {
        Activation::Checking => match outcome {
            ActivationOutcome::Checked(safety) => if safety.connectivity_ready && safety.recovery_ready {
                b == a && log.len() == 1 && records_safety(safety, log[0])
            } else {
                log.len() == 2 && records_safety(safety, log[0]) && blocked(a, b, safety, log[1])
            },
            _ => b == a && log.len() == 0,
        },
        Activation::Capturing { safety } => match outcome {
            ActivationOutcome::Captured { snapshot_id, .. } => began(a, b, snapshot_id, now, safety) && log.len() == 0,
            _ => b == a && log.len() == 0,
        },
        Activation::Starting { snapshot_id, services } => match outcome {
            ActivationOutcome::Started { pid, addr } => if services@.len() == 0 {
                log.len() == 1 && completed(a, b, pid, addr, snapshot_id, now, bundle, a.last_safety_check->Some_0, log[0])
            } else {
                b == a && log.len() == 0
            },
            _ => b == a && log.len() == 0,
        },
        Activation::Applying { snapshot_id, services, runtime_pid, runtime_addr, next: k } => match outcome {
            ActivationOutcome::DnsSet => if k + 1 >= services@.len() {
                log.len() == 1 && completed(
                    a,
                    b,
                    runtime_pid,
                    runtime_addr,
                    snapshot_id,
                    now,
                    bundle,
                    a.last_safety_check->Some_0,
                    log[0],
                )
            } else {
                b == a && log.len() == 0
            },
            _ => b == a && log.len() == 0,
        },
        Activation::RollingBack { error } => match outcome {
            ActivationOutcome::RolledBack(verification) => log.len() == 1 && failed(a, b, verification, error@, log[0]),
            _ => b == a && log.len() == 0,
        },
        Activation::Done => b == a && log.len() == 0,
    }
}

/// The stage after the runtime came up with `k` services done.
fn apply_from(
    state: &mut RuntimeState,
    snapshot_id: String,
    services: Vec<String>,
    runtime_pid: u32,
    runtime_addr: String,
    k: usize,
    now: Timestamp,
    bundle: &BlocklistBundle,
) -> (r: (Activation, ActivationWork, Vec<EventRecord>))
    requires
        old(state).snapshot_id == Some(snapshot_id),
        old(state).last_safety_check is Some,
        k <= services@.len(),
    ensures
        applying_from(snapshot_id, services, runtime_pid, runtime_addr, k as int, r.0, r.1),
        recorded(r.0, *final(state)),
        if k < services@.len() {
            *final(state) == *old(state) && r.2@.len() == 0
        } else {
            r.2@.len() == 1 && completed(
                *old(state),
                *final(state),
                runtime_pid,
                runtime_addr,
                snapshot_id,
                now,
                *bundle,
                old(state).last_safety_check->Some_0,
                r.2@[0],
            )
        },
        old(state).recoverable() ==> final(state).recoverable(),
{
    if k < services.len() {
        let service = services[k].clone();
        let work = ActivationWork::SetDns { service, servers: local_dns_servers() };
        (Activation::Applying { snapshot_id, services, runtime_pid, runtime_addr, next: k }, work, Vec::new())
    } else {
        let safety = match state.last_safety_check.take() {
            Some(s) => s,
            None => {
                return (Activation::Done, ActivationWork::Finish, Vec::new());
            },
        };
        let event = complete_activation(state, runtime_pid, runtime_addr, snapshot_id, now, bundle, safety);
        let mut log: Vec<EventRecord> = Vec::new();
        log.push(event);
        (Activation::Done, ActivationWork::Finish, log)
    }
}

/// Takes one outcome: updates the state, and gives the next stage, the work to do next and the
/// events to append to the log, in order.
pub fn activation_step(
    state: &mut RuntimeState,
    stage: Activation,
    outcome: ActivationOutcome,
    now: Timestamp,
    bundle: &BlocklistBundle,
) -> (r: (Activation, ActivationWork, Vec<EventRecord>))
    requires
        recorded(stage, *old(state)),
    ensures
        activation_moves(stage, outcome, r.0, r.1),
        activation_effect(stage, outcome, *old(state), *final(state), now, *bundle, r.2@),
        recorded(r.0, *final(state)),
        old(state).recoverable() ==> final(state).recoverable(),
{
    match stage {
        Activation::Checking => match outcome {
            ActivationOutcome::Checked(safety) => {
                let mut log: Vec<EventRecord> = Vec::new();
                log.push(safety_event(&safety));
                if safety_allows_activation(&safety) {
                    (Activation::Capturing { safety }, ActivationWork::CaptureSnapshot, log)
                } else {
                    let event = block_activation(state, safety);
                    log.push(event);
                    (Activation::Done, ActivationWork::Finish, log)
                }
            },
            _ => (Activation::Done, ActivationWork::Finish, Vec::new()),
        },
        Activation::Capturing { safety } => match outcome {
            ActivationOutcome::Captured { snapshot_id, services } => {
                begin_activation(state, snapshot_id.clone(), now, safety);
                (Activation::Starting { snapshot_id, services }, ActivationWork::StartRuntime, Vec::new())
            },
            _ => (Activation::Done, ActivationWork::Finish, Vec::new()),
        },
        Activation::Starting { snapshot_id, services } => match outcome {
            ActivationOutcome::Started { pid, addr } => apply_from(state, snapshot_id, services, pid, addr, 0, now, bundle),
            _ => (Activation::Done, ActivationWork::Finish, Vec::new()),
        },
        Activation::Applying { snapshot_id, services, runtime_pid, runtime_addr, next } => match outcome {
            ActivationOutcome::DnsSet => {
                let count = services.len();
                assert(next < count);
                apply_from(state, snapshot_id, services, runtime_pid, runtime_addr, next + 1, now, bundle)
            },
            ActivationOutcome::DnsFailed(error) => (
                Activation::RollingBack { error },
                ActivationWork::RollBack { runtime_pid },
                Vec::new(),
            ),
            _ => (Activation::Done, ActivationWork::Finish, Vec::new()),
        },
        Activation::RollingBack { error } => match outcome {
            ActivationOutcome::RolledBack(verification) => {
                let event = fail_activation(state, verification, error.as_str());
                let mut log: Vec<EventRecord> = Vec::new();
                log.push(event);
                (Activation::Done, ActivationWork::Finish, log)
            },
            _ => (Activation::Done, ActivationWork::Finish, Vec::new()),
        },
        Activation::Done => (Activation::Done, ActivationWork::Finish, Vec::new()),
    }
}

/// A run of the activation from its start: stage `i` takes outcome `i` to stage `i + 1`,
/// asking for work `i`.
pub open spec fn activation_run(stages: Seq<Activation>, outcomes: Seq<ActivationOutcome>, works: Seq<ActivationWork>) -> bool {
    &&& stages.len() == outcomes.len() + 1
    &&& works.len() == outcomes.len()
    &&& stages[0] == Activation::Checking
    &&& forall|i: int| 0 <= i < outcomes.len() ==> #[trigger] activation_moves(stages[i], outcomes[i], stages[i + 1], works[i])
}

/// `outcome` reported the snapshot `snapshot_id` of `services`.
pub open spec fn captured(outcome: ActivationOutcome, snapshot_id: String, services: Vec<String>) -> bool {
    outcome == ActivationOutcome::Captured { snapshot_id, services }
}

/// A stage that holds a snapshot got it from an earlier outcome of the run.
proof fn lemma_snapshot_comes_from_capture(stages: Seq<Activation>, outcomes: Seq<ActivationOutcome>, works: Seq<ActivationWork>, k: int)
    requires
        activation_run(stages, outcomes, works),
        0 <= k < stages.len(),
    ensures
        stages[k] matches Activation::Starting { snapshot_id, services }
            ==> exists|j: int| 0 <= j < k && captured(#[trigger] outcomes[j], snapshot_id, services),
        stages[k] matches Activation::Applying { snapshot_id, services, .. }
            ==> exists|j: int| 0 <= j < k && captured(#[trigger] outcomes[j], snapshot_id, services),
    decreases k,
{
    if k > 0 {
        lemma_snapshot_comes_from_capture(stages, outcomes, works, k - 1);
        let p = k - 1;
        assert(0 <= p < outcomes.len());
        assert(activation_moves(stages[p], outcomes[p], stages[p + 1], works[p]));
        assert(p + 1 == k);
        match stages[k - 1] {
            Activation::Capturing { .. } => {
                if let ActivationOutcome::Captured { snapshot_id, services } = outcomes[k - 1] {
                    assert(captured(outcomes[k - 1], snapshot_id, services));
                }
            },
            _ => {},
        }
    }
}

/// The network is touched only after a snapshot: in every run of the activation, each DNS
/// change is asked for after an outcome reported the snapshot captured, and it is for one of
/// the services that the snapshot holds.
pub proof fn lemma_snapshot_before_dns_change(stages: Seq<Activation>, outcomes: Seq<ActivationOutcome>, works: Seq<ActivationWork>, i: int)
    requires
        activation_run(stages, outcomes, works),
        0 <= i < works.len(),
        works[i] is SetDns,
    ensures
        exists|j: int, snapshot_id: String, services: Vec<String>|
            0 <= j < i && #[trigger] captured(outcomes[j], snapshot_id, services)
                && services@.contains(works[i]->service),
{
    lemma_snapshot_comes_from_capture(stages, outcomes, works, i);
    assert(activation_moves(stages[i], outcomes[i], stages[i + 1], works[i]));
    match stages[i] {
        Activation::Starting { snapshot_id, services } => {
            assert(services@[0] == works[i]->service);
            let j = choose|j: int| 0 <= j < i && captured(#[trigger] outcomes[j], snapshot_id, services);
            assert(services@.contains(works[i]->service));
            assert(captured(outcomes[j], snapshot_id, services));
        },
        Activation::Applying { snapshot_id, services, next, .. } => {
            assert(services@[next + 1] == works[i]->service);
            let j = choose|j: int| 0 <= j < i && captured(#[trigger] outcomes[j], snapshot_id, services);
            assert(services@.contains(works[i]->service));
            assert(captured(outcomes[j], snapshot_id, services));
        },
        _ => {},
    }
}

/// `work` asks to point `service` at the local resolver.
pub open spec fn asks_dns_for(work: ActivationWork, service: String) -> bool {
    work matches ActivationWork::SetDns { service: s, .. } && s == service
}

/// One of the first `n` works of a run asked to switch `service`, and the outcome that followed
/// reported it done.
pub open spec fn switched_within(works: Seq<ActivationWork>, outcomes: Seq<ActivationOutcome>, n: int, service: String) -> bool {
    exists|t: int| 0 <= t < n && #[trigger] asks_dns_for(works[t], service) && outcomes[t + 1] == ActivationOutcome::DnsSet
}

/// While services are being switched, every service before the current one was asked for and
/// reported done, and the current one was asked for by the step just before.
proof fn lemma_services_switched_in_order(
    stages: Seq<Activation>,
    outcomes: Seq<ActivationOutcome>,
    works: Seq<ActivationWork>,
    k: int,
)
    requires
        activation_run(stages, outcomes, works),
        0 <= k < stages.len(),
    ensures
        stages[k] matches Activation::Applying { services, next, .. } ==> {
            &&& k >= 1
            &&& next < services@.len()
            &&& asks_dns_for(works[k - 1], services@[next as int])
            &&& forall|m: int| 0 <= m < next ==> #[trigger] switched_within(works, outcomes, k - 1, services@[m])
        },
    decreases k,
{
    if k > 0 {
        lemma_services_switched_in_order(stages, outcomes, works, k - 1);
        let p = k - 1;
        assert(activation_moves(stages[p], outcomes[p], stages[p + 1], works[p]));
        assert(p + 1 == k);
        if let Activation::Applying { services, next, .. } = stages[k] {
            match stages[p] {
                Activation::Starting { snapshot_id, services: sv } => {
                    if let ActivationOutcome::Started { pid, addr } = outcomes[p] {
                        assert(applying_from(snapshot_id, sv, pid, addr, 0, stages[k], works[p]));
                    } else {
                        assert(false);
                    }
                },
                Activation::Applying { snapshot_id, services: sv, runtime_pid, runtime_addr, next: n } => {
                    if outcomes[p] == ActivationOutcome::DnsSet {
                        assert(applying_from(snapshot_id, sv, runtime_pid, runtime_addr, n + 1, stages[k], works[p]));
                        assert(sv == services && next == n + 1);
                        assert forall|m: int| 0 <= m < next implies #[trigger] switched_within(works, outcomes, k - 1, services@[m]) by {
                            if m == n {
                                let t = p - 1;
                                assert(t + 1 == p);
                                assert(asks_dns_for(works[t], services@[m]) && outcomes[t + 1] == ActivationOutcome::DnsSet);
                            } else {
                                assert(services@[m] == sv@[m]);
                                assert(switched_within(works, outcomes, p - 1, sv@[m]));
                                let t = choose|t: int| 0 <= t < p - 1 && #[trigger] asks_dns_for(works[t], sv@[m])
                                    && outcomes[t + 1] == ActivationOutcome::DnsSet;
                                assert(asks_dns_for(works[t], services@[m]) && outcomes[t + 1] == ActivationOutcome::DnsSet);
                            }
                        }
                    } else {
                        assert(false);
                    }
                },
                _ => {
                    assert(false);
                },
            }
        }
    }
}

/// The protection is reported active only after every service of the snapshot uses the local
/// resolver: in every run of the activation, the step that completes it follows, for each of
/// those services, a step that asked to switch it and an outcome that reported it done.
pub proof fn lemma_active_after_every_service(
    stages: Seq<Activation>,
    outcomes: Seq<ActivationOutcome>,
    works: Seq<ActivationWork>,
    i: int,
)
    requires
        activation_run(stages, outcomes, works),
        0 <= i < outcomes.len(),
        stages[i] is Applying,
        outcomes[i] == ActivationOutcome::DnsSet,
        works[i] == ActivationWork::Finish,
    ensures
        stages[i] matches Activation::Applying { services, .. } ==> forall|m: int|
            0 <= m < services@.len() ==> #[trigger] switched_within(works, outcomes, i, services@[m]),
{
    lemma_services_switched_in_order(stages, outcomes, works, i);
    assert(activation_moves(stages[i], outcomes[i], stages[i + 1], works[i]));
    if let Activation::Applying { services, next, .. } = stages[i] {
        assert(next + 1 >= services@.len());
        assert forall|m: int| 0 <= m < services@.len() implies #[trigger] switched_within(works, outcomes, i, services@[m]) by {
            if m == next {
                let t = i - 1;
                assert(t + 1 == i);
                assert(asks_dns_for(works[t], services@[m]) && outcomes[t + 1] == ActivationOutcome::DnsSet);
            } else {
                assert(switched_within(works, outcomes, i - 1, services@[m]));
                let t = choose|t: int| 0 <= t < i - 1 && #[trigger] asks_dns_for(works[t], services@[m])
                    && outcomes[t + 1] == ActivationOutcome::DnsSet;
                assert(asks_dns_for(works[t], services@[m]) && outcomes[t + 1] == ActivationOutcome::DnsSet);
            }
        }
    }
}

} // verus!
