//! Recovery snapshots of the DNS configuration and the state after restoring one.
use vstd::prelude::*;

use crate::app::AppPaths;
use crate::clock::{utc_now, Timestamp};
use crate::control::snapshot;
use crate::ids::new_uuid;
use crate::storage::config::ConfigStore;
use crate::storage::events::{EventKind, EventRecord, EventStore, Severity};
use crate::storage::state::{ProtectionMode, RestoreVerification, RiskLevel, RuntimeState, StateStore};
use crate::text::{clone_strings, concat, join_path, owned, spec_join_path, views};

verus! {

/// The DNS servers of one network service, as a recovery snapshot stores them.
#[derive(Debug, Clone)]
pub struct NetworkServiceSnapshot {
    pub service: String,
    pub dns_servers: Vec<String>,
}

/// What Sentinel saves before changing the network, to put it back later.
#[derive(Debug, Clone)]
pub struct NetworkRecoverySnapshot {
    pub snapshot_id: String,
    pub captured_at: Timestamp,
    pub affected_services: Vec<String>,
    pub dns_state: Vec<NetworkServiceSnapshot>,
    pub routing_state: Vec<String>,
    pub restorable: bool,
}

/// The name of the file that holds the snapshot `id`.
pub open spec fn snapshot_file_name(id: Seq<char>) -> Seq<char> {
    id + ".json"@
}

pub open spec fn entry_view(s: NetworkServiceSnapshot) -> (Seq<char>, Seq<Seq<char>>) {
    (s.service@, views(s.dns_servers@))
}

pub open spec fn entries_view(v: Seq<NetworkServiceSnapshot>) -> Seq<(Seq<char>, Seq<Seq<char>>)> {
    v.map_values(|s: NetworkServiceSnapshot| entry_view(s))
}

/// The file name of the snapshot `id`.
pub fn snapshot_file(id: &str) -> (r: String)
    ensures
        r@ == snapshot_file_name(id@),
{
    concat(id, ".json")
}

/// Pairs each service with the servers read for it.
pub fn pair_services(services: &Vec<String>, servers: Vec<Vec<String>>) -> (r: Vec<NetworkServiceSnapshot>)
    requires
        services.len() == servers.len(),
    ensures
        r@.len() == services@.len(),
        forall|i: int| 0 <= i < services@.len() ==> #[trigger] entry_view(r@[i]) == (services@[i]@, views(servers@[i]@)),
{
    let mut r: Vec<NetworkServiceSnapshot> = Vec::new();
    for i in 0..services.len()
        invariant
            services.len() == servers.len(),
            r@.len() == i,
            forall|k: int| 0 <= k < i ==> #[trigger] entry_view(r@[k]) == (services@[k]@, views(servers@[k]@)),
    {
        r.push(NetworkServiceSnapshot { service: services[i].clone(), dns_servers: clone_strings(&servers[i]) });
    }
    r
}

impl NetworkRecoverySnapshot {
    /// The file that holds this snapshot.
    pub fn file_path(&self, paths: &AppPaths) -> (r: String)
        ensures
            r@ == spec_join_path(paths.snapshots_dir@, snapshot_file_name(self.snapshot_id@)),
    {
        let name = snapshot_file(self.snapshot_id.as_str());
        join_path(paths.snapshots_dir.as_str(), name.as_str())
    }

    /// A restorable snapshot of `services` and their servers, with a fresh identifier,
    /// taken now, recording that only DNS was changed.
    pub fn capture(services: Vec<String>, dns_state: Vec<NetworkServiceSnapshot>) -> (r: NetworkRecoverySnapshot)
        ensures
            r.affected_services@ == services@,
            r.dns_state@ == dns_state@,
            views(r.routing_state@) == seq!["dns_only"@],
            r.restorable,
            r.snapshot_id@.len() == 36,
            r.captured_at.wf(),
    {
        let mut routing_state: Vec<String> = Vec::new();
        routing_state.push(owned("dns_only"));
        assert(views(routing_state@) =~= seq!["dns_only"@]);
        NetworkRecoverySnapshot {
            snapshot_id: new_uuid(),
            captured_at: utc_now(),
            affected_services: services,
            dns_state,
            routing_state,
            restorable: true,
        }
    }

    /// The snapshot as the restoration check expects it.
    pub fn to_network_snapshot(&self) -> (r: snapshot::NetworkSnapshot)
        ensures
            r.id@ == self.snapshot_id@,
            r.captured_at == self.captured_at,
            r.interface_scope@ == self.affected_services@,
            snapshot::services_view(r.services@) == entries_view(self.dns_state@),
            r.restorable == self.restorable,
    {
        let mut services: Vec<snapshot::NetworkServiceSnapshot> = Vec::new();
        for i in 0..self.dns_state.len()
            invariant
                snapshot::services_view(services@) == entries_view(self.dns_state@).take(i as int),
        {
            let ghost before = services@;
            let entry = &self.dns_state[i];
            let item = snapshot::NetworkServiceSnapshot { service: entry.service.clone(), dns_servers: clone_strings(&entry.dns_servers) };
            assert(snapshot::service_view(item) == entry_view(*entry));
            services.push(item);
            assert(snapshot::services_view(services@) =~= snapshot::services_view(before).push(snapshot::service_view(item)));
            assert(entries_view(self.dns_state@).take(i + 1) =~= entries_view(self.dns_state@).take(i as int).push(entry_view(*entry)));
            assert(snapshot::services_view(services@) =~= entries_view(self.dns_state@).take(i + 1));
        }
        assert(entries_view(self.dns_state@).take(self.dns_state.len() as int) =~= entries_view(self.dns_state@));
        snapshot::NetworkSnapshot {
            id: self.snapshot_id.clone(),
            captured_at: self.captured_at,
            interface_scope: clone_strings(&self.affected_services),
            services,
            restorable: self.restorable,
        }
    }
}

/// Restores the network from snapshots and records the result.
pub struct RecoveryController<'a> {
    pub paths: &'a AppPaths,
    pub config_store: &'a ConfigStore,
    pub state_store: &'a StateStore,
    pub event_store: &'a EventStore,
}

impl<'a> RecoveryController<'a> {
    pub fn new(
        paths: &'a AppPaths,
        config_store: &'a ConfigStore,
        state_store: &'a StateStore,
        event_store: &'a EventStore,
    ) -> (r: RecoveryController<'a>)
        ensures
            r.paths == paths,
            r.config_store == config_store,
            r.state_store == state_store,
            r.event_store == event_store,
    {
        RecoveryController { paths, config_store, state_store, event_store }
    }
}

/// Why a recovery could not start.
#[derive(Debug, Clone, Copy, PartialEq, Eq, Structural)]
pub enum RecoveryError {
    NoSnapshot,
}

impl RecoveryError {
    pub fn message(&self) -> (s: &'static str)
        ensures
            s@ == "no recoverable network snapshot was found"@,
    {
        "no recoverable network snapshot was found"
    }
}

/// The snapshot to restore: the one the state names, when it was found, else the latest one.
pub fn choose_snapshot(
    named: Option<NetworkRecoverySnapshot>,
    latest: Option<NetworkRecoverySnapshot>,
) -> (r: Result<NetworkRecoverySnapshot, RecoveryError>)
    ensures
        match named {
            Some(s) => r == Ok::<NetworkRecoverySnapshot, RecoveryError>(s),
            None => match latest {
                Some(s) => r == Ok::<NetworkRecoverySnapshot, RecoveryError>(s),
                None => r == Err::<NetworkRecoverySnapshot, RecoveryError>(RecoveryError::NoSnapshot),
            },
        },
{
    match named {
        Some(s) => Ok(s),
        None => match latest {
            Some(s) => Ok(s),
            None => Err(RecoveryError::NoSnapshot),
        },
    }
}

pub open spec fn recovered_summary() -> Seq<char> {
    "La recuperacion termino y la red coincide con el snapshot original."@
}

pub open spec fn recovered_message() -> Seq<char> {
    "Sentinel restauro el ultimo snapshot valido y verifico el estado final de la red."@
}

pub open spec fn recovered_with_differences_message() -> Seq<char> {
    "Sentinel restauro la red, pero detecto diferencias frente al snapshot esperado."@
}

/// The state after restoring the snapshot `snapshot_id` and checking the network at `now`:
/// no runtime is left; a match leaves the protection inactive with no snapshot pending, a
/// difference leaves it degraded and critical with the snapshot kept and the verdict's summary
/// shown. The bundle and the last safety check stay. The event to log says which it was.
pub fn apply_recovery(
    state: &mut RuntimeState,
    snapshot_id: &String,
    verification: RestoreVerification,
    now: Timestamp,
) -> (event: EventRecord)
    ensures
        final(state).recoverable(),
        final(state).runtime_pid is None,
        final(state).runtime_addr is None,
        final(state).last_verification_result == Some(verification),
        final(state).last_transition_at == now,
        final(state).blocklist_version == old(state).blocklist_version,
        final(state).blocklist_domain_count == old(state).blocklist_domain_count,
        final(state).last_safety_check == old(state).last_safety_check,
        verification.matches_snapshot ==> {
            &&& final(state).mode == ProtectionMode::Inactive
            &&& final(state).snapshot_id is None
            &&& final(state).risk_level == RiskLevel::Normal
            &&& final(state).status_summary@ == recovered_summary()
            &&& final(state).last_message matches Some(m) && m@ == recovered_message()
            &&& event.severity == Severity::Info
            &&& event.message@ == "Recuperacion completada a partir del ultimo snapshot disponible"@
        },
        !verification.matches_snapshot ==> {
            &&& final(state).mode == ProtectionMode::Degraded
            &&& final(state).snapshot_id matches Some(id) && id@ == snapshot_id@
            &&& final(state).risk_level == RiskLevel::Critical
            &&& final(state).status_summary@ == verification.summary@
            &&& final(state).last_message matches Some(m) && m@ == recovered_with_differences_message()
            &&& event.severity == Severity::Error
            &&& event.message@ == "La recuperacion termino con diferencias frente al snapshot esperado"@
        },
        event.kind == EventKind::Recover,
        event.blocked_domain is None,
        event.timestamp.wf(),
{
    let matches = verification.matches_snapshot;
    state.runtime_pid = None;
    state.runtime_addr = None;
    if matches {
        state.mode = ProtectionMode::Inactive;
        state.snapshot_id = None;
        state.risk_level = RiskLevel::Normal;
        state.status_summary = owned("La recuperacion termino y la red coincide con el snapshot original.");
        state.last_message = Some(
            owned("Sentinel restauro el ultimo snapshot valido y verifico el estado final de la red."),
        );
    } else {
        state.mode = ProtectionMode::Degraded;
        state.snapshot_id = Some(snapshot_id.clone());
        state.risk_level = RiskLevel::Critical;
        state.status_summary = verification.summary.clone();
        state.last_message = Some(
            owned("Sentinel restauro la red, pero detecto diferencias frente al snapshot esperado."),
        );
    }
    state.last_verification_result = Some(verification);
    state.last_transition_at = now;
    if matches {
        EventRecord::new(
            EventKind::Recover,
            Severity::Info,
            owned("Recuperacion completada a partir del ultimo snapshot disponible"),
        )
    } else {
        EventRecord::new(
            EventKind::Recover,
            Severity::Error,
            owned("La recuperacion termino con diferencias frente al snapshot esperado"),
        )
    }
}


/// The entry that sorts last by name (the later one among equal names): the snapshot file
/// that `latest` picks from a directory listing.
pub fn latest_entry(names: &Vec<String>) -> (r: Option<usize>)
    ensures
        names@.len() == 0 <==> r is None,
        r matches Some(k) ==> {
            &&& k < names@.len()
            &&& forall|j: int| 0 <= j < names@.len() ==> !crate::sorted::lex_lt(names@[k as int]@, #[trigger] names@[j]@)
            &&& forall|j: int| k < j < names@.len() ==> crate::sorted::lex_lt(#[trigger] names@[j]@, names@[k as int]@)
        },
{
    if names.len() == 0 {
        return None;
    }
    let mut best: usize = 0;
    let mut j: usize = 1;
    proof {
        crate::sorted::lemma_lex_irreflexive(names@[0]@);
    }
    while j < names.len()
        invariant
            best < j <= names.len(),
            forall|m: int| 0 <= m < j ==> !crate::sorted::lex_lt(names@[best as int]@, #[trigger] names@[m]@),
            forall|m: int| best < m < j ==> crate::sorted::lex_lt(#[trigger] names@[m]@, names@[best as int]@),
        decreases names.len() - j,
    {
        if !crate::sorted::str_less(names[j].as_str(), names[best].as_str()) {
            proof {
                let x = names@[j as int]@;
                let b = names@[best as int]@;
                assert forall|m: int| 0 <= m < j + 1 implies !crate::sorted::lex_lt(x, #[trigger] names@[m]@) by {
                    if m == j {
                        crate::sorted::lemma_lex_irreflexive(x);
                    } else {
                        if crate::sorted::lex_lt(x, names@[m]@) {
                            if x == b {
                            } else {
                                crate::sorted::lemma_lex_total(x, b);
                                crate::sorted::lemma_lex_transitive(b, x, names@[m]@);
                            }
                        }
                    }
                }
            }
            best = j;
        } else {
            proof {
                crate::sorted::lemma_lex_asymmetric(names@[j as int]@, names@[best as int]@);
            }
        }
        j += 1;
    }
    Some(best)
}

} // verus!
