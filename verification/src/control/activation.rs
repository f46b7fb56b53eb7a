//! Turning the protection on and off: each step of the two flows is a transition of the
//! runtime state, taken once the network work before it has been done. `enabling` and
//! `disabling` chain them:
//!
//! enabling: `already_active` (stop) → safety checks → `block_activation` (stop) or
//! snapshot → `begin_activation` → DNS change → `fail_activation` or `complete_activation`;
//!
//! disabling: stop the runtime → `begin_deactivation` → restore the snapshot →
//! `finish_deactivation`, or `deactivation_without_snapshot` when there is none.
use vstd::prelude::*;

use crate::app::AppPaths;
use crate::blocking::blocklist::BlocklistBundle;
use crate::clock::Timestamp;
use crate::storage::config::ConfigStore;
use crate::storage::events::{EventKind, EventRecord, EventStore, Severity};
use crate::storage::state::{
    ProtectionMode, RestoreVerification, RiskLevel, RuntimeState, SafetyCheckSummary, StateStore,
};
use crate::text::{concat, join, join_strings, owned, views};

verus! {

/// Enables and disables the protection with the application's stores and blocklist.
pub struct ActivationController<'a> {
    pub paths: &'a AppPaths,
    pub config_store: &'a ConfigStore,
    pub state_store: &'a StateStore,
    pub event_store: &'a EventStore,
    pub blocklist: &'a BlocklistBundle,
}

impl<'a> ActivationController<'a> {
    pub fn new(
        paths: &'a AppPaths,
        config_store: &'a ConfigStore,
        state_store: &'a StateStore,
        event_store: &'a EventStore,
        blocklist: &'a BlocklistBundle,
    ) -> (r: ActivationController<'a>)
        ensures
            r.paths == paths,
            r.config_store == config_store,
            r.state_store == state_store,
            r.event_store == event_store,
            r.blocklist == blocklist,
    {
        ActivationController { paths, config_store, state_store, event_store, blocklist }
    }
}

/// The fields that a step leaves alone: the runtime, the snapshot, the bundle and the checks.
pub open spec fn same_runtime(a: RuntimeState, b: RuntimeState) -> bool {
    &&& b.runtime_pid == a.runtime_pid
    &&& b.runtime_addr == a.runtime_addr
    &&& b.snapshot_id == a.snapshot_id
    &&& b.blocklist_version == a.blocklist_version
    &&& b.blocklist_domain_count == a.blocklist_domain_count
}

/// What the safety checks report when they block: their issues joined by `" | "`, or their
/// recommended action when they list none.
pub open spec fn safety_report(safety: SafetyCheckSummary) -> Seq<char> {
    if safety.issues@.len() == 0 {
        safety.recommended_action@
    } else {
        join(views(safety.issues@), " | "@)
    }
}

pub open spec fn activation_failure_message(error: Seq<char>) -> Seq<char> {
    "La activacion fallo y Sentinel intento restaurar la red: "@ + error
}

/// Enabling does nothing when the state records a live runtime and active protection.
pub fn already_active(state: &RuntimeState, runtime_alive: bool) -> (b: bool)
    ensures
        b == (state.runtime_pid is Some && state.mode == ProtectionMode::Active && runtime_alive),
{
    state.runtime_pid.is_some() && state.mode == ProtectionMode::Active && runtime_alive
}

/// The checks allow changing the network when connectivity and recovery are both ready.
pub fn safety_allows_activation(safety: &SafetyCheckSummary) -> (b: bool)
    ensures
        b == (safety.connectivity_ready && safety.recovery_ready),
{
    safety.connectivity_ready && safety.recovery_ready
}

/// The DNS servers every service gets while the protection is on: the local resolver.
pub fn local_dns_servers() -> (r: Vec<String>)
    ensures
        views(r@) == seq!["127.0.0.1"@],
{
    let mut r: Vec<String> = Vec::new();
    r.push(owned("127.0.0.1"));
    assert(views(r@) =~= seq!["127.0.0.1"@]);
    r
}

/// `b` is `a` after the checks `safety` refused the activation, and `event` is what the log records.
pub open spec fn blocked(a: RuntimeState, b: RuntimeState, safety: SafetyCheckSummary, event: EventRecord) -> bool {
    &&& b.mode == ProtectionMode::Degraded
    &&& b.risk_level == RiskLevel::Critical
    &&& b.status_summary@ == safety.recommended_action@
    &&& b.last_message matches Some(m) && m@ == safety_report(safety)
    &&& b.last_safety_check == Some(safety)
    &&& b.last_transition_at == a.last_transition_at
    &&& b.last_verification_result == a.last_verification_result
    &&& same_runtime(a, b)
    &&& event.kind == EventKind::Error
    &&& event.severity == Severity::Error
    &&& event.message@ == "La activacion fue bloqueada porque fallaron los chequeos de seguridad"@
    &&& event.blocked_domain is None
    &&& event.timestamp.wf()
}

/// The checks refused the activation: the protection is degraded and critical, the summary is
/// their recommended action, the message their report, and they are kept as the last check.
pub fn block_activation(state: &mut RuntimeState, safety: SafetyCheckSummary) -> (event: EventRecord)
    ensures
        blocked(*old(state), *final(state), safety, event),
        final(state).recoverable(),
{
    state.mode = ProtectionMode::Degraded;
    state.risk_level = RiskLevel::Critical;
    state.status_summary = safety.recommended_action.clone();
    let report = if safety.issues.len() == 0 {
        safety.recommended_action.clone()
    } else {
        join_strings(safety.issues.as_slice(), " | ")
    };
    state.last_message = Some(report);
    state.last_safety_check = Some(safety);
    EventRecord::new(
        EventKind::Error,
        Severity::Error,
        owned("La activacion fue bloqueada porque fallaron los chequeos de seguridad"),
    )
}

/// `b` is `a` once the snapshot `snapshot_id` was captured at `now` after the checks `safety` passed.
pub open spec fn began(a: RuntimeState, b: RuntimeState, snapshot_id: String, now: Timestamp, safety: SafetyCheckSummary) -> bool {
    &&& b.mode == ProtectionMode::Recovering
    &&& b.risk_level == RiskLevel::Warning
    &&& b.snapshot_id == Some(snapshot_id)
    &&& b.status_summary@ == "Sentinel esta preparando un cambio de red con snapshot recuperable."@
    &&& b.last_message matches Some(m) && m@ == "Se capturo la configuracion original antes de activar la proteccion."@
    &&& b.last_transition_at == now
    &&& b.last_safety_check == Some(safety)
    &&& b.last_verification_result is None
    &&& b.runtime_pid == a.runtime_pid
    &&& b.runtime_addr == a.runtime_addr
    &&& b.blocklist_version == a.blocklist_version
    &&& b.blocklist_domain_count == a.blocklist_domain_count
}

/// A snapshot was captured: the protection is recovering, at warning level, with the
/// snapshot recorded, the checks kept and no verification yet.
pub fn begin_activation(state: &mut RuntimeState, snapshot_id: String, now: Timestamp, safety: SafetyCheckSummary)
    ensures
        began(*old(state), *final(state), snapshot_id, now, safety),
        final(state).recoverable(),
{
    state.mode = ProtectionMode::Recovering;
    state.risk_level = RiskLevel::Warning;
    state.snapshot_id = Some(snapshot_id);
    state.status_summary = owned("Sentinel esta preparando un cambio de red con snapshot recuperable.");
    state.last_message = Some(owned("Se capturo la configuracion original antes de activar la proteccion."));
    state.last_transition_at = now;
    state.last_safety_check = Some(safety);
    state.last_verification_result = None;
}

/// `b` is `a` after a DNS change failed with `error` and the restored network was checked, and
/// `event` is what the log records.
pub open spec fn failed(a: RuntimeState, b: RuntimeState, verification: RestoreVerification, error: Seq<char>, event: EventRecord) -> bool {
    &&& b.mode == ProtectionMode::Degraded
    &&& b.risk_level == RiskLevel::Critical
    &&& b.status_summary@ == verification.summary@
    &&& b.last_message matches Some(m) && m@ == activation_failure_message(error)
    &&& b.last_verification_result == Some(verification)
    &&& b.last_transition_at == a.last_transition_at
    &&& b.last_safety_check == a.last_safety_check
    &&& same_runtime(a, b)
    &&& event.kind == EventKind::Error
    &&& event.severity == Severity::Error
    &&& event.message@ == "La activacion fallo durante el cambio de DNS y la red fue restaurada"@
    &&& event.blocked_domain is None
    &&& event.timestamp.wf()
}

/// Changing the DNS failed with `error` and the snapshot was restored and checked: the
/// protection is degraded and critical, showing the check's summary and the error.
pub fn fail_activation(state: &mut RuntimeState, verification: RestoreVerification, error: &str) -> (event: EventRecord)
    ensures
        failed(*old(state), *final(state), verification, error@, event),
        final(state).recoverable(),
{
    state.mode = ProtectionMode::Degraded;
    state.risk_level = RiskLevel::Critical;
    state.status_summary = verification.summary.clone();
    state.last_message = Some(concat("La activacion fallo y Sentinel intento restaurar la red: ", error));
    state.last_verification_result = Some(verification);
    EventRecord::new(
        EventKind::Error,
        Severity::Error,
        owned("La activacion fallo durante el cambio de DNS y la red fue restaurada"),
    )
}

/// `b` is `a` once every service uses the local resolver, and `event` is what the log records.
pub open spec fn completed(a: RuntimeState, b: RuntimeState, runtime_pid: u32, runtime_addr: String, snapshot_id: String, now: Timestamp, bundle: BlocklistBundle, safety: SafetyCheckSummary, event: EventRecord) -> bool {
    &&& b.mode == ProtectionMode::Active
    &&& b.risk_level == safety.spec_risk_level()
    &&& b.status_summary@ == "La proteccion esta activa. Sentinel responde DNS filtrado localmente."@
    &&& b.last_message matches Some(m) && m@ == "Sentinel guardo un snapshot recuperable antes de cambiar el DNS."@
    &&& b.runtime_pid == Some(runtime_pid)
    &&& b.runtime_addr == Some(runtime_addr)
    &&& b.snapshot_id == Some(snapshot_id)
    &&& b.last_transition_at == now
    &&& b.blocklist_version@ == bundle.version@
    &&& b.blocklist_domain_count == bundle.domain_count
    &&& b.last_safety_check == Some(safety)
    &&& b.last_verification_result is None
    &&& event.kind == EventKind::Enable
    &&& event.severity == Severity::Info
    &&& event.message@ == "Proteccion activada despues de chequeos de seguridad exitosos"@
    &&& event.blocked_domain is None
    &&& event.timestamp.wf()
}

/// Every service now uses the local resolver: the protection is active at the risk level of
/// the checks, with the runtime, its address, the snapshot and the bundle recorded.
pub fn complete_activation(
    state: &mut RuntimeState,
    runtime_pid: u32,
    runtime_addr: String,
    snapshot_id: String,
    now: Timestamp,
    bundle: &BlocklistBundle,
    safety: SafetyCheckSummary,
) -> (event: EventRecord)
    ensures
        completed(*old(state), *final(state), runtime_pid, runtime_addr, snapshot_id, now, *bundle, safety, event),
        final(state).recoverable(),
{
    state.mode = ProtectionMode::Active;
    state.risk_level = safety.risk_level();
    state.status_summary = owned("La proteccion esta activa. Sentinel responde DNS filtrado localmente.");
    state.last_message = Some(owned("Sentinel guardo un snapshot recuperable antes de cambiar el DNS."));
    state.runtime_pid = Some(runtime_pid);
    state.runtime_addr = Some(runtime_addr);
    state.snapshot_id = Some(snapshot_id);
    state.last_transition_at = now;
    state.refresh_bundle(bundle);
    state.last_safety_check = Some(safety);
    state.last_verification_result = None;
    EventRecord::new(
        EventKind::Enable,
        Severity::Info,
        owned("Proteccion activada despues de chequeos de seguridad exitosos"),
    )
}

/// `b` is `a` once the runtime was stopped at `now`, before the snapshot is restored.
pub open spec fn stopped(a: RuntimeState, b: RuntimeState, now: Timestamp) -> bool {
    &&& b.mode == ProtectionMode::Recovering
    &&& b.risk_level == RiskLevel::Warning
    &&& b.status_summary@ == "Sentinel esta restaurando la configuracion original de red."@
    &&& b.last_message matches Some(m) && m@ == "Se detuvo el runtime local y ahora se restaurara el snapshot original."@
    &&& b.runtime_pid is None
    &&& b.runtime_addr is None
    &&& b.last_transition_at == now
    &&& b.snapshot_id == a.snapshot_id
    &&& b.blocklist_version == a.blocklist_version
    &&& b.blocklist_domain_count == a.blocklist_domain_count
    &&& b.last_safety_check == a.last_safety_check
    &&& b.last_verification_result == a.last_verification_result
}

/// The runtime was stopped: the protection is recovering, at warning level, with no
/// runtime recorded, while the snapshot is restored.
pub fn begin_deactivation(state: &mut RuntimeState, now: Timestamp)
    ensures
        stopped(*old(state), *final(state), now),
        final(state).recoverable(),
{
    state.mode = ProtectionMode::Recovering;
    state.risk_level = RiskLevel::Warning;
    state.status_summary = owned("Sentinel esta restaurando la configuracion original de red.");
    state.last_message = Some(owned("Se detuvo el runtime local y ahora se restaurara el snapshot original."));
    state.runtime_pid = None;
    state.runtime_addr = None;
    state.last_transition_at = now;
}

/// `b` is `a` once the snapshot was restored and checked at `now`, and `event` is what the
/// log records.
pub open spec fn deactivated(a: RuntimeState, b: RuntimeState, verification: RestoreVerification, now: Timestamp, bundle: BlocklistBundle, event: EventRecord) -> bool {
    &&& verification.matches_snapshot ==> {
        &&& b.mode == ProtectionMode::Inactive
        &&& b.risk_level == RiskLevel::Normal
        &&& b.status_summary@ == "La proteccion esta inactiva y la red original fue restaurada."@
        &&& b.last_message matches Some(m) && m@ == "Sentinel restauro y verifico correctamente la configuracion original de DNS."@
        &&& b.snapshot_id is None
        &&& event.severity == Severity::Info
        &&& event.message@ == "Proteccion desactivada y red restaurada con verificacion exitosa"@
    }
    &&& !verification.matches_snapshot ==> {
        &&& b.mode == ProtectionMode::Degraded
        &&& b.risk_level == RiskLevel::Critical
        &&& b.status_summary@ == verification.summary@
        &&& b.last_message matches Some(m) && m@ == "Sentinel desactivo la proteccion, pero detecto diferencias frente al snapshot original."@
        &&& b.snapshot_id == a.snapshot_id
        &&& event.severity == Severity::Error
        &&& event.message@ == "Proteccion desactivada, pero la restauracion no coincidio con el snapshot"@
    }
    &&& b.last_verification_result == Some(verification)
    &&& b.last_transition_at == now
    &&& b.blocklist_version@ == bundle.version@
    &&& b.blocklist_domain_count == bundle.domain_count
    &&& b.runtime_pid == a.runtime_pid
    &&& b.runtime_addr == a.runtime_addr
    &&& b.last_safety_check == a.last_safety_check
    &&& event.kind == EventKind::Disable
    &&& event.blocked_domain is None
    &&& event.timestamp.wf()
}

/// The snapshot was restored and checked at `now`: a match leaves the protection inactive at
/// normal risk with no snapshot pending, a difference leaves it degraded and critical with the
/// snapshot kept and the check's summary shown. The bundle is refreshed either way.
pub fn finish_deactivation(
    state: &mut RuntimeState,
    verification: RestoreVerification,
    now: Timestamp,
    bundle: &BlocklistBundle,
) -> (event: EventRecord)
    ensures
        deactivated(*old(state), *final(state), verification, now, *bundle, event),
        final(state).recoverable(),
{
    let matches = verification.matches_snapshot;
    if matches {
        state.mode = ProtectionMode::Inactive;
        state.risk_level = RiskLevel::Normal;
        state.status_summary = owned("La proteccion esta inactiva y la red original fue restaurada.");
        state.last_message = Some(
            owned("Sentinel restauro y verifico correctamente la configuracion original de DNS."),
        );
        state.snapshot_id = None;
    } else {
        state.mode = ProtectionMode::Degraded;
        state.risk_level = RiskLevel::Critical;
        state.status_summary = verification.summary.clone();
        state.last_message = Some(
            owned("Sentinel desactivo la proteccion, pero detecto diferencias frente al snapshot original."),
        );
    }
    state.last_verification_result = Some(verification);
    state.last_transition_at = now;
    state.refresh_bundle(bundle);
    if matches {
        EventRecord::new(
            EventKind::Disable,
            Severity::Info,
            owned("Proteccion desactivada y red restaurada con verificacion exitosa"),
        )
    } else {
        EventRecord::new(
            EventKind::Disable,
            Severity::Error,
            owned("Proteccion desactivada, pero la restauracion no coincidio con el snapshot"),
        )
    }
}

/// `b` is `a` when no snapshot could be found to restore at `now`, and `event` is what the log
/// records.
pub open spec fn unrestorable(a: RuntimeState, b: RuntimeState, now: Timestamp, event: EventRecord) -> bool {
    &&& b.mode == ProtectionMode::Degraded
    &&& b.risk_level == RiskLevel::Critical
    &&& b.status_summary@ == "No se encontro un snapshot recuperable para restaurar la red."@
    &&& b.last_message matches Some(m) && m@ == "Sentinel no pudo completar la desactivacion segura porque falta el snapshot."@
    &&& b.last_transition_at == now
    &&& b.last_safety_check == a.last_safety_check
    &&& b.last_verification_result == a.last_verification_result
    &&& same_runtime(a, b)
    &&& event.kind == EventKind::Error
    &&& event.severity == Severity::Error
    &&& event.message@ == "No se encontro un snapshot recuperable durante la desactivacion"@
    &&& event.blocked_domain is None
    &&& event.timestamp.wf()
}

/// No snapshot could be found to restore: the protection is degraded and critical.
pub fn deactivation_without_snapshot(state: &mut RuntimeState, now: Timestamp) -> (event: EventRecord)
    ensures
        unrestorable(*old(state), *final(state), now, event),
        final(state).recoverable(),
{
    state.mode = ProtectionMode::Degraded;
    state.risk_level = RiskLevel::Critical;
    state.status_summary = owned("No se encontro un snapshot recuperable para restaurar la red.");
    state.last_message = Some(owned("Sentinel no pudo completar la desactivacion segura porque falta el snapshot."));
    state.last_transition_at = now;
    EventRecord::new(
        EventKind::Error,
        Severity::Error,
        owned("No se encontro un snapshot recuperable durante la desactivacion"),
    )
}

} // verus!
