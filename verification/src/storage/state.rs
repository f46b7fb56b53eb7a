//! The persisted runtime state of the protection and the records it keeps.
use vstd::prelude::*;

use crate::app::AppPaths;
use crate::blocking::blocklist::BlocklistBundle;
use crate::clock::{utc_now, Timestamp};
use crate::ids::new_uuid;
use crate::text::{clone_strings, owned};

verus! {

/// Where the protection stands.
#[derive(Debug, Clone, Copy, PartialEq, Eq, Structural)]
pub enum ProtectionMode {
    Inactive,
    Active,
    Degraded,
    Recovering,
}

impl ProtectionMode {
    pub open spec fn spec_label(self) -> Seq<char> {
        match self {
            ProtectionMode::Inactive => "Inactiva"@,
            ProtectionMode::Active => "Activa"@,
            ProtectionMode::Degraded => "Degradada"@,
            ProtectionMode::Recovering => "Recuperando"@,
        }
    }

    /// The label shown for the mode.
    pub fn label(self) -> (s: &'static str)
        ensures
            s@ == self.spec_label(),
    {
        match self {
            ProtectionMode::Inactive => "Inactiva",
            ProtectionMode::Active => "Activa",
            ProtectionMode::Degraded => "Degradada",
            ProtectionMode::Recovering => "Recuperando",
        }
    }
}

/// How risky the current network state is.
#[derive(Debug, Clone, Copy, PartialEq, Eq, Structural)]
pub enum RiskLevel {
    Normal,
    Warning,
    Critical,
}

impl RiskLevel {
    pub open spec fn spec_label(self) -> Seq<char> {
        match self {
            RiskLevel::Normal => "Normal"@,
            RiskLevel::Warning => "Advertencia"@,
            RiskLevel::Critical => "Critico"@,
        }
    }

    /// The label shown for the risk level.
    pub fn label(self) -> (s: &'static str)
        ensures
            s@ == self.spec_label(),
    {
        match self {
            RiskLevel::Normal => "Normal",
            RiskLevel::Warning => "Advertencia",
            RiskLevel::Critical => "Critico",
        }
    }
}

/// The verdict of the safety checks.
#[derive(Debug, Clone, Copy, PartialEq, Eq, Structural)]
pub enum SafetyStatus {
    Pass,
    Warn,
    Fail,
}

impl SafetyStatus {
    pub open spec fn spec_label(self) -> Seq<char> {
        match self {
            SafetyStatus::Pass => "Aprobado"@,
            SafetyStatus::Warn => "Precaucion"@,
            SafetyStatus::Fail => "Bloqueado"@,
        }
    }

    /// The label shown for the verdict.
    pub fn label(self) -> (s: &'static str)
        ensures
            s@ == self.spec_label(),
    {
        match self {
            SafetyStatus::Pass => "Aprobado",
            SafetyStatus::Warn => "Precaucion",
            SafetyStatus::Fail => "Bloqueado",
        }
    }
}

/// The outcome of comparing the network against a snapshot after a restore.
#[derive(Debug, Clone)]
pub struct RestoreVerification {
    pub checked_at: Timestamp,
    pub matches_snapshot: bool,
    pub mismatched_services: Vec<String>,
    pub summary: String,
}

impl RestoreVerification {
    /// A verification that found the network equal to the snapshot, checked now.
    pub fn success(summary: String) -> (r: RestoreVerification)
        ensures
            r.matches_snapshot,
            r.mismatched_services@.len() == 0,
            r.summary@ == summary@,
            r.checked_at.wf(),
    {
        RestoreVerification {
            checked_at: utc_now(),
            matches_snapshot: true,
            mismatched_services: Vec::new(),
            summary,
        }
    }

    /// A verification that found the listed services different from the snapshot, checked now.
    pub fn failure(mismatched_services: Vec<String>, summary: String) -> (r: RestoreVerification)
        ensures
            !r.matches_snapshot,
            r.mismatched_services@ == mismatched_services@,
            r.summary@ == summary@,
            r.checked_at.wf(),
    {
        RestoreVerification { checked_at: utc_now(), matches_snapshot: false, mismatched_services, summary }
    }

    /// A copy of this verification.
    pub fn duplicate(&self) -> (r: RestoreVerification)
        ensures
            r.checked_at == self.checked_at,
            r.matches_snapshot == self.matches_snapshot,
            r.mismatched_services@ == self.mismatched_services@,
            r.summary@ == self.summary@,
    {
        RestoreVerification {
            checked_at: self.checked_at,
            matches_snapshot: self.matches_snapshot,
            mismatched_services: clone_strings(&self.mismatched_services),
            summary: self.summary.clone(),
        }
    }
}

/// The result of one run of the safety checks.
#[derive(Debug, Clone)]
pub struct SafetyCheckSummary {
    pub check_id: String,
    pub timestamp: Timestamp,
    pub status: SafetyStatus,
    pub connectivity_ready: bool,
    pub recovery_ready: bool,
    pub issues: Vec<String>,
    pub recommended_action: String,
    pub detected_custom_dns: bool,
    pub verification_target: Option<String>,
}

impl SafetyCheckSummary {
    /// A summary with a fresh identifier, taken now, with no custom DNS detected and no
    /// verification target.
    pub fn new(
        status: SafetyStatus,
        connectivity_ready: bool,
        recovery_ready: bool,
        issues: Vec<String>,
        recommended_action: String,
    ) -> (r: SafetyCheckSummary)
        ensures
            r.status == status,
            r.connectivity_ready == connectivity_ready,
            r.recovery_ready == recovery_ready,
            r.issues@ == issues@,
            r.recommended_action@ == recommended_action@,
            !r.detected_custom_dns,
            r.verification_target is None,
            r.check_id@.len() == 36,
            r.timestamp.wf(),
    {
        SafetyCheckSummary {
            check_id: new_uuid(),
            timestamp: utc_now(),
            status,
            connectivity_ready,
            recovery_ready,
            issues,
            recommended_action,
            detected_custom_dns: false,
            verification_target: None,
        }
    }

    pub open spec fn spec_risk_level(&self) -> RiskLevel {
        match self.status {
            SafetyStatus::Pass => RiskLevel::Normal,
            SafetyStatus::Warn => RiskLevel::Warning,
            SafetyStatus::Fail => RiskLevel::Critical,
        }
    }

    /// The risk level that the verdict implies.
    pub fn risk_level(&self) -> (r: RiskLevel)
        ensures
            r == self.spec_risk_level(),
    {
        match self.status {
            SafetyStatus::Pass => RiskLevel::Normal,
            SafetyStatus::Warn => RiskLevel::Warning,
            SafetyStatus::Fail => RiskLevel::Critical,
        }
    }
}

/// The protection's persisted state. `runtime_addr` holds the socket address as text,
/// as it is written to the state file.
#[derive(Debug, Clone)]
pub struct RuntimeState {
    pub mode: ProtectionMode,
    pub status_summary: String,
    pub risk_level: RiskLevel,
    pub last_message: Option<String>,
    pub runtime_pid: Option<u32>,
    pub runtime_addr: Option<String>,
    pub snapshot_id: Option<String>,
    pub last_transition_at: Timestamp,
    pub blocklist_version: String,
    pub blocklist_domain_count: usize,
    pub last_safety_check: Option<SafetyCheckSummary>,
    pub last_verification_result: Option<RestoreVerification>,
}

pub open spec fn default_status_summary() -> Seq<char> {
    "La proteccion esta inactiva. Puedes activar Sentinel cuando lo necesites."@
}

pub open spec fn ready_message() -> Seq<char> {
    "Sentinel esta listo para activarse, ver su estado o recuperar la red."@
}

impl RuntimeState {
    /// Active protection can always be undone: a runtime and a snapshot are recorded with it.
    pub open spec fn recoverable(self) -> bool {
        self.mode == ProtectionMode::Active ==> self.runtime_pid is Some && self.snapshot_id is Some
    }

    /// The state before any activation: inactive, normal risk, no runtime, no snapshot,
    /// no bundle loaded yet, transitioned now.
    pub fn initial() -> (r: RuntimeState)
        ensures
            r.recoverable(),
            r.mode == ProtectionMode::Inactive,
            r.status_summary@ == default_status_summary(),
            r.risk_level == RiskLevel::Normal,
            r.last_message matches Some(m) && m@ == ready_message(),
            r.runtime_pid is None,
            r.runtime_addr is None,
            r.snapshot_id is None,
            r.last_transition_at.wf(),
            r.blocklist_version@ == "sin_cargar"@,
            r.blocklist_domain_count == 0,
            r.last_safety_check is None,
            r.last_verification_result is None,
    {
        RuntimeState {
            mode: ProtectionMode::Inactive,
            status_summary: owned(
                "La proteccion esta inactiva. Puedes activar Sentinel cuando lo necesites.",
            ),
            risk_level: RiskLevel::Normal,
            last_message: Some(
                owned("Sentinel esta listo para activarse, ver su estado o recuperar la red."),
            ),
            runtime_pid: None,
            runtime_addr: None,
            snapshot_id: None,
            last_transition_at: utc_now(),
            blocklist_version: owned("sin_cargar"),
            blocklist_domain_count: 0,
            last_safety_check: None,
            last_verification_result: None,
        }
    }

    /// Records the version and size of the loaded blocklist; nothing else changes.
    pub fn refresh_bundle(&mut self, bundle: &BlocklistBundle)
        ensures
            old(self).recoverable() ==> final(self).recoverable(),
            final(self).blocklist_version@ == bundle.version@,
            final(self).blocklist_domain_count == bundle.domain_count,
            final(self).mode == old(self).mode,
            final(self).status_summary == old(self).status_summary,
            final(self).risk_level == old(self).risk_level,
            final(self).last_message == old(self).last_message,
            final(self).runtime_pid == old(self).runtime_pid,
            final(self).runtime_addr == old(self).runtime_addr,
            final(self).snapshot_id == old(self).snapshot_id,
            final(self).last_transition_at == old(self).last_transition_at,
            final(self).last_safety_check == old(self).last_safety_check,
            final(self).last_verification_result == old(self).last_verification_result,
    {
        self.blocklist_version = bundle.version.clone();
        self.blocklist_domain_count = bundle.domain_count;
    }
}

/// Reads and writes the runtime state file under the application's paths.
pub struct StateStore {
    pub paths: AppPaths,
}

impl StateStore {
    pub fn new(paths: AppPaths) -> (r: StateStore)
        ensures
            r.paths == paths,
    {
        StateStore { paths }
    }
}

} // verus!
