//! The protection state of the command-line protocol.
use vstd::prelude::*;

use crate::clock::{utc_now, Timestamp};
use crate::storage::config::AppConfig;

use super::rules::{built_in_domains, built_in_rules};

verus! {

/// Where the protection stands, in the command-line protocol.
#[derive(Debug, Clone, Copy, PartialEq, Eq, Structural)]
pub enum ProtectionMode {
    Inactive,
    Activating,
    Active,
    Degraded,
    Recovering,
    Failed,
}

impl ProtectionMode {
    pub open spec fn spec_as_str(self) -> Seq<char> {
        match self {
            ProtectionMode::Inactive => "inactive"@,
            ProtectionMode::Activating => "activating"@,
            ProtectionMode::Active => "active"@,
            ProtectionMode::Degraded => "degraded"@,
            ProtectionMode::Recovering => "recovering"@,
            ProtectionMode::Failed => "failed"@,
        }
    }

    /// The snake-case name of the mode.
    pub fn as_str(&self) -> (s: &'static str)
        ensures
            s@ == self.spec_as_str(),
    {
        match self {
            ProtectionMode::Inactive => "inactive",
            ProtectionMode::Activating => "activating",
            ProtectionMode::Active => "active",
            ProtectionMode::Degraded => "degraded",
            ProtectionMode::Recovering => "recovering",
            ProtectionMode::Failed => "failed",
        }
    }
}

/// The protection state; `runtime_addr` holds the socket address as text.
#[derive(Debug, Clone)]
pub struct ProtectionState {
    pub mode: ProtectionMode,
    pub started_at: Option<Timestamp>,
    pub last_transition_at: Timestamp,
    pub last_error_code: Option<String>,
    pub snapshot_id: Option<String>,
    pub active_rule_count: usize,
    pub active_exclusion_count: usize,
    pub runtime_pid: Option<u32>,
    pub runtime_addr: Option<String>,
}

impl ProtectionState {
    /// The inactive state with no runtime, transitioned now.
    pub fn initial() -> (s: ProtectionState)
        ensures
            s.mode == ProtectionMode::Inactive,
            s.started_at is None,
            s.last_transition_at.wf(),
            s.last_error_code is None,
            s.snapshot_id is None,
            s.active_rule_count == 0,
            s.active_exclusion_count == 0,
            s.runtime_pid is None,
            s.runtime_addr is None,
    {
        ProtectionState {
            mode: ProtectionMode::Inactive,
            started_at: None,
            last_transition_at: utc_now(),
            last_error_code: None,
            snapshot_id: None,
            active_rule_count: 0,
            active_exclusion_count: 0,
            runtime_pid: None,
            runtime_addr: None,
        }
    }

    /// Active from now with the runtime and snapshot given, counting the built-in rules and
    /// the configuration's allow rules, with no error.
    pub fn activate(&mut self, snapshot_id: String, pid: u32, runtime_addr: String, config: &AppConfig)
        ensures
            final(self).mode == ProtectionMode::Active,
            final(self).started_at matches Some(t) && t.wf(),
            final(self).last_transition_at.wf(),
            final(self).snapshot_id == Some(snapshot_id),
            final(self).runtime_pid == Some(pid),
            final(self).runtime_addr == Some(runtime_addr),
            final(self).active_rule_count == built_in_domains().len(),
            final(self).active_exclusion_count == config.allow_rules@.len(),
            final(self).last_error_code is None,
    {
        self.mode = ProtectionMode::Active;
        self.started_at = Some(utc_now());
        self.last_transition_at = utc_now();
        self.snapshot_id = Some(snapshot_id);
        self.runtime_pid = Some(pid);
        self.runtime_addr = Some(runtime_addr);
        self.active_rule_count = built_in_rules().len();
        self.active_exclusion_count = config.allow_rules.len();
        self.last_error_code = None;
    }

    /// Inactive from now, with no runtime, snapshot or error.
    pub fn deactivate(&mut self, config: &AppConfig)
        ensures
            final(self).mode == ProtectionMode::Inactive,
            final(self).started_at == old(self).started_at,
            final(self).last_transition_at.wf(),
            final(self).runtime_pid is None,
            final(self).runtime_addr is None,
            final(self).snapshot_id is None,
            final(self).active_rule_count == built_in_domains().len(),
            final(self).active_exclusion_count == config.allow_rules@.len(),
            final(self).last_error_code is None,
    {
        self.mode = ProtectionMode::Inactive;
        self.last_transition_at = utc_now();
        self.runtime_pid = None;
        self.runtime_addr = None;
        self.snapshot_id = None;
        self.active_rule_count = built_in_rules().len();
        self.active_exclusion_count = config.allow_rules.len();
        self.last_error_code = None;
    }
}

} // verus!
