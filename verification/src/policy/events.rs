//! Operation events of the command-line protocol.
use vstd::prelude::*;

use crate::clock::{utc_now, Timestamp};
use crate::ids::new_uuid;

verus! {

/// What an operation event is about.
#[derive(Debug, Clone, Copy, PartialEq, Eq, Structural)]
pub enum OperationEventKind {
    Activate,
    Disable,
    Status,
    Allow,
    RemoveAllow,
    Error,
    Recover,
}

impl OperationEventKind {
    pub open spec fn spec_as_str(self) -> Seq<char> {
        match self {
            OperationEventKind::Activate => "activate"@,
            OperationEventKind::Disable => "disable"@,
            OperationEventKind::Status => "status"@,
            OperationEventKind::Allow => "allow"@,
            OperationEventKind::RemoveAllow => "remove_allow"@,
            OperationEventKind::Error => "error"@,
            OperationEventKind::Recover => "recover"@,
        }
    }

    /// The snake-case name of the kind.
    pub fn as_str(&self) -> (s: &'static str)
        ensures
            s@ == self.spec_as_str(),
    {
        match self {
            OperationEventKind::Activate => "activate",
            OperationEventKind::Disable => "disable",
            OperationEventKind::Status => "status",
            OperationEventKind::Allow => "allow",
            OperationEventKind::RemoveAllow => "remove_allow",
            OperationEventKind::Error => "error",
            OperationEventKind::Recover => "recover",
        }
    }
}

/// How serious an operation event is.
#[derive(Debug, Clone, Copy, PartialEq, Eq, Structural)]
pub enum Severity {
    Info,
    Warning,
    Error,
}

impl Severity {
    pub open spec fn spec_as_str(self) -> Seq<char> {
        match self {
            Severity::Info => "info"@,
            Severity::Warning => "warning"@,
            Severity::Error => "error"@,
        }
    }

    /// The snake-case name of the severity.
    pub fn as_str(&self) -> (s: &'static str)
        ensures
            s@ == self.spec_as_str(),
    {
        match self {
            Severity::Info => "info",
            Severity::Warning => "warning",
            Severity::Error => "error",
        }
    }
}

/// One operation event.
#[derive(Debug, Clone)]
pub struct OperationEvent {
    pub id: String,
    pub timestamp: Timestamp,
    pub kind: OperationEventKind,
    pub severity: Severity,
    pub message: String,
}

impl OperationEvent {
    /// An event with a fresh identifier, happening now.
    pub fn new(kind: OperationEventKind, severity: Severity, message: String) -> (e: OperationEvent)
        ensures
            e.kind == kind,
            e.severity == severity,
            e.message == message,
            e.id@.len() == 36,
            e.timestamp.wf(),
    {
        OperationEvent { id: new_uuid(), timestamp: utc_now(), kind, severity, message }
    }
}

} // verus!
