//! The routes of the interactive session and the actions offered on them.
use vstd::prelude::*;

use crate::storage::state::ProtectionMode;

verus! {

/// A sensitive action that waits for confirmation.
#[derive(Debug, Clone, Copy, PartialEq, Eq, Structural)]
pub enum ConfirmationAction {
    EnableProtection,
    DisableProtection,
    RecoverNetwork,
}

/// Which log a log view shows.
#[derive(Debug, Clone, Copy, PartialEq, Eq, Structural)]
pub enum LogScope {
    Safety,
    Status,
}

/// Whether the domain editor adds a new domain or edits the selected one.
#[derive(Debug, Clone, Copy, PartialEq, Eq, Structural)]
pub enum DomainEditorMode {
    Add,
    Edit,
}

/// A view of the interactive session.
#[derive(Debug, Clone, Copy, PartialEq, Eq, Structural)]
pub enum Route {
    Home,
    Settings,
    BlockedDomains,
    BlockedDomainEditor(DomainEditorMode),
    Safety,
    Status,
    Logs(LogScope),
    Recovery,
    Confirm(ConfirmationAction),
    Progress,
    Result,
    Exit,
}

impl Route {
    /// The view is the domain editor.
    pub fn is_editor(&self) -> (b: bool)
        ensures
            b == (*self is BlockedDomainEditor),
    {
        match self {
            Route::BlockedDomainEditor(_) => true,
            _ => false,
        }
    }
}

/// An action a menu can offer.
#[derive(Debug, Clone, Copy, PartialEq, Eq, Structural)]
pub enum MenuActionId {
    ToggleProtection,
    ViewStatus,
    OpenSettings,
    ViewBlockedDomains,
    AddBlockedDomain,
    EditBlockedDomain,
    DeleteBlockedDomain,
    SelectNextBlockedDomain,
    SelectPreviousBlockedDomain,
    ViewLogs,
    RecoverNetwork,
    BackToPrevious,
    BackSettings,
    BackHome,
    Exit,
    Confirm,
    Cancel,
}

/// The tone of an operation's result.
#[derive(Debug, Clone, Copy, PartialEq, Eq, Structural)]
pub enum ResultTone {
    Info,
    Success,
    Warning,
    Error,
}

/// A menu entry: the action, its label and its description.
#[derive(Debug, Clone)]
pub struct MenuAction {
    pub id: MenuActionId,
    pub label: String,
    pub description: String,
}

/// A sensitive mode (degraded or recovering) opens on the recovery view; any other on home.
pub open spec fn spec_default_route(mode: ProtectionMode) -> Route {
    if mode == ProtectionMode::Degraded || mode == ProtectionMode::Recovering {
        Route::Recovery
    } else {
        Route::Home
    }
}

/// The view a session opens on for a protection mode.
pub fn default_route(mode: ProtectionMode) -> (r: Route)
    ensures
        r == spec_default_route(mode),
{
    match mode {
        ProtectionMode::Degraded | ProtectionMode::Recovering => Route::Recovery,
        _ => Route::Home,
    }
}

} // verus!
