//! The state of the earlier English interactive session.
use vstd::prelude::*;

use crate::blocking::blocklist::BlocklistBundle;
use crate::storage::install::InstallationState;
use crate::storage::state::{ProtectionMode, RiskLevel, RuntimeState};
use crate::text::owned;

verus! {

/// The screens of the session.
#[derive(Debug, Clone, Copy, PartialEq, Eq, Structural)]
pub enum Screen {
    Home,
    Safety,
    Status,
    Install,
    Recovery,
    Confirm,
    Exit,
}

/// The actions of the menu.
#[derive(Debug, Clone, Copy, PartialEq, Eq, Structural)]
pub enum ActionId {
    RunSafetyChecks,
    ToggleProtection,
    ViewStatus,
    ViewInstallState,
    RecoverNetwork,
    Exit,
}

/// The sensitive actions that ask for confirmation.
#[derive(Debug, Clone, Copy, PartialEq, Eq, Structural)]
pub enum ConfirmationAction {
    EnableProtection,
    DisableProtection,
    RecoverNetwork,
}

/// A menu entry.
#[derive(Debug, Clone)]
pub struct ActionItem {
    pub id: ActionId,
    pub label: String,
}

/// The session.
#[derive(Debug, Clone)]
pub struct InteractiveSession {
    pub screen: Screen,
    pub selected_action: usize,
    pub status_summary: String,
    pub risk_level: RiskLevel,
    pub pending_confirmation: Option<ConfirmationAction>,
    pub last_message: String,
    pub runtime_state: RuntimeState,
    pub install_state: InstallationState,
}

/// The menu, in order, with the toggle named for the current mode.
pub open spec fn spec_actions(mode: ProtectionMode) -> Seq<(ActionId, Seq<char>)> {
    seq![
        (ActionId::RunSafetyChecks, "Run safety checks"@),
        (ActionId::ToggleProtection, if mode == ProtectionMode::Active { "Disable protection"@ } else { "Enable protection"@ }),
        (ActionId::ViewStatus, "View status and health"@),
        (ActionId::ViewInstallState, "View install state"@),
        (ActionId::RecoverNetwork, "Recover network"@),
        (ActionId::Exit, "Exit Sentinel"@),
    ]
}

pub open spec fn item_view(a: ActionItem) -> (ActionId, Seq<char>) {
    (a.id, a.label@)
}

impl InteractiveSession {
    /// A session on the home screen for `runtime_state` with the bundle recorded; its message,
    /// or `Sentinel is ready.`, is shown.
    pub fn from_runtime_state(runtime_state: RuntimeState, install_state: InstallationState, blocklist: &BlocklistBundle) -> (s: InteractiveSession)
        ensures
            s.screen == Screen::Home,
            s.selected_action == 0,
            s.pending_confirmation is None,
            s.runtime_state.blocklist_version@ == blocklist.version@,
            s.runtime_state.blocklist_domain_count == blocklist.domain_count,
            s.runtime_state.mode == runtime_state.mode,
            s.runtime_state.status_summary == runtime_state.status_summary,
            s.runtime_state.last_message == runtime_state.last_message,
            s.status_summary == runtime_state.status_summary,
            s.risk_level == runtime_state.risk_level,
            s.last_message@ == (match runtime_state.last_message { Some(m) => m@, None => "Sentinel is ready."@ }),
            s.install_state == install_state,
    {
        let mut runtime_state = runtime_state;
        runtime_state.refresh_bundle(blocklist);
        let last_message = match &runtime_state.last_message {
            Some(m) => m.clone(),
            None => owned("Sentinel is ready."),
        };
        InteractiveSession {
            screen: Screen::Home,
            selected_action: 0,
            status_summary: runtime_state.status_summary.clone(),
            risk_level: runtime_state.risk_level,
            pending_confirmation: None,
            last_message,
            runtime_state,
            install_state,
        }
    }

    /// The menu.
    pub fn actions(&self) -> (r: Vec<ActionItem>)
        ensures
            r@.len() == 6,
            r@.map_values(|a: ActionItem| item_view(a)) == spec_actions(self.runtime_state.mode),
    {
        let toggle = if self.runtime_state.mode == ProtectionMode::Active {
            "Disable protection"
        } else {
            "Enable protection"
        };
        let mut r: Vec<ActionItem> = Vec::new();
        r.push(ActionItem { id: ActionId::RunSafetyChecks, label: owned("Run safety checks") });
        r.push(ActionItem { id: ActionId::ToggleProtection, label: owned(toggle) });
        r.push(ActionItem { id: ActionId::ViewStatus, label: owned("View status and health") });
        r.push(ActionItem { id: ActionId::ViewInstallState, label: owned("View install state") });
        r.push(ActionItem { id: ActionId::RecoverNetwork, label: owned("Recover network") });
        r.push(ActionItem { id: ActionId::Exit, label: owned("Exit Sentinel") });
        assert(r@.map_values(|a: ActionItem| item_view(a)) =~= spec_actions(self.runtime_state.mode));
        r
    }

    /// The selected action.
    pub fn selected_action_id(&self) -> (r: ActionId)
        requires
            self.selected_action < 6,
        ensures
            r == spec_actions(self.runtime_state.mode)[self.selected_action as int].0,
    {
        let actions = self.actions();
        proof {
            assert(actions@.map_values(|a: ActionItem| item_view(a))[self.selected_action as int] == item_view(actions@[self.selected_action as int]));
        }
        actions[self.selected_action].id
    }

    /// Moves the selection down, wrapping to the first action.
    pub fn select_next(&mut self)
        requires
            old(self).selected_action < usize::MAX,
        ensures
            final(self).selected_action == (old(self).selected_action + 1) % 6,
            final(self).screen == old(self).screen,
            final(self).runtime_state == old(self).runtime_state,
            final(self).last_message == old(self).last_message,
    {
        let n = self.actions().len();
        self.selected_action = (self.selected_action + 1) % n;
    }

    /// Moves the selection up, wrapping to the last action.
    pub fn select_previous(&mut self)
        ensures
            final(self).selected_action == (if old(self).selected_action == 0 { 5 } else { old(self).selected_action - 1 }),
            final(self).screen == old(self).screen,
            final(self).runtime_state == old(self).runtime_state,
            final(self).last_message == old(self).last_message,
    {
        let n = self.actions().len();
        self.selected_action = if self.selected_action == 0 { n - 1 } else { self.selected_action - 1 };
    }

    /// Toggling disables an active protection and enables it otherwise.
    pub fn toggle_confirmation_action(&self) -> (a: ConfirmationAction)
        ensures
            a == (if self.runtime_state.mode == ProtectionMode::Active {
                ConfirmationAction::DisableProtection
            } else {
                ConfirmationAction::EnableProtection
            }),
    {
        if self.runtime_state.mode == ProtectionMode::Active {
            ConfirmationAction::DisableProtection
        } else {
            ConfirmationAction::EnableProtection
        }
    }

    /// Takes a new runtime state: its summary and risk are shown, and its message when it has one.
    pub fn sync_runtime_state(&mut self, runtime_state: RuntimeState)
        ensures
            final(self).runtime_state == runtime_state,
            final(self).status_summary == runtime_state.status_summary,
            final(self).risk_level == runtime_state.risk_level,
            final(self).last_message == (match runtime_state.last_message { Some(m) => m, None => old(self).last_message }),
            final(self).screen == old(self).screen,
            final(self).selected_action == old(self).selected_action,
            final(self).pending_confirmation == old(self).pending_confirmation,
            final(self).install_state == old(self).install_state,
    {
        self.status_summary = runtime_state.status_summary.clone();
        self.risk_level = runtime_state.risk_level;
        match &runtime_state.last_message {
            Some(m) => {
                self.last_message = m.clone();
            },
            None => {},
        }
        self.runtime_state = runtime_state;
    }
}

} // verus!
