//! The interactive session: which view is shown, what is selected and what it says.
use vstd::prelude::*;

use crate::blocking::blocklist::BlocklistBundle;
use crate::storage::events::{BlockActivitySummary, EventRecord};
use crate::storage::install::InstallationState;
use crate::storage::state::{ProtectionMode, RiskLevel, RuntimeState};
use crate::text::{clone_opt_string, owned, pop_char, str_eq};

use super::copy::{action_description, action_label, spec_action_description, spec_action_label};
use super::navigation::{
    default_route, spec_default_route, ConfirmationAction, DomainEditorMode, LogScope, MenuAction,
    MenuActionId, ResultTone, Route,
};

verus! {

/// The outcome of an operation, as the result view shows it.
#[derive(Debug, Clone)]
pub struct OperationResult {
    pub title: String,
    pub summary: String,
    pub next_step: String,
    pub tone: ResultTone,
}

/// The state of the interactive session.
#[derive(Debug, Clone)]
pub struct MenuSession {
    pub route: Route,
    pub selected_index: usize,
    pub status_summary: String,
    pub risk_level: RiskLevel,
    pub last_message: String,
    pub runtime_state: RuntimeState,
    pub install_state: InstallationState,
    pub recent_events: Vec<EventRecord>,
    pub blocked_domains: Vec<String>,
    pub selected_domain_index: usize,
    pub domain_input: String,
    pub domain_original: Option<String>,
    pub block_activity: BlockActivitySummary,
    pub transcript_mode: bool,
    pub last_result: Option<OperationResult>,
    pub progress_label: Option<String>,
    pub progress_step: usize,
}

/// The actions each view offers, in menu order.
pub open spec fn spec_action_ids(route: Route) -> Seq<MenuActionId> {
    match route {
        Route::Home => seq![
            MenuActionId::ToggleProtection,
            MenuActionId::ViewStatus,
            MenuActionId::OpenSettings,
            MenuActionId::RecoverNetwork,
            MenuActionId::Exit,
        ],
        Route::Settings => seq![
            MenuActionId::ViewBlockedDomains,
            MenuActionId::BackHome,
            MenuActionId::Exit,
        ],
        Route::BlockedDomains => seq![
            MenuActionId::AddBlockedDomain,
            MenuActionId::EditBlockedDomain,
            MenuActionId::DeleteBlockedDomain,
            MenuActionId::SelectNextBlockedDomain,
            MenuActionId::SelectPreviousBlockedDomain,
            MenuActionId::BackSettings,
            MenuActionId::Exit,
        ],
        Route::Safety => seq![MenuActionId::ViewLogs, MenuActionId::BackHome, MenuActionId::Exit],
        Route::Status => seq![MenuActionId::ViewLogs, MenuActionId::BackHome, MenuActionId::Exit],
        Route::Logs(_) => seq![MenuActionId::BackToPrevious, MenuActionId::Exit],
        Route::Recovery => seq![
            MenuActionId::RecoverNetwork,
            MenuActionId::ViewStatus,
            MenuActionId::BackHome,
            MenuActionId::Exit,
        ],
        Route::Confirm(_) => seq![MenuActionId::Confirm, MenuActionId::Cancel],
        Route::BlockedDomainEditor(_) | Route::Progress | Route::Exit => seq![],
        Route::Result => seq![MenuActionId::BackHome, MenuActionId::Exit],
    }
}

/// The actions a view offers.
pub fn action_ids(route: Route) -> (r: Vec<MenuActionId>)
    ensures
        r@ == spec_action_ids(route),
{
    let r = match route {
        Route::Home => vec![
            MenuActionId::ToggleProtection,
            MenuActionId::ViewStatus,
            MenuActionId::OpenSettings,
            MenuActionId::RecoverNetwork,
            MenuActionId::Exit,
        ],
        Route::Settings => vec![
            MenuActionId::ViewBlockedDomains,
            MenuActionId::BackHome,
            MenuActionId::Exit,
        ],
        Route::BlockedDomains => vec![
            MenuActionId::AddBlockedDomain,
            MenuActionId::EditBlockedDomain,
            MenuActionId::DeleteBlockedDomain,
            MenuActionId::SelectNextBlockedDomain,
            MenuActionId::SelectPreviousBlockedDomain,
            MenuActionId::BackSettings,
            MenuActionId::Exit,
        ],
        Route::Safety => vec![MenuActionId::ViewLogs, MenuActionId::BackHome, MenuActionId::Exit],
        Route::Status => vec![MenuActionId::ViewLogs, MenuActionId::BackHome, MenuActionId::Exit],
        Route::Logs(_) => vec![MenuActionId::BackToPrevious, MenuActionId::Exit],
        Route::Recovery => vec![
            MenuActionId::RecoverNetwork,
            MenuActionId::ViewStatus,
            MenuActionId::BackHome,
            MenuActionId::Exit,
        ],
        Route::Confirm(_) => vec![MenuActionId::Confirm, MenuActionId::Cancel],
        Route::BlockedDomainEditor(_) | Route::Progress | Route::Exit => Vec::new(),
        Route::Result => vec![MenuActionId::BackHome, MenuActionId::Exit],
    };
    assert(r@ =~= spec_action_ids(route));
    r
}

/// The index after `i` in a cyclic menu of `len` entries.
pub open spec fn next_index(i: nat, len: nat) -> nat {
    if len == 0 {
        i
    } else {
        (i + 1) % len
    }
}

/// The index before `i` in a cyclic menu of `len` entries.
pub open spec fn previous_index(i: nat, len: nat) -> nat {
    if len == 0 {
        i
    } else if i == 0 {
        (len - 1) as nat
    } else {
        (i - 1) as nat
    }
}

/// Moving down then up in a cyclic menu, or up then down, comes back to the same entry.
pub proof fn lemma_next_previous_inverse(i: nat, len: nat)
    requires
        i < len,
    ensures
        previous_index(next_index(i, len), len) == i,
        next_index(previous_index(i, len), len) == i,
{
    if i + 1 < len {
        assert((i + 1) % len == i + 1) by (nonlinear_arith)
            requires
                0 <= i + 1 < len,
        ;
    } else {
        assert((i + 1) % len == 0) by (nonlinear_arith)
            requires
                i + 1 == len,
                len > 0,
        ;
    }
    if i == 0 {
        assert((((len - 1) as nat) + 1) % len == 0) by (nonlinear_arith)
            requires
                len > 0,
        ;
    } else {
        assert(i % len == i) by (nonlinear_arith)
            requires
                0 <= i < len,
        ;
    }
}

/// The English texts of older state files, replaced by their Spanish versions.
pub open spec fn spec_normalize_copy(input: Seq<char>) -> Seq<char> {
    if input == "Sentinel restored the latest valid snapshot and stopped the local runtime."@ {
        "Sentinel restauro el ultimo snapshot valido y detuvo el runtime local."@
    } else if input == "Sentinel is ready to inspect safety and activate protection."@ {
        "Sentinel esta listo para activarse, ver su estado o recuperar la red."@
    } else if input == "Protection is inactive. Run checks before changing the network."@ {
        "La proteccion esta inactiva. Puedes activar Sentinel cuando lo necesites."@
    } else {
        input
    }
}

pub fn normalize_copy(input: &str) -> (s: String)
    ensures
        s@ == spec_normalize_copy(input@),
{
    if str_eq(input, "Sentinel restored the latest valid snapshot and stopped the local runtime.") {
        owned("Sentinel restauro el ultimo snapshot valido y detuvo el runtime local.")
    } else if str_eq(input, "Sentinel is ready to inspect safety and activate protection.") {
        owned("Sentinel esta listo para activarse, ver su estado o recuperar la red.")
    } else if str_eq(input, "Protection is inactive. Run checks before changing the network.") {
        owned("La proteccion esta inactiva. Puedes activar Sentinel cuando lo necesites.")
    } else {
        owned(input)
    }
}

/// The texts of a runtime state normalized: summary, message, the safety check's action and
/// issues, and the verification summary; everything else kept.
pub open spec fn normalized_state(a: RuntimeState, b: RuntimeState) -> bool {
    &&& normalized_texts(a, b)
    &&& b.blocklist_version == a.blocklist_version
    &&& b.blocklist_domain_count == a.blocklist_domain_count
}

/// As `normalized_state`, leaving the blocklist fields aside.
pub open spec fn normalized_texts(a: RuntimeState, b: RuntimeState) -> bool {
    &&& b.mode == a.mode
    &&& b.risk_level == a.risk_level
    &&& b.runtime_pid == a.runtime_pid
    &&& b.runtime_addr == a.runtime_addr
    &&& b.snapshot_id == a.snapshot_id
    &&& b.last_transition_at == a.last_transition_at
    &&& b.status_summary@ == spec_normalize_copy(a.status_summary@)
    &&& match a.last_message {
        Some(m) => b.last_message matches Some(n) && n@ == spec_normalize_copy(m@),
        None => b.last_message is None,
    }
    &&& match a.last_safety_check {
        Some(c) => b.last_safety_check matches Some(d) && {
            &&& d.recommended_action@ == spec_normalize_copy(c.recommended_action@)
            &&& d.issues@.len() == c.issues@.len()
            &&& forall|i: int| 0 <= i < c.issues@.len() ==> #[trigger] d.issues@[i]@ == spec_normalize_copy(c.issues@[i]@)
            &&& d.check_id == c.check_id
            &&& d.timestamp == c.timestamp
            &&& d.status == c.status
            &&& d.connectivity_ready == c.connectivity_ready
            &&& d.recovery_ready == c.recovery_ready
            &&& d.detected_custom_dns == c.detected_custom_dns
            &&& d.verification_target == c.verification_target
        },
        None => b.last_safety_check is None,
    }
    &&& match a.last_verification_result {
        Some(v) => b.last_verification_result matches Some(w) && {
            &&& w.summary@ == spec_normalize_copy(v.summary@)
            &&& w.checked_at == v.checked_at
            &&& w.matches_snapshot == v.matches_snapshot
            &&& w.mismatched_services == v.mismatched_services
        },
        None => b.last_verification_result is None,
    }
}

fn normalize_all(items: &Vec<String>) -> (r: Vec<String>)
    ensures
        r@.len() == items@.len(),
        forall|i: int| 0 <= i < items@.len() ==> #[trigger] r@[i]@ == spec_normalize_copy(items@[i]@),
{
    let mut r: Vec<String> = Vec::new();
    for i in 0..items.len()
        invariant
            r@.len() == i,
            forall|k: int| 0 <= k < i ==> #[trigger] r@[k]@ == spec_normalize_copy(items@[k]@),
    {
        r.push(normalize_copy(items[i].as_str()));
    }
    r
}

/// Replaces the English texts of older state files by their Spanish versions.
pub fn normalize_runtime_copy(runtime_state: RuntimeState) -> (r: RuntimeState)
    ensures
        normalized_state(runtime_state, r),
{
    let mut state = runtime_state;
    state.status_summary = normalize_copy(state.status_summary.as_str());
    state.last_message = match &state.last_message {
        Some(message) => Some(normalize_copy(message.as_str())),
        None => None,
    };
    state.last_safety_check = match state.last_safety_check {
        Some(mut check) => {
            check.recommended_action = normalize_copy(check.recommended_action.as_str());
            check.issues = normalize_all(&check.issues);
            Some(check)
        },
        None => None,
    };
    state.last_verification_result = match state.last_verification_result {
        Some(mut verification) => {
            verification.summary = normalize_copy(verification.summary.as_str());
            Some(verification)
        },
        None => None,
    };
    state
}

pub open spec fn default_last_message() -> Seq<char> {
    "Sentinel esta listo para activarse, ver su estado o recuperar la red."@
}

impl MenuSession {
    /// The data fields that navigation leaves alone are equal in `a` and `b`.
    pub open spec fn same_data(a: &MenuSession, b: &MenuSession) -> bool {
        &&& a.status_summary == b.status_summary
        &&& a.risk_level == b.risk_level
        &&& a.runtime_state == b.runtime_state
        &&& a.install_state == b.install_state
        &&& a.recent_events == b.recent_events
        &&& a.blocked_domains == b.blocked_domains
        &&& a.selected_domain_index == b.selected_domain_index
        &&& a.block_activity == b.block_activity
        &&& a.transcript_mode == b.transcript_mode
        &&& a.progress_step == b.progress_step
    }

    /// The domain editor's fields are equal in `a` and `b`.
    pub open spec fn same_editor(a: &MenuSession, b: &MenuSession) -> bool {
        a.domain_input == b.domain_input && a.domain_original == b.domain_original
    }

    /// Only the menu selection differs between `a` and `b`.
    pub open spec fn only_selection_changed(a: &MenuSession, b: &MenuSession) -> bool {
        &&& Self::same_data(a, b)
        &&& Self::same_editor(a, b)
        &&& a.route == b.route
        &&& a.last_message == b.last_message
        &&& a.last_result == b.last_result
        &&& a.progress_label == b.progress_label
    }

    /// A session opening on the default view for the state's mode, with the state's texts
    /// normalized and the bundle recorded, nothing selected or being edited, and the state's
    /// message (or the ready message) shown.
    pub fn from_runtime_state(
        runtime_state: RuntimeState,
        install_state: InstallationState,
        recent_events: Vec<EventRecord>,
        blocked_domains: Vec<String>,
        block_activity: BlockActivitySummary,
        blocklist: &BlocklistBundle,
        transcript_mode: bool,
    ) -> (s: MenuSession)
        ensures
            normalized_texts(runtime_state, s.runtime_state),
            s.runtime_state.blocklist_version@ == blocklist.version@,
            s.runtime_state.blocklist_domain_count == blocklist.domain_count,
            s.route == spec_default_route(runtime_state.mode),
            s.selected_index == 0,
            s.status_summary == s.runtime_state.status_summary,
            s.risk_level == runtime_state.risk_level,
            match runtime_state.last_message {
                Some(m) => s.last_message@ == spec_normalize_copy(m@),
                None => s.last_message@ == default_last_message(),
            },
            s.install_state == install_state,
            s.recent_events == recent_events,
            s.blocked_domains == blocked_domains,
            s.selected_domain_index == 0,
            s.domain_input@.len() == 0,
            s.domain_original is None,
            s.block_activity == block_activity,
            s.transcript_mode == transcript_mode,
            s.last_result is None,
            s.progress_label is None,
            s.progress_step == 0,
    {
        let mut state = normalize_runtime_copy(runtime_state);
        state.refresh_bundle(blocklist);
        let route = default_route(state.mode);
        let last_message = match &state.last_message {
            Some(m) => m.clone(),
            None => owned("Sentinel esta listo para activarse, ver su estado o recuperar la red."),
        };
        MenuSession {
            route,
            selected_index: 0,
            status_summary: state.status_summary.clone(),
            risk_level: state.risk_level,
            last_message,
            runtime_state: state,
            install_state,
            recent_events,
            blocked_domains,
            selected_domain_index: 0,
            domain_input: String::new(),
            domain_original: None,
            block_activity,
            transcript_mode,
            last_result: None,
            progress_label: None,
            progress_step: 0,
        }
    }

    /// The menu of the current view: each offered action with its label and description for
    /// the current protection mode.
    pub fn actions(&self) -> (r: Vec<MenuAction>)
        ensures
            r@.len() == spec_action_ids(self.route).len(),
            forall|i: int|
                0 <= i < r@.len() ==> {
                    &&& (#[trigger] r@[i]).id == spec_action_ids(self.route)[i]
                    &&& r@[i].label@ == spec_action_label(
                        spec_action_ids(self.route)[i],
                        self.runtime_state.mode,
                    )
                    &&& r@[i].description@ == spec_action_description(
                        spec_action_ids(self.route)[i],
                        self.runtime_state.mode,
                    )
                },
    {
        let ids = action_ids(self.route);
        let mode = self.runtime_state.mode;
        let mut r: Vec<MenuAction> = Vec::new();
        for i in 0..ids.len()
            invariant
                ids@ == spec_action_ids(self.route),
                mode == self.runtime_state.mode,
                r@.len() == i,
                forall|k: int|
                    0 <= k < i ==> {
                        &&& (#[trigger] r@[k]).id == ids@[k]
                        &&& r@[k].label@ == spec_action_label(ids@[k], mode)
                        &&& r@[k].description@ == spec_action_description(ids@[k], mode)
                    },
        {
            let id = ids[i];
            r.push(MenuAction { id, label: action_label(id, mode), description: action_description(id, mode) });
        }
        r
    }

    /// The selected action of the current view, if the selection is within its menu.
    pub fn selected_action_id(&self) -> (r: Option<MenuActionId>)
        ensures
            r == (if self.selected_index < spec_action_ids(self.route).len() {
                Some(spec_action_ids(self.route)[self.selected_index as int])
            } else {
                None
            }),
    {
        let ids = action_ids(self.route);
        if self.selected_index < ids.len() {
            Some(ids[self.selected_index])
        } else {
            None
        }
    }

    /// Moves the menu selection down, wrapping to the top; an empty menu keeps it.
    pub fn select_next(&mut self)
        ensures
            final(self).selected_index as nat == next_index(
                old(self).selected_index as nat,
                spec_action_ids(old(self).route).len(),
            ),
            MenuSession::only_selection_changed(old(self), final(self)),
    {
        let len = action_ids(self.route).len();
        if len != 0 {
            self.selected_index = ((self.selected_index as u128 + 1) % (len as u128)) as usize;
        }
    }

    /// Moves the menu selection up, wrapping to the bottom; an empty menu keeps it.
    pub fn select_previous(&mut self)
        ensures
            final(self).selected_index as nat == previous_index(
                old(self).selected_index as nat,
                spec_action_ids(old(self).route).len(),
            ),
            MenuSession::only_selection_changed(old(self), final(self)),
    {
        let len = action_ids(self.route).len();
        if len != 0 {
            self.selected_index = if self.selected_index == 0 {
                len - 1
            } else {
                self.selected_index - 1
            };
        }
    }

    /// The selected blocked domain, if the selection is within the list.
    pub fn selected_blocked_domain(&self) -> (r: Option<&str>)
        ensures
            match r {
                Some(d) => self.selected_domain_index < self.blocked_domains@.len() && d@
                    == self.blocked_domains@[self.selected_domain_index as int]@,
                None => self.selected_domain_index >= self.blocked_domains@.len(),
            },
    {
        if self.selected_domain_index < self.blocked_domains.len() {
            Some(self.blocked_domains[self.selected_domain_index].as_str())
        } else {
            None
        }
    }

    /// Moves the domain selection down, wrapping to the top; an empty list keeps it.
    pub fn select_next_domain(&mut self)
        ensures
            final(self).selected_domain_index as nat == next_index(
                old(self).selected_domain_index as nat,
                old(self).blocked_domains@.len(),
            ),
            final(self).route == old(self).route,
            final(self).selected_index == old(self).selected_index,
            final(self).blocked_domains == old(self).blocked_domains,
            final(self).last_message == old(self).last_message,
            final(self).runtime_state == old(self).runtime_state,
            MenuSession::same_editor(old(self), final(self)),
    {
        let len = self.blocked_domains.len();
        if len != 0 {
            self.selected_domain_index = ((self.selected_domain_index as u128 + 1) % (len as u128)) as usize;
        }
    }

    /// Moves the domain selection up, wrapping to the bottom; an empty list keeps it.
    pub fn select_previous_domain(&mut self)
        ensures
            final(self).selected_domain_index as nat == previous_index(
                old(self).selected_domain_index as nat,
                old(self).blocked_domains@.len(),
            ),
            final(self).route == old(self).route,
            final(self).selected_index == old(self).selected_index,
            final(self).blocked_domains == old(self).blocked_domains,
            final(self).last_message == old(self).last_message,
            final(self).runtime_state == old(self).runtime_state,
            MenuSession::same_editor(old(self), final(self)),
    {
        let len = self.blocked_domains.len();
        if len != 0 {
            self.selected_domain_index = if self.selected_domain_index == 0 {
                len - 1
            } else {
                self.selected_domain_index - 1
            };
        }
    }

    /// Opens the domain editor in `mode`, starting from `initial_value` (empty when absent).
    pub fn start_domain_editor(&mut self, mode: DomainEditorMode, initial_value: Option<String>)
        ensures
            final(self).route == Route::BlockedDomainEditor(mode),
            final(self).selected_index == 0,
            final(self).domain_original == initial_value,
            match initial_value {
                Some(v) => final(self).domain_input@ == v@,
                None => final(self).domain_input@.len() == 0,
            },
            MenuSession::same_data(old(self), final(self)),
            final(self).last_message == old(self).last_message,
            final(self).last_result == old(self).last_result,
            final(self).progress_label == old(self).progress_label,
    {
        self.route = Route::BlockedDomainEditor(mode);
        self.selected_index = 0;
        self.domain_original = clone_opt_string(&initial_value);
        self.domain_input = match initial_value {
            Some(v) => v,
            None => String::new(),
        };
    }

    /// Appends text to the domain being edited.
    pub fn append_domain_input(&mut self, value: &str)
        ensures
            final(self).domain_input@ == old(self).domain_input@ + value@,
            final(self).domain_original == old(self).domain_original,
            MenuSession::same_data(old(self), final(self)),
            final(self).route == old(self).route,
            final(self).selected_index == old(self).selected_index,
            final(self).last_message == old(self).last_message,
    {
        self.domain_input.append(value);
    }

    /// Replaces the domain being edited.
    pub fn replace_domain_input(&mut self, value: String)
        ensures
            final(self).domain_input == value,
            final(self).domain_original == old(self).domain_original,
            MenuSession::same_data(old(self), final(self)),
            final(self).route == old(self).route,
            final(self).selected_index == old(self).selected_index,
            final(self).last_message == old(self).last_message,
    {
        self.domain_input = value;
    }

    /// Removes the last character of the domain being edited, if any.
    pub fn pop_domain_input(&mut self)
        ensures
            old(self).domain_input@.len() > 0 ==> final(self).domain_input@
                == old(self).domain_input@.drop_last(),
            old(self).domain_input@.len() == 0 ==> final(self).domain_input@
                == old(self).domain_input@,
            final(self).domain_original == old(self).domain_original,
            MenuSession::same_data(old(self), final(self)),
            final(self).route == old(self).route,
            final(self).selected_index == old(self).selected_index,
            final(self).last_message == old(self).last_message,
    {
        pop_char(&mut self.domain_input);
    }

    /// Empties the editor and forgets the domain being edited.
    pub fn clear_domain_editor(&mut self)
        ensures
            final(self).domain_input@.len() == 0,
            final(self).domain_original is None,
            MenuSession::same_data(old(self), final(self)),
            final(self).route == old(self).route,
            final(self).selected_index == old(self).selected_index,
            final(self).last_message == old(self).last_message,
            final(self).last_result == old(self).last_result,
            final(self).progress_label == old(self).progress_label,
    {
        self.domain_input = String::new();
        self.domain_original = None;
    }

    /// The action the confirmation view waits for.
    pub fn pending_confirmation(&self) -> (a: ConfirmationAction)
        requires
            self.route is Confirm,
        ensures
            self.route == Route::Confirm(a),
    {
        match self.route {
            Route::Confirm(action) => action,
            _ => ConfirmationAction::EnableProtection,
        }
    }

    /// Toggling disables an active protection and enables it otherwise.
    pub fn toggle_confirmation_action(&self) -> (a: ConfirmationAction)
        ensures
            a == (if self.runtime_state.mode == ProtectionMode::Active {
                ConfirmationAction::DisableProtection
            } else {
                ConfirmationAction::EnableProtection
            }),
    {
        if self.runtime_state.mode == ProtectionMode::Active {
            ConfirmationAction::DisableProtection
        } else {
            ConfirmationAction::EnableProtection
        }
    }

    /// The label of the operation in progress, if any.
    pub fn progress_label(&self) -> (r: Option<&str>)
        ensures
            match self.progress_label {
                Some(l) => r matches Some(s) && s@ == l@,
                None => r is None,
            },
    {
        match &self.progress_label {
            Some(l) => Some(l.as_str()),
            None => None,
        }
    }

    /// Shows an operation's result: the result view, first entry selected, no progress.
    pub fn show_result(&mut self, title: String, summary: String, next_step: String, tone: ResultTone)
        ensures
            final(self).last_result matches Some(res) && res.title == title && res.summary
                == summary && res.next_step == next_step && res.tone == tone,
            final(self).route == Route::Result,
            final(self).selected_index == 0,
            final(self).progress_label is None,
            MenuSession::same_data(old(self), final(self)),
            MenuSession::same_editor(old(self), final(self)),
            final(self).last_message == old(self).last_message,
    {
        self.last_result = Some(OperationResult { title, summary, next_step, tone });
        self.route = Route::Result;
        self.selected_index = 0;
        self.progress_label = None;
    }

    /// Takes a new runtime state (its texts normalized): its summary and risk level are shown,
    /// and its message replaces the shown one when it has one.
    pub fn sync_runtime_state(&mut self, runtime_state: RuntimeState)
        ensures
            normalized_state(runtime_state, final(self).runtime_state),
            final(self).status_summary == final(self).runtime_state.status_summary,
            final(self).risk_level == runtime_state.risk_level,
            match runtime_state.last_message {
                Some(m) => final(self).last_message@ == spec_normalize_copy(m@),
                None => final(self).last_message == old(self).last_message,
            },
            final(self).route == old(self).route,
            final(self).selected_index == old(self).selected_index,
            final(self).install_state == old(self).install_state,
            final(self).recent_events == old(self).recent_events,
            final(self).blocked_domains == old(self).blocked_domains,
            final(self).selected_domain_index == old(self).selected_domain_index,
            final(self).block_activity == old(self).block_activity,
            final(self).last_result == old(self).last_result,
            MenuSession::same_editor(old(self), final(self)),
            final(self).transcript_mode == old(self).transcript_mode,
            final(self).progress_label == old(self).progress_label,
            final(self).progress_step == old(self).progress_step,
    {
        let state = normalize_runtime_copy(runtime_state);
        self.status_summary = state.status_summary.clone();
        self.risk_level = state.risk_level;
        match &state.last_message {
            Some(m) => {
                self.last_message = m.clone();
            },
            None => {},
        }
        self.runtime_state = state;
    }

    /// Replaces the recent events.
    pub fn sync_recent_events(&mut self, recent_events: Vec<EventRecord>)
        ensures
            final(self).recent_events == recent_events,
            final(self).route == old(self).route,
            final(self).selected_index == old(self).selected_index,
            final(self).runtime_state == old(self).runtime_state,
            final(self).blocked_domains == old(self).blocked_domains,
            final(self).last_message == old(self).last_message,
            final(self).last_result == old(self).last_result,
            MenuSession::same_editor(old(self), final(self)),
            final(self).status_summary == old(self).status_summary,
            final(self).risk_level == old(self).risk_level,
            final(self).install_state == old(self).install_state,
            final(self).selected_domain_index == old(self).selected_domain_index,
            final(self).block_activity == old(self).block_activity,
            final(self).transcript_mode == old(self).transcript_mode,
            final(self).progress_label == old(self).progress_label,
            final(self).progress_step == old(self).progress_step,
    {
        self.recent_events = recent_events;
    }

    /// Replaces the blocked domains, keeping the domain selection within the new list
    /// (the last entry when it fell off the end, the first when the list is empty).
    pub fn sync_blocked_domains(&mut self, blocked_domains: Vec<String>)
        ensures
            final(self).blocked_domains == blocked_domains,
            final(self).selected_domain_index == (if blocked_domains@.len() == 0 {
                0
            } else if old(self).selected_domain_index >= blocked_domains@.len() {
                (blocked_domains@.len() - 1) as usize
            } else {
                old(self).selected_domain_index
            }),
            final(self).route == old(self).route,
            final(self).selected_index == old(self).selected_index,
            final(self).runtime_state == old(self).runtime_state,
            final(self).last_message == old(self).last_message,
            final(self).last_result == old(self).last_result,
            final(self).recent_events == old(self).recent_events,
            final(self).block_activity == old(self).block_activity,
            MenuSession::same_editor(old(self), final(self)),
            final(self).status_summary == old(self).status_summary,
            final(self).risk_level == old(self).risk_level,
            final(self).install_state == old(self).install_state,
            final(self).transcript_mode == old(self).transcript_mode,
            final(self).progress_label == old(self).progress_label,
            final(self).progress_step == old(self).progress_step,
    {
        self.blocked_domains = blocked_domains;
        if self.blocked_domains.len() == 0 {
            self.selected_domain_index = 0;
        } else if self.selected_domain_index >= self.blocked_domains.len() {
            self.selected_domain_index = self.blocked_domains.len() - 1;
        }
    }

    /// Replaces the blocking activity.
    pub fn sync_block_activity(&mut self, block_activity: BlockActivitySummary)
        ensures
            final(self).block_activity == block_activity,
            final(self).route == old(self).route,
            final(self).selected_index == old(self).selected_index,
            final(self).runtime_state == old(self).runtime_state,
            final(self).blocked_domains == old(self).blocked_domains,
            final(self).selected_domain_index == old(self).selected_domain_index,
            final(self).last_message == old(self).last_message,
            final(self).last_result == old(self).last_result,
            final(self).recent_events == old(self).recent_events,
            MenuSession::same_editor(old(self), final(self)),
            final(self).status_summary == old(self).status_summary,
            final(self).risk_level == old(self).risk_level,
            final(self).install_state == old(self).install_state,
            final(self).transcript_mode == old(self).transcript_mode,
            final(self).progress_label == old(self).progress_label,
            final(self).progress_step == old(self).progress_step,
    {
        self.block_activity = block_activity;
    }

    /// The log a view leads to: its own on a log view, the safety log from the safety view,
    /// the status log from the status view, none elsewhere.
    pub fn log_scope(&self) -> (r: Option<LogScope>)
        ensures
            r == spec_log_scope(self.route),
    {
        match self.route {
            Route::Logs(scope) => Some(scope),
            Route::Safety => Some(LogScope::Safety),
            Route::Status => Some(LogScope::Status),
            _ => None,
        }
    }
}

pub open spec fn spec_log_scope(route: Route) -> Option<LogScope> {
    match route {
        Route::Logs(scope) => Some(scope),
        Route::Safety => Some(LogScope::Safety),
        Route::Status => Some(LogScope::Status),
        _ => None,
    }
}

/// A menu entry.
pub fn action(id: MenuActionId, label: String, description: String) -> (a: MenuAction)
    ensures
        a.id == id,
        a.label == label,
        a.description == description,
{
    MenuAction { id, label, description }
}

} // verus!
