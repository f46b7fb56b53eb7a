//! The text of the earlier English interactive session's screens.
use vstd::prelude::*;

use crate::storage::install::InstallAction;
use crate::storage::state::RiskLevel;
use crate::text::{concat, decimal, join, join_strings, owned, usize_to_string, views};
use crate::tui::app_state::{item_view, spec_actions, ActionItem, InteractiveSession, Screen};

verus! {

pub open spec fn spec_screen_title(screen: Screen) -> Seq<char> {
    match screen {
        Screen::Home => "Home"@,
        Screen::Safety => "Safety"@,
        Screen::Status => "Status"@,
        Screen::Install => "Install"@,
        Screen::Recovery => "Recovery"@,
        Screen::Confirm => "Confirm"@,
        Screen::Exit => "Exit"@,
    }
}

/// The title of the current screen.
pub fn screen_title(session: &InteractiveSession) -> (s: &'static str)
    ensures
        s@ == spec_screen_title(session.screen),
{
    match session.screen {
        Screen::Home => "Home",
        Screen::Safety => "Safety",
        Screen::Status => "Status",
        Screen::Install => "Install",
        Screen::Recovery => "Recovery",
        Screen::Confirm => "Confirm",
        Screen::Exit => "Exit",
    }
}

/// The colour the risk is shown in.
#[derive(Debug, Clone, Copy, PartialEq, Eq, Structural)]
pub enum RiskStyle {
    Success,
    Warning,
    Danger,
}

/// Normal risk is shown as success, warning as warning, critical as danger.
pub fn highlight_risk(session: &InteractiveSession) -> (r: RiskStyle)
    ensures
        r == (match session.risk_level {
            RiskLevel::Normal => RiskStyle::Success,
            RiskLevel::Warning => RiskStyle::Warning,
            RiskLevel::Critical => RiskStyle::Danger,
        }),
{
    match session.risk_level {
        RiskLevel::Normal => RiskStyle::Success,
        RiskLevel::Warning => RiskStyle::Warning,
        RiskLevel::Critical => RiskStyle::Danger,
    }
}

pub open spec fn opt_or(o: Option<String>, d: Seq<char>) -> Seq<char> {
    match o {
        Some(v) => v@,
        None => d,
    }
}

/// The text of each line of the current screen.
pub open spec fn spec_screen_lines(s: InteractiveSession) -> Seq<Seq<char>> {
    match s.screen {
        Screen::Home => seq![
            "Sentinel keeps the flow intentionally narrow: inspect safety, enable protection, review status, recover if needed, and leave."@,
            Seq::empty(),
            "Current state: "@ + s.runtime_state.mode.spec_label(),
            s.status_summary@,
        ],
        Screen::Safety => seq![
            "Safety status: "@ + match s.runtime_state.last_safety_check {
                Some(c) => c.status.spec_label(),
                None => "Not run"@,
            },
            Seq::empty(),
            match s.runtime_state.last_safety_check {
                Some(c) => if c.issues@.len() == 0 { "No blocking issues found."@ } else { join(views(c.issues@), " | "@) },
                None => "Safety checks have not been run yet."@,
            },
            s.status_summary@,
        ],
        Screen::Status => seq![
            "Protection mode: "@ + s.runtime_state.mode.spec_label(),
            "Risk level: "@ + s.risk_level.spec_label(),
            "Runtime PID: "@ + match s.runtime_state.runtime_pid {
                Some(pid) => decimal(pid as nat),
                None => "Not running"@,
            },
            "Install path: "@ + opt_or(s.install_state.path_entry, "Not installed in PATH"@),
        ],
        Screen::Install => seq![
            "Installed: "@ + if s.install_state.installed { "Yes"@ } else { "No"@ },
            "Current version: "@ + opt_or(s.install_state.installed_version, "Unavailable"@),
            "Target version: "@ + s.install_state.target_version@,
            "Recommended installer action: "@ + s.install_state.action.spec_label(),
            s.install_state.last_install_result@,
        ],
        Screen::Recovery => seq![
            "Recovery uses the latest valid DNS snapshot captured before Sentinel changed network settings."@,
            Seq::empty(),
            "If health degrades, recover before attempting another risky action."@,
            s.status_summary@,
        ],
        Screen::Confirm => seq![
            "Confirm the selected sensitive action."@,
            Seq::empty(),
            "Press Enter or y to continue, Esc or n to cancel."@,
        ],
        Screen::Exit => seq!["Sentinel exited cleanly."@],
    }
}

fn or_text(o: &Option<String>, d: &str) -> (r: String)
    ensures
        r@ == opt_or(*o, d@),
{
    match o {
        Some(v) => v.clone(),
        None => owned(d),
    }
}

/// The lines of the current screen.
pub fn screen_lines(session: &InteractiveSession) -> (r: Vec<String>)
    ensures
        views(r@) == spec_screen_lines(*session),
{
    let mut r: Vec<String> = Vec::new();
    match session.screen {
        Screen::Home => {
            r.push(owned("Sentinel keeps the flow intentionally narrow: inspect safety, enable protection, review status, recover if needed, and leave."));
            r.push(String::new());
            r.push(concat("Current state: ", session.runtime_state.mode.label()));
            r.push(session.status_summary.clone());
        },
        Screen::Safety => {
            let status = match &session.runtime_state.last_safety_check {
                Some(c) => c.status.label(),
                None => "Not run",
            };
            let issues = match &session.runtime_state.last_safety_check {
                Some(c) => if c.issues.len() == 0 {
                    owned("No blocking issues found.")
                } else {
                    join_strings(c.issues.as_slice(), " | ")
                },
                None => owned("Safety checks have not been run yet."),
            };
            r.push(concat("Safety status: ", status));
            r.push(String::new());
            r.push(issues);
            r.push(session.status_summary.clone());
        },
        Screen::Status => {
            r.push(concat("Protection mode: ", session.runtime_state.mode.label()));
            r.push(concat("Risk level: ", session.risk_level.label()));
            let pid = match session.runtime_state.runtime_pid {
                Some(pid) => usize_to_string(pid as usize),
                None => owned("Not running"),
            };
            r.push(concat("Runtime PID: ", pid.as_str()));
            r.push(concat("Install path: ", or_text(&session.install_state.path_entry, "Not installed in PATH").as_str()));
        },
        Screen::Install => {
            r.push(concat("Installed: ", if session.install_state.installed { "Yes" } else { "No" }));
            r.push(concat("Current version: ", or_text(&session.install_state.installed_version, "Unavailable").as_str()));
            r.push(concat("Target version: ", session.install_state.target_version.as_str()));
            r.push(concat("Recommended installer action: ", session.install_state.action.label()));
            r.push(session.install_state.last_install_result.clone());
        },
        Screen::Recovery => {
            r.push(owned("Recovery uses the latest valid DNS snapshot captured before Sentinel changed network settings."));
            r.push(String::new());
            r.push(owned("If health degrades, recover before attempting another risky action."));
            r.push(session.status_summary.clone());
        },
        Screen::Confirm => {
            r.push(owned("Confirm the selected sensitive action."));
            r.push(String::new());
            r.push(owned("Press Enter or y to continue, Esc or n to cancel."));
        },
        Screen::Exit => {
            r.push(owned("Sentinel exited cleanly."));
        },
    }
    assert(views(r@) =~= spec_screen_lines(*session));
    r
}

pub open spec fn action_lines(actions: Seq<(crate::tui::app_state::ActionId, Seq<char>)>, selected: int) -> Seq<Seq<char>> {
    Seq::new(actions.len(), |i: int| (if i == selected { "> "@ } else { "  "@ }) + actions[i].1)
}

pub open spec fn spec_render_snapshot(s: InteractiveSession) -> Seq<char> {
    "Sentinel\nProtection: "@ + s.runtime_state.mode.spec_label() + "\nRisk: "@ + s.risk_level.spec_label()
        + "\nBlocklist domains: "@ + decimal(s.runtime_state.blocklist_domain_count as nat) + "\nScreen: "@
        + spec_screen_title(s.screen) + "\nSummary: "@ + s.status_summary@ + "\nMessage: "@ + s.last_message@
        + "\nInstall action: "@ + s.install_state.action.spec_label() + "\nActions:\n"@
        + join(action_lines(spec_actions(s.runtime_state.mode), s.selected_action as int), "\n"@)
}

/// The session as plain text, for transcripts.
pub fn render_snapshot(session: &InteractiveSession) -> (r: String)
    ensures
        r@ == spec_render_snapshot(*session),
{
    let actions = session.actions();
    let ghost av = actions@.map_values(|a: ActionItem| item_view(a));
    let mut lines: Vec<String> = Vec::new();
    for i in 0..actions.len()
        invariant
            av == actions@.map_values(|a: ActionItem| item_view(a)),
            av == spec_actions(session.runtime_state.mode),
            lines@.len() == i,
            forall|k: int| 0 <= k < i ==> #[trigger] lines@[k]@ == action_lines(av, session.selected_action as int)[k],
    {
        let prefix = if i == session.selected_action { "> " } else { "  " };
        assert(av[i as int] == item_view(actions@[i as int]));
        lines.push(concat(prefix, actions[i].label.as_str()));
    }
    assert(views(lines@) =~= action_lines(av, session.selected_action as int));
    let listed = join_strings(lines.as_slice(), "\n");
    let mut s = owned("Sentinel\nProtection: ");
    s.append(session.runtime_state.mode.label());
    s.append("\nRisk: ");
    s.append(session.risk_level.label());
    s.append("\nBlocklist domains: ");
    s.append(usize_to_string(session.runtime_state.blocklist_domain_count).as_str());
    s.append("\nScreen: ");
    s.append(screen_title(session));
    s.append("\nSummary: ");
    s.append(session.status_summary.as_str());
    s.append("\nMessage: ");
    s.append(session.last_message.as_str());
    s.append("\nInstall action: ");
    s.append(session.install_state.action.label());
    s.append("\nActions:\n");
    s.append(listed.as_str());
    s
}

} // verus!
