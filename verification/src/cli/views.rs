//! The screens of the interactive session, as text.
use vstd::prelude::*;

use crate::cli::copy::{
    app_subtitle, blocked_domain_editor_hint, footer_hint, intro_text, route_title, confirmation_heading,
    spec_blocked_domain_editor_hint, spec_confirmation_heading, spec_footer_hint, spec_intro_text, spec_route_title,
};
use crate::cli::menu_state::{spec_action_ids, MenuSession};
use crate::cli::navigation::{LogScope, MenuAction, MenuActionId, Route};
use crate::clock::{MAX_UNIX_SECS, MIN_UNIX_SECS};
use crate::storage::events::EventRecord;
use crate::cli::output::{
    recovery_rows, render_recovery_table, render_safety_table, render_status_table, render_summary_table,
    safety_rows, spec_render_table, status_rows, summary_rows, activity_rows, as_shown, editor_rows,
    render_blocked_domains_table, render_domain_editor, render_log_panel_stream, render_settings_summary,
    settings_rows, shown_events, spec_blocked_domains_table, spec_render_log_panel, stream_body, stream_width,
};
use crate::cli::spinner::{line, spec_frame};
use crate::cli::styles::{
    badge_icon, colored, emphasis, inline_badges, menu_description, menu_line, muted, section_prefix,
    section_title, spec_menu_description, spec_menu_line, spec_result_tone, spec_tone_for_mode,
    spec_tone_for_risk, spec_tone_from_result, status_badge, title, tone_code, tone_for_mode, tone_for_risk,
    tone_from_result, tone_text, warning,
    StyleProfile, Tone,
};
use crate::install::version::spec_current_version;
use crate::text::{concat, join, join_strings, owned, views};

verus! {

/// The lines of one menu entry: the entry, and its description when descriptions are shown,
/// or when it is selected, has one, and is not the exit.
pub open spec fn menu_entry_lines(action: MenuAction, selected: bool, profile: StyleProfile, show_description: bool) -> Seq<Seq<char>> {
    seq![spec_menu_line(action.label@, selected, profile)] + if show_description || (selected
        && action.description@.len() > 0 && action.id != MenuActionId::Exit) {
        seq![spec_menu_description(action.description@, selected, profile)]
    } else {
        Seq::empty()
    }
}

pub open spec fn menu_lines(actions: Seq<MenuAction>, selected_index: int, profile: StyleProfile, show_description: bool) -> Seq<Seq<char>>
    decreases actions.len(),
{
    if actions.len() == 0 {
        Seq::empty()
    } else {
        menu_lines(actions.drop_last(), selected_index, profile, show_description)
            + menu_entry_lines(actions.last(), actions.len() - 1 == selected_index, profile, show_description)
    }
}

/// The lines of a menu.
pub fn render_menu(actions: &Vec<MenuAction>, selected_index: usize, profile: StyleProfile, show_description: bool) -> (r: Vec<String>)
    ensures
        views(r@) == menu_lines(actions@, selected_index as int, profile, show_description),
{
    let mut lines: Vec<String> = Vec::new();
    for i in 0..actions.len()
        invariant
            views(lines@) == menu_lines(actions@.take(i as int), selected_index as int, profile, show_description),
    {
        let ghost before = views(lines@);
        let action = &actions[i];
        let selected = i == selected_index;
        proof {
            assert(actions@.take(i + 1).drop_last() =~= actions@.take(i as int));
            assert(actions@.take(i + 1).last() == *action);
        }
        lines.push(menu_line(action.label.as_str(), selected, profile));
        let has_description = crate::text::chars_of(action.description.as_str()).len() > 0;
        if show_description || (selected && has_description && action.id != MenuActionId::Exit) {
            lines.push(menu_description(action.description.as_str(), selected, profile));
        }
        assert(views(lines@) =~= before + menu_entry_lines(*action, selected, profile, show_description));
    }
    assert(actions@.take(actions.len() as int) =~= actions@);
    lines
}

/// The menu lines of `s`'s view given its actions, then a blank line and the footer hint.
pub open spec fn menu_and_footer(actions: Seq<MenuAction>, s: MenuSession, profile: StyleProfile, show_description: bool) -> Seq<Seq<char>> {
    menu_lines(actions, s.selected_index as int, profile, show_description) + seq![
        Seq::empty(),
        colored(spec_footer_hint(s.route), "2;37"@, profile),
    ]
}

/// The actions offered by `s`'s view, as `MenuSession::actions` lists them.
pub open spec fn offered(actions: Seq<MenuAction>, s: MenuSession) -> bool {
    &&& actions.len() == spec_action_ids(s.route).len()
    &&& forall|i: int| 0 <= i < actions.len() ==> {
        &&& (#[trigger] actions[i]).id == spec_action_ids(s.route)[i]
        &&& actions[i].label@ == crate::cli::copy::spec_action_label(spec_action_ids(s.route)[i], s.runtime_state.mode)
        &&& actions[i].description@ == crate::cli::copy::spec_action_description(spec_action_ids(s.route)[i], s.runtime_state.mode)
    }
}

/// Appends the menu of the session's view, a blank line and the footer hint.
fn push_menu_and_footer(lines: &mut Vec<String>, session: &MenuSession, profile: StyleProfile, show_description: bool)
    ensures
        exists|actions: Seq<MenuAction>| offered(actions, *session)
            && views(final(lines)@) == views(old(lines)@) + menu_and_footer(actions, *session, profile, show_description),
{
    let actions = session.actions();
    let menu = render_menu(&actions, session.selected_index, profile, show_description);
    let ghost before = views(lines@);
    let mut j: usize = 0;
    while j < menu.len()
        invariant
            j <= menu.len(),
            views(lines@) == before + views(menu@).take(j as int),
        decreases menu.len() - j,
    {
        let ghost b2 = views(lines@);
        lines.push(menu[j].clone());
        assert(views(lines@) =~= b2.push(menu@[j as int]@));
        assert(views(menu@).take(j + 1) =~= views(menu@).take(j as int).push(menu@[j as int]@));
        j += 1;
    }
    assert(views(menu@).take(menu.len() as int) =~= views(menu@));
    let ghost b3 = views(lines@);
    lines.push(String::new());
    lines.push(muted(footer_hint(session.route), profile));
    proof {
        assert(views(lines@) =~= b3 + seq![Seq::<char>::empty(), colored(spec_footer_hint(session.route), "2;37"@, profile)]);
        assert(offered(actions@, *session));
        assert(views(lines@) =~= before + menu_and_footer(actions@, *session, profile, show_description));
    }
}


pub open spec fn section(label: Seq<char>, profile: StyleProfile) -> Seq<char> {
    colored(section_prefix(profile) + " "@ + label, "1;37"@, profile)
}

pub open spec fn dim(label: Seq<char>, profile: StyleProfile) -> Seq<char> {
    colored(label, "2;37"@, profile)
}

/// Appends `items` to `lines`.
fn push_all(lines: &mut Vec<String>, items: Vec<String>)
    ensures
        views(final(lines)@) == views(old(lines)@) + views(items@),
{
    let ghost before = views(lines@);
    let mut j: usize = 0;
    while j < items.len()
        invariant
            j <= items.len(),
            views(lines@) == before + views(items@).take(j as int),
        decreases items.len() - j,
    {
        let ghost b2 = views(lines@);
        lines.push(items[j].clone());
        assert(views(lines@) =~= b2.push(items@[j as int]@));
        assert(views(items@).take(j + 1) =~= views(items@).take(j as int).push(items@[j as int]@));
        j += 1;
    }
    assert(views(items@).take(items.len() as int) =~= views(items@));
}

/// The end of the session.
pub fn render_exit(session: &MenuSession, profile: StyleProfile) -> (r: String)
    ensures
        r@ == join(seq![
            section("Salida"@, profile),
            dim("Sentinel cerro la sesion interactiva."@, profile),
            Seq::empty(),
            session.last_message@,
        ], "\n"@),
{
    let mut lines: Vec<String> = Vec::new();
    lines.push(section_title("Salida", profile));
    lines.push(muted("Sentinel cerro la sesion interactiva.", profile));
    lines.push(String::new());
    lines.push(session.last_message.clone());
    assert(views(lines@) =~= seq![
        section("Salida"@, profile),
        dim("Sentinel cerro la sesion interactiva."@, profile),
        Seq::<char>::empty(),
        session.last_message@,
    ]);
    join_strings(lines.as_slice(), "\n")
}

pub open spec fn standard_lines(s: MenuSession, profile: StyleProfile, body: Seq<char>, intro: Seq<char>) -> Seq<Seq<char>> {
    seq![
        section(spec_route_title(s.route), profile),
        intro,
        Seq::empty(),
        body,
        Seq::empty(),
        dim(s.last_message@, profile),
        Seq::empty(),
        section("Continuar"@, profile),
    ]
}

/// A view: its title, an introduction, the body, the last message, then the menu and the
/// footer hint.
pub fn render_standard_view(session: &MenuSession, profile: StyleProfile, body: String, intro: &str) -> (r: String)
    ensures
        exists|actions: Seq<MenuAction>| offered(actions, *session)
            && r@ == join(standard_lines(*session, profile, body@, intro@) + menu_and_footer(actions, *session, profile, false), "\n"@),
{
    let ghost b = body@;
    let mut lines: Vec<String> = Vec::new();
    lines.push(section_title(route_title(session.route), profile));
    lines.push(owned(intro));
    lines.push(String::new());
    lines.push(body);
    lines.push(String::new());
    lines.push(muted(session.last_message.as_str(), profile));
    lines.push(String::new());
    lines.push(section_title("Continuar", profile));
    assert(views(lines@) =~= standard_lines(*session, profile, b, intro@));
    push_menu_and_footer(&mut lines, session, profile, false);
    join_strings(lines.as_slice(), "\n")
}

/// A badge of the home view: `icon label: value` in the colour of the tone.
pub open spec fn badge(label: Seq<char>, value: Seq<char>, tone: Tone, profile: StyleProfile) -> Seq<char> {
    colored(badge_icon(tone, profile) + " "@ + label + ": "@ + value, tone_code(spec_result_tone(tone)), profile)
}

pub open spec fn home_lines(s: MenuSession, terminal_width: nat, profile: StyleProfile, logo: Seq<char>, next_action: Seq<char>) -> Seq<Seq<char>> {
    seq![
        colored(logo, "1;36"@, profile),
        dim("Version "@ + spec_current_version(), profile),
        Seq::empty(),
        section("Inicio"@, profile),
        spec_intro_text(s.route, s.runtime_state.mode),
        Seq::empty(),
        join(seq![
            badge("Proteccion"@, s.runtime_state.mode.spec_label(), spec_tone_for_mode(s.runtime_state.mode), profile),
            badge("Riesgo"@, s.runtime_state.risk_level.spec_label(), spec_tone_for_risk(s.runtime_state.risk_level), profile),
        ], "  "@),
        Seq::empty(),
        spec_render_table("Campo"@, "Valor"@, summary_rows(s.runtime_state, next_action, terminal_width < 84), terminal_width, profile.unicode),
        Seq::empty(),
        dim(s.last_message@, profile),
        Seq::empty(),
        section("Acciones principales"@, profile),
    ]
}

/// The home view: the logo and the version, the protection and risk badges, the overview table
/// with `next_action` as its next step, the last message, then every action with its
/// description and the footer hint.
pub fn render_home(session: &MenuSession, terminal_width: usize, profile: StyleProfile, logo: &str, next_action: &str) -> (r: String)
    ensures
        exists|actions: Seq<MenuAction>| offered(actions, *session)
            && r@ == join(home_lines(*session, terminal_width as nat, profile, logo@, next_action@)
                + menu_and_footer(actions, *session, profile, true), "\n"@),
{
    let mut badges: Vec<String> = Vec::new();
    badges.push(status_badge("Proteccion", session.runtime_state.mode.label(), tone_for_mode(session.runtime_state.mode), profile));
    badges.push(status_badge("Riesgo", session.runtime_state.risk_level.label(), tone_for_risk(session.runtime_state.risk_level), profile));
    let subtitle = app_subtitle();
    let mut lines: Vec<String> = Vec::new();
    lines.push(title(logo, profile));
    lines.push(muted(subtitle.as_str(), profile));
    lines.push(String::new());
    lines.push(section_title("Inicio", profile));
    lines.push(owned(intro_text(session.route, session.runtime_state.mode)));
    lines.push(String::new());
    lines.push(inline_badges(badges.as_slice()));
    lines.push(String::new());
    lines.push(render_summary_table(&session.runtime_state, next_action, terminal_width, terminal_width < 84, profile));
    lines.push(String::new());
    lines.push(muted(session.last_message.as_str(), profile));
    lines.push(String::new());
    lines.push(section_title("Acciones principales", profile));
    proof {
        assert(views(badges@) =~= seq![
            badge("Proteccion"@, session.runtime_state.mode.spec_label(), spec_tone_for_mode(session.runtime_state.mode), profile),
            badge("Riesgo"@, session.runtime_state.risk_level.spec_label(), spec_tone_for_risk(session.runtime_state.risk_level), profile),
        ]);
        assert(views(lines@) =~= home_lines(*session, terminal_width as nat, profile, logo@, next_action@));
    }
    push_menu_and_footer(&mut lines, session, profile, true);
    join_strings(lines.as_slice(), "\n")
}

pub open spec fn detail_body(s: MenuSession, terminal_width: nat, profile: StyleProfile) -> Seq<char> {
    let compact = terminal_width < 84;
    match s.route {
        Route::Safety => spec_render_table("Chequeo"@, "Resultado"@, safety_rows(s.runtime_state, compact), terminal_width, profile.unicode),
        Route::Status => spec_render_table("Estado"@, "Valor"@, status_rows(s.runtime_state, s.install_state, compact), terminal_width, profile.unicode)
            + "\n"@ + "\n"@ + spec_render_table("Actividad de bloqueo"@, "Valor"@, activity_rows(s.block_activity), terminal_width, profile.unicode),
        _ => Seq::empty(),
    }
}

/// The safety and status views: their table in the standard layout.
pub fn render_detail(session: &MenuSession, terminal_width: usize, profile: StyleProfile) -> (r: String)
    requires
        session.block_activity.last_blocked_at matches Some(t) ==> t.wf(),
    ensures
        exists|actions: Seq<MenuAction>| offered(actions, *session)
            && r@ == join(standard_lines(*session, profile, detail_body(*session, terminal_width as nat, profile),
                spec_intro_text(session.route, session.runtime_state.mode)) + menu_and_footer(actions, *session, profile, false), "\n"@),
{
    let compact = terminal_width < 84;
    let body = match session.route {
        Route::Safety => render_safety_table(&session.runtime_state, terminal_width, compact, profile),
        Route::Status => render_status_table(
            &session.runtime_state,
            &session.install_state,
            &session.block_activity,
            terminal_width,
            compact,
            profile,
        ),
        _ => String::new(),
    };
    render_standard_view(session, profile, body, intro_text(session.route, session.runtime_state.mode))
}

/// The recovery view: the recovery table in the standard layout.
pub fn render_recovery(session: &MenuSession, terminal_width: usize, profile: StyleProfile) -> (r: String)
    ensures
        exists|actions: Seq<MenuAction>| offered(actions, *session)
            && r@ == join(standard_lines(*session, profile,
                spec_render_table("Recuperacion"@, "Valor"@, recovery_rows(session.runtime_state, terminal_width < 84), terminal_width as nat, profile.unicode),
                spec_intro_text(session.route, session.runtime_state.mode)) + menu_and_footer(actions, *session, profile, false), "\n"@),
{
    let compact = terminal_width < 84;
    let table = render_recovery_table(&session.runtime_state, terminal_width, compact, profile);
    render_standard_view(session, profile, table, intro_text(session.route, session.runtime_state.mode))
}

pub open spec fn confirmation_lines(s: MenuSession, profile: StyleProfile) -> Seq<Seq<char>> {
    seq![
        section(spec_route_title(s.route), profile),
        colored(spec_intro_text(s.route, s.runtime_state.mode), "1;33"@, profile),
        Seq::empty(),
        colored(
            badge_icon(Tone::Warning, profile) + " "@ + "Accion sensible"@ + ": "@ + spec_confirmation_heading(s.route->Confirm_0),
            tone_code(spec_result_tone(Tone::Warning)),
            profile,
        ),
        Seq::empty(),
        dim(s.last_message@, profile),
        Seq::empty(),
        section("Elegir siguiente paso"@, profile),
    ]
}

/// The confirmation of a sensitive action.
pub fn render_confirmation(session: &MenuSession, profile: StyleProfile) -> (r: String)
    requires
        session.route is Confirm,
    ensures
        exists|actions: Seq<MenuAction>| offered(actions, *session)
            && r@ == join(confirmation_lines(*session, profile) + menu_and_footer(actions, *session, profile, false), "\n"@),
{
    let mut lines: Vec<String> = Vec::new();
    lines.push(section_title(route_title(session.route), profile));
    lines.push(warning(intro_text(session.route, session.runtime_state.mode), profile));
    lines.push(String::new());
    lines.push(
        status_badge("Accion sensible", confirmation_heading(session.pending_confirmation()), Tone::Warning, profile),
    );
    lines.push(String::new());
    lines.push(muted(session.last_message.as_str(), profile));
    lines.push(String::new());
    lines.push(section_title("Elegir siguiente paso", profile));
    assert(views(lines@) =~= confirmation_lines(*session, profile));
    push_menu_and_footer(&mut lines, session, profile, false);
    join_strings(lines.as_slice(), "\n")
}

pub open spec fn progress_lines(s: MenuSession, terminal_width: nat, profile: StyleProfile) -> Seq<Seq<char>> {
    let label = match s.progress_label {
        Some(l) => l@,
        None => "Procesando..."@,
    };
    seq![
        section("Procesando"@, profile),
        dim("Sentinel esta ejecutando la accion solicitada."@, profile),
        Seq::empty(),
        colored(spec_frame(s.progress_step as nat, profile) + " "@ + label, "1;36"@, profile),
        Seq::empty(),
        dim("La vista final aparecera al terminar la operacion."@, profile),
    ] + if (if terminal_width < 88 { terminal_width } else { 88 }) > 60 {
        seq![Seq::empty(), dim("Estado actual: "@ + s.runtime_state.mode.spec_label(), profile)]
    } else {
        Seq::empty()
    }
}

/// The view shown while an operation runs: the spinner and the label of the operation.
pub fn render_progress(session: &MenuSession, terminal_width: usize, profile: StyleProfile) -> (r: String)
    ensures
        r@ == join(progress_lines(*session, terminal_width as nat, profile), "\n"@),
{
    let width = if terminal_width < 88 { terminal_width } else { 88 };
    let progress = match session.progress_label() {
        Some(l) => l,
        None => "Procesando...",
    };
    let mut lines: Vec<String> = Vec::new();
    lines.push(section_title("Procesando", profile));
    lines.push(muted("Sentinel esta ejecutando la accion solicitada.", profile));
    lines.push(String::new());
    lines.push(emphasis(line(progress, session.progress_step, profile).as_str(), profile));
    lines.push(String::new());
    lines.push(muted("La vista final aparecera al terminar la operacion.", profile));
    if width > 60 {
        lines.push(String::new());
        lines.push(muted(concat("Estado actual: ", session.runtime_state.mode.label()).as_str(), profile));
    }
    assert(views(lines@) =~= progress_lines(*session, terminal_width as nat, profile));
    join_strings(lines.as_slice(), "\n")
}

pub open spec fn result_lines(s: MenuSession, terminal_width: nat, profile: StyleProfile) -> Seq<Seq<char>> {
    let res = s.last_result->Some_0;
    seq![
        section(res.title@, profile),
        colored(res.summary@, tone_code(res.tone), profile),
        Seq::empty(),
        join(seq![
            colored(
                badge_icon(spec_tone_for_mode(s.runtime_state.mode), profile) + " "@ + "Proteccion"@ + ": "@ + s.runtime_state.mode.spec_label(),
                tone_code(spec_result_tone(spec_tone_for_mode(s.runtime_state.mode))),
                profile,
            ),
            colored(
                badge_icon(spec_tone_from_result(res.tone), profile) + " "@ + "Siguiente paso"@ + ": "@ + res.next_step@,
                tone_code(spec_result_tone(spec_tone_from_result(res.tone))),
                profile,
            ),
        ], "  "@),
        Seq::empty(),
        spec_render_table("Campo"@, "Valor"@, summary_rows(s.runtime_state, res.next_step@, terminal_width < 84), terminal_width, profile.unicode),
        Seq::empty(),
        section("Continuar"@, profile),
    ]
}

/// The result of an operation: its title, summary and badges, the overview table and the menu.
pub fn render_result(session: &MenuSession, terminal_width: usize, profile: StyleProfile) -> (r: String)
    requires
        session.last_result is Some,
    ensures
        exists|actions: Seq<MenuAction>| offered(actions, *session)
            && r@ == join(result_lines(*session, terminal_width as nat, profile) + menu_and_footer(actions, *session, profile, false), "\n"@),
{
    let result = match &session.last_result {
        Some(r) => r,
        None => {
            return String::new();
        },
    };
    let compact = terminal_width < 84;
    let summary = render_summary_table(&session.runtime_state, result.next_step.as_str(), terminal_width, compact, profile);
    let mut badges: Vec<String> = Vec::new();
    badges.push(
        status_badge("Proteccion", session.runtime_state.mode.label(), tone_for_mode(session.runtime_state.mode), profile),
    );
    badges.push(status_badge("Siguiente paso", result.next_step.as_str(), tone_from_result(result.tone), profile));
    let mut lines: Vec<String> = Vec::new();
    lines.push(section_title(result.title.as_str(), profile));
    lines.push(tone_text(result.summary.as_str(), result.tone, profile));
    lines.push(String::new());
    lines.push(inline_badges(badges.as_slice()));
    lines.push(String::new());
    lines.push(summary);
    lines.push(String::new());
    lines.push(section_title("Continuar", profile));
    proof {
        assert(views(badges@) =~= seq![
            colored(
                badge_icon(spec_tone_for_mode(session.runtime_state.mode), profile) + " "@ + "Proteccion"@ + ": "@ + session.runtime_state.mode.spec_label(),
                tone_code(spec_result_tone(spec_tone_for_mode(session.runtime_state.mode))),
                profile,
            ),
            colored(
                badge_icon(spec_tone_from_result(result.tone), profile) + " "@ + "Siguiente paso"@ + ": "@ + result.next_step@,
                tone_code(spec_result_tone(spec_tone_from_result(result.tone))),
                profile,
            ),
        ]);
        assert(views(lines@) =~= result_lines(*session, terminal_width as nat, profile));
    }
    push_menu_and_footer(&mut lines, session, profile, false);
    join_strings(lines.as_slice(), "\n")
}

/// The last block's instant, when there is one, can be shown.
pub open spec fn activity_time_shown(s: MenuSession) -> bool {
    s.block_activity.last_blocked_at matches Some(t) ==> t.wf()
}

/// Every recent event's instant can be shown.
pub open spec fn event_times_shown(s: MenuSession) -> bool {
    forall|k: int| 0 <= k < s.recent_events@.len() ==> (#[trigger] s.recent_events@[k]).timestamp.wf()
}

/// What a log view says when it has nothing to show.
pub open spec fn empty_log_copy(scope: LogScope) -> Seq<char> {
    match scope {
        LogScope::Safety => "Todavia no hay chequeos de seguridad registrados."@,
        LogScope::Status => "Todavia no hay eventos registrados."@,
    }
}

/// `body` is the log panel of the session's recent events, sized to the terminal, or the
/// empty copy when an instant cannot be shown.
pub open spec fn log_body(s: MenuSession, scope: LogScope, w: nat, profile: StyleProfile, body: Seq<char>) -> bool {
    if event_times_shown(s) {
        let d = s.recent_events@.filter(shown_events());
        exists|shown_list: Seq<EventRecord>| {
            &&& shown_list.len() == d.len()
            &&& (forall|k: int| 0 <= k < d.len() ==> as_shown(#[trigger] d[k], shown_list[k]))
            &&& body == spec_render_log_panel(stream_body(shown_list, empty_log_copy(scope), stream_width(w)), stream_width(w), profile.unicode)
        }
    } else {
        body == empty_log_copy(scope)
    }
}

/// `r` is `s`'s view in the standard layout around `body`, with the view's own introduction.
pub open spec fn standard_view(s: MenuSession, profile: StyleProfile, body: Seq<char>, r: Seq<char>) -> bool {
    exists|actions: Seq<MenuAction>| offered(actions, s)
        && r == join(standard_lines(s, profile, body, spec_intro_text(s.route, s.runtime_state.mode))
            + menu_and_footer(actions, s, profile, false), "\n"@)
}

/// What each view shows: the home view with `logo` and the session's summary as next step;
/// the safety and status tables (no table when the last block's instant cannot be shown); the
/// recovery table; the confirmation; the progress; the result; the end; the settings, the
/// blocked domains and the domain editor; and the logs.
pub open spec fn view_text(s: MenuSession, w: nat, profile: StyleProfile, logo: Seq<char>, r: Seq<char>) -> bool {
    match s.route {
        Route::Home => exists|actions: Seq<MenuAction>| offered(actions, s)
            && r == join(home_lines(s, w, profile, logo, s.status_summary@) + menu_and_footer(actions, s, profile, true), "\n"@),
        Route::Safety => standard_view(s, profile, if activity_time_shown(s) { detail_body(s, w, profile) } else { Seq::empty() }, r),
        Route::Status => standard_view(s, profile, if activity_time_shown(s) { detail_body(s, w, profile) } else { Seq::empty() }, r),
        Route::Recovery => standard_view(
            s,
            profile,
            spec_render_table("Recuperacion"@, "Valor"@, recovery_rows(s.runtime_state, w < 84), w, profile.unicode),
            r,
        ),
        Route::Confirm(_) => exists|actions: Seq<MenuAction>| offered(actions, s)
            && r == join(confirmation_lines(s, profile) + menu_and_footer(actions, s, profile, false), "\n"@),
        Route::Progress => r == join(progress_lines(s, w, profile), "\n"@),
        Route::Result => exists|actions: Seq<MenuAction>| offered(actions, s)
            && r == join(result_lines(s, w, profile) + menu_and_footer(actions, s, profile, false), "\n"@),
        Route::Exit => r == join(seq![
            section("Salida"@, profile),
            dim("Sentinel cerro la sesion interactiva."@, profile),
            Seq::empty(),
            s.last_message@,
        ], "\n"@),
        Route::Settings => standard_view(
            s,
            profile,
            spec_render_table("Campo"@, "Valor"@, settings_rows(s.blocked_domains@.len() as usize), w, profile.unicode),
            r,
        ),
        Route::BlockedDomains => standard_view(
            s,
            profile,
            spec_blocked_domains_table(views(s.blocked_domains@), s.selected_domain_index as int, w, profile),
            r,
        ),
        Route::BlockedDomainEditor(mode) => standard_view(
            s,
            profile,
            spec_render_table(
                "Campo"@,
                "Valor"@,
                editor_rows(
                    s.domain_input@,
                    spec_blocked_domain_editor_hint(mode, match s.domain_original {
                        Some(o) => Some(o@),
                        None => None,
                    }),
                ),
                w,
                profile.unicode,
            ),
            r,
        ),
        Route::Logs(scope) => exists|body: Seq<char>| log_body(s, scope, w, profile, body) && standard_view(s, profile, body, r),
    }
}

fn activity_time_showable(session: &MenuSession) -> (b: bool)
    ensures
        b == activity_time_shown(*session),
{
    match session.block_activity.last_blocked_at {
        Some(t) => t.secs >= MIN_UNIX_SECS && t.secs <= MAX_UNIX_SECS && t.nanos < 1_000_000_000,
        None => true,
    }
}

fn event_times_showable(session: &MenuSession) -> (b: bool)
    ensures
        b == event_times_shown(*session),
{
    let n = session.recent_events.len();
    let mut i: usize = 0;
    while i < n
        invariant
            n == session.recent_events@.len(),
            i <= n,
            forall|k: int| 0 <= k < i ==> (#[trigger] session.recent_events@[k]).timestamp.wf(),
        decreases n - i,
    {
        let t = session.recent_events[i].timestamp;
        if !(t.secs >= MIN_UNIX_SECS && t.secs <= MAX_UNIX_SECS && t.nanos < 1_000_000_000) {
            return false;
        }
        i += 1;
    }
    true
}

/// The text of the session's current view, as `view_text` describes it.
pub fn render_view(session: &MenuSession, terminal_width: usize, profile: StyleProfile, logo: &str) -> (r: String)
    requires
        session.route is Result ==> session.last_result is Some,
    ensures
        view_text(*session, terminal_width as nat, profile, logo@, r@),
{
    let width = terminal_width;
    match session.route {
        Route::Home => {
            let next_action = session.status_summary.as_str();
            assert(next_action@ == session.status_summary@);
            render_home(session, width, profile, logo, next_action)
        },
        Route::Safety | Route::Status => {
            if activity_time_showable(session) {
                render_detail(session, width, profile)
            } else {
                render_standard_view(session, profile, String::new(), intro_text(session.route, session.runtime_state.mode))
            }
        },
        Route::Recovery => render_recovery(session, width, profile),
        Route::Confirm(_) => render_confirmation(session, profile),
        Route::Progress => render_progress(session, width, profile),
        Route::Result => render_result(session, width, profile),
        Route::Exit => render_exit(session, profile),
        Route::Settings => {
            let body = render_settings_summary(session.blocked_domains.len(), width, profile);
            render_standard_view(session, profile, body, intro_text(session.route, session.runtime_state.mode))
        },
        Route::BlockedDomains => {
            let body = render_blocked_domains_table(&session.blocked_domains, session.selected_domain_index, width, profile);
            render_standard_view(session, profile, body, intro_text(session.route, session.runtime_state.mode))
        },
        Route::BlockedDomainEditor(mode) => {
            let original = match &session.domain_original {
                Some(o) => Some(o.as_str()),
                None => None,
            };
            let hint = blocked_domain_editor_hint(mode, original);
            let body = render_domain_editor(session.domain_input.as_str(), hint, width, profile);
            render_standard_view(session, profile, body, intro_text(session.route, session.runtime_state.mode))
        },
        Route::Logs(scope) => {
            let empty = match scope {
                LogScope::Safety => "Todavia no hay chequeos de seguridad registrados.",
                LogScope::Status => "Todavia no hay eventos registrados.",
            };
            proof {
                reveal_strlit("Todavia no hay chequeos de seguridad registrados.");
                reveal_strlit("Todavia no hay eventos registrados.");
            }
            let body = if event_times_showable(session) {
                render_log_panel_stream(&session.recent_events, empty, width, profile)
            } else {
                owned(empty)
            };
            let ghost b = body@;
            let r = render_standard_view(session, profile, body, intro_text(session.route, session.runtime_state.mode));
            assert(log_body(*session, scope, width as nat, profile, b));
            assert(standard_view(*session, profile, b, r@));
            assert(exists|body: Seq<char>| log_body(*session, scope, width as nat, profile, body)
                && standard_view(*session, profile, body, r@));
            r
        },
    }
}

} // verus!
