use sentinel::cli::styles::StyleProfile;
use sentinel::cli::views::{render_home, render_view};
use sentinel::app::{AppPaths, Effect, SentinelApp, Step, DomainWrite};
use sentinel::blocking::blocklist::BlocklistBundle;
use sentinel::cli::menu_state::MenuSession;
use sentinel::cli::navigation::{ConfirmationAction, DomainEditorMode, MenuActionId, Route, ResultTone};
use sentinel::cli::{parse_script, InputEvent};
use sentinel::clock::Timestamp;
use sentinel::storage::events::BlockActivitySummary;
use sentinel::storage::install::{installation_state, InstallAction};
use sentinel::storage::state::{ProtectionMode, RuntimeState};

fn paths() -> AppPaths {
    AppPaths {
        state_dir: "/tmp/s/state".to_string(),
        snapshots_dir: "/tmp/s/state/snapshots".to_string(),
        blocklist_file: "/tmp/s/data/blocklist.txt".to_string(),
        config_file: "/tmp/s/config/config.toml".to_string(),
        state_file: "/tmp/s/state/state.json".to_string(),
        events_file: "/tmp/s/state/events.jsonl".to_string(),
        install_file: "/tmp/s/data/install.json".to_string(),
    }
}

fn session(domains: &[&str]) -> MenuSession {
    let bundle = BlocklistBundle::parse("ads.example.com\n", Timestamp { secs: 0, nanos: 0 }, "t".to_string()).unwrap();
    let install = installation_state(None, None, "No installer action recorded yet.".to_string());
    MenuSession::from_runtime_state(
        RuntimeState::initial(),
        install,
        Vec::new(),
        domains.iter().map(|d| d.to_string()).collect(),
        BlockActivitySummary::empty(),
        &bundle,
        true,
    )
}

#[test]
fn a_new_session_opens_on_home() {
    let s = session(&[]);
    assert_eq!(s.route, Route::Home);
    assert_eq!(s.selected_index, 0);
    assert_eq!(s.last_message, "Sentinel esta listo para activarse, ver su estado o recuperar la red.");
    assert_eq!(s.runtime_state.blocklist_version, "0.1.1-1");
}

#[test]
fn arrows_move_the_selection_around_the_menu() {
    let app = SentinelApp::new(paths());
    let mut s = session(&[]);
    assert_eq!(app.handle_input(&mut s, InputEvent::Up), Step::Continue);
    assert_eq!(s.selected_index, 4);
    assert_eq!(app.handle_input(&mut s, InputEvent::Down), Step::Continue);
    assert_eq!(s.selected_index, 0);
    app.handle_input(&mut s, InputEvent::Down);
    assert_eq!(s.selected_action_id(), Some(MenuActionId::ViewStatus));
}

#[test]
fn toggling_asks_for_confirmation_and_cancel_goes_back() {
    let app = SentinelApp::new(paths());
    let mut s = session(&[]);
    assert_eq!(app.handle_input(&mut s, InputEvent::Confirm), Step::Continue);
    assert_eq!(s.route, Route::Confirm(ConfirmationAction::EnableProtection));
    assert_eq!(
        app.progress_label_for_input(&s, &InputEvent::Confirm).as_deref(),
        Some("Activando Sentinel y preparando snapshot recuperable...")
    );
    assert_eq!(app.handle_input(&mut s, InputEvent::Confirm), Step::Perform(Effect::EnableProtection));
    assert_eq!(app.handle_input(&mut s, InputEvent::Back), Step::Continue);
    assert_eq!(s.route, Route::Home);
    assert_eq!(s.last_message, "La accion sensible fue cancelada antes de cambiar la red.");
}

#[test]
fn views_that_read_stores_are_effects() {
    let app = SentinelApp::new(paths());
    let mut s = session(&[]);
    assert_eq!(app.execute_action(&mut s, MenuActionId::ViewStatus), Step::Perform(Effect::RefreshStatus));
    assert_eq!(app.execute_action(&mut s, MenuActionId::OpenSettings), Step::Perform(Effect::OpenSettings));
    app.show_settings(&mut s);
    assert_eq!(s.route, Route::Settings);
    assert_eq!(app.handle_input(&mut s, InputEvent::Exit), Step::Exit);
    assert_eq!(s.route, Route::Exit);
    assert_eq!(s.last_message, "");
}

#[test]
fn editing_domains_goes_through_the_editor() {
    let app = SentinelApp::new(paths());
    let mut s = session(&["a.com", "b.com"]);
    s.route = Route::BlockedDomains;
    app.execute_action(&mut s, MenuActionId::SelectNextBlockedDomain);
    assert_eq!(s.selected_domain_index, 1);
    assert_eq!(s.last_message, "Dominio seleccionado: b.com");
    app.execute_action(&mut s, MenuActionId::EditBlockedDomain);
    assert_eq!(s.route, Route::BlockedDomainEditor(DomainEditorMode::Edit));
    assert_eq!(s.domain_input, "b.com");
    app.handle_input(&mut s, InputEvent::Backspace);
    app.handle_input(&mut s, InputEvent::InsertChar('x'));
    assert_eq!(s.domain_input, "b.cox");
    assert_eq!(
        app.handle_input(&mut s, InputEvent::Confirm),
        Step::Perform(Effect::PersistDomainEditor(DomainEditorMode::Edit))
    );
    assert_eq!(
        app.domain_write_request(&mut s, DomainEditorMode::Edit),
        Some(DomainWrite::Update { original: "b.com".to_string(), replacement: "b.cox".to_string() })
    );
    let bundle = BlocklistBundle::parse("a.com\nb.cox\n", Timestamp { secs: 0, nanos: 0 }, "t".to_string()).unwrap();
    app.finish_domain_saved(&mut s, vec!["a.com".to_string(), "b.cox".to_string()], true, "B.COX", &bundle).unwrap();
    assert_eq!(s.route, Route::BlockedDomains);
    assert_eq!(s.selected_domain_index, 1);
    assert_eq!(s.domain_input, "");
    assert_eq!(s.domain_original, None);
    assert_eq!(s.runtime_state.blocklist_domain_count, 2);
}

#[test]
fn deleting_asks_the_caller_to_remove_the_selected_domain() {
    let app = SentinelApp::new(paths());
    let mut s = session(&["a.com"]);
    s.route = Route::BlockedDomains;
    assert_eq!(
        app.execute_action(&mut s, MenuActionId::DeleteBlockedDomain),
        Step::Perform(Effect::DeleteBlockedDomain("a.com".to_string()))
    );
    let mut empty = session(&[]);
    empty.route = Route::BlockedDomains;
    assert_eq!(app.execute_action(&mut empty, MenuActionId::DeleteBlockedDomain), Step::Continue);
    assert_eq!(empty.last_message, "No hay un dominio seleccionado para eliminar.");
}

#[test]
fn enable_results_follow_the_mode() {
    let app = SentinelApp::new(paths());
    let mut s = session(&[]);
    s.runtime_state.mode = ProtectionMode::Active;
    app.show_enable_result(&mut s);
    let result = s.last_result.clone().unwrap();
    assert_eq!(result.title, "Sentinel activado");
    assert_eq!(result.tone, ResultTone::Success);
    assert_eq!(s.route, Route::Result);
    let mut degraded = session(&[]);
    degraded.runtime_state.mode = ProtectionMode::Degraded;
    degraded.runtime_state.last_message = Some("algo fallo".to_string());
    app.show_enable_result(&mut degraded);
    let result = degraded.last_result.clone().unwrap();
    assert_eq!(result.title, "Activacion con advertencias");
    assert_eq!(result.summary, "algo fallo");
    assert_eq!(result.tone, ResultTone::Warning);
}

#[test]
fn scripts_are_read_token_by_token() {
    assert_eq!(
        parse_script("abajo, enter ,, q").unwrap(),
        vec![InputEvent::Down, InputEvent::Confirm, InputEvent::Exit]
    );
    assert_eq!(parse_script("saltar").unwrap_err(), "token de entrada no soportado: saltar");
}

#[test]
fn installation_state_reports_what_was_found() {
    let none = installation_state(None, None, "r".to_string());
    assert!(!none.installed);
    assert_eq!(none.action, InstallAction::Install);
    assert_eq!(none.target_version, "0.1.1");
    let broken = installation_state(Some("/usr/local/bin/sentinel".to_string()), None, "r".to_string());
    assert_eq!(broken.action, InstallAction::Reinstall);
    let same = installation_state(Some("/usr/local/bin/sentinel".to_string()), Some("0.1.1".to_string()), "r".to_string());
    assert!(same.installed);
    assert_eq!(same.action, InstallAction::NoAction);
    assert_eq!(InstallAction::NoAction.label(), "None");
    let older = installation_state(Some("/x/sentinel".to_string()), Some("0.1.0".to_string()), "r".to_string());
    assert_eq!(older.action, InstallAction::Update);
}

#[test]
fn the_home_view_shows_badges_the_overview_and_every_description() {
    let s = session(&[]);
    let plain = StyleProfile { color: false, unicode: false };
    let text = render_home(&s, 100, plain, "SENTINEL", "Activa la proteccion");
    let lines: Vec<&str> = text.split('\n').collect();
    assert_eq!(lines[0], "SENTINEL");
    assert!(lines[1].starts_with("Version "));
    assert_eq!(lines[2], "");
    assert_eq!(lines[3], "* Inicio");
    assert_eq!(lines[6], "- Proteccion: Inactiva  + Riesgo: Normal");
    assert!(text.contains("Activa la proteccion"));
    assert!(text.contains("* Acciones principales"));
    let after_menu = text.split("* Acciones principales\n").nth(1).unwrap();
    assert!(after_menu.lines().count() > 5);
}

#[test]
fn the_files_live_under_the_root() {
    let p = AppPaths::under_root("/home/u/sentinel");
    assert_eq!(p.state_dir, "/home/u/sentinel/state");
    assert_eq!(p.snapshots_dir, "/home/u/sentinel/state/snapshots");
    assert_eq!(p.blocklist_file, "/home/u/sentinel/blocklist.txt");
    assert_eq!(p.config_file, "/home/u/sentinel/config/config.toml");
    assert_eq!(p.state_file, "/home/u/sentinel/state/state.json");
    assert_eq!(p.events_file, "/home/u/sentinel/state/events.jsonl");
    assert_eq!(p.install_file, "/home/u/sentinel/data/install.json");
    assert_eq!(AppPaths::under_root("/r/").config_file, "/r/config/config.toml");
}

#[test]
fn each_route_renders_its_own_view() {
    let plain = StyleProfile { color: false, unicode: false };
    let mut s = session(&["a.com", "b.com"]);
    let home = render_view(&s, 100, plain, "SENTINEL");
    assert!(home.starts_with("SENTINEL\n"));
    s.route = Route::Settings;
    let settings = render_view(&s, 100, plain, "SENTINEL");
    assert!(settings.contains("| Dominios vigentes | 2"));
    s.route = Route::BlockedDomains;
    assert!(render_view(&s, 100, plain, "SENTINEL").contains("a.com"));
    s.route = Route::Logs(sentinel::cli::navigation::LogScope::Status);
    assert!(render_view(&s, 100, plain, "SENTINEL").contains("Todavia no hay eventos registrados."));
    s.route = Route::Exit;
    assert!(render_view(&s, 100, plain, "SENTINEL").starts_with("* Salida\n"));
}
