use sentinel::blocking::blocklist::BlocklistBundle;
use sentinel::clock::Timestamp;
use sentinel::storage::install::installation_state;
use sentinel::storage::state::{ProtectionMode, RuntimeState};
use sentinel::tui::app_state::{ActionId, ConfirmationAction, InteractiveSession, Screen};
use sentinel::tui::input::{parse_script, translate_key, InputEvent, Key};
use sentinel::tui::screens::{render_snapshot, screen_lines, screen_title};

fn session() -> InteractiveSession {
    let bundle = BlocklistBundle::parse("a.com\nb.com\n", Timestamp { secs: 0, nanos: 0 }, "t".to_string()).unwrap();
    let mut state = RuntimeState::initial();
    state.last_message = None;
    InteractiveSession::from_runtime_state(state, installation_state(None, None, "r".to_string()), &bundle)
}

#[test]
fn the_menu_wraps_around() {
    let mut s = session();
    assert_eq!(s.last_message, "Sentinel is ready.");
    assert_eq!(s.selected_action_id(), ActionId::RunSafetyChecks);
    s.select_previous();
    assert_eq!(s.selected_action, 5);
    assert_eq!(s.selected_action_id(), ActionId::Exit);
    s.select_next();
    assert_eq!(s.selected_action, 0);
    assert_eq!(s.toggle_confirmation_action(), ConfirmationAction::EnableProtection);
    s.runtime_state.mode = ProtectionMode::Active;
    assert_eq!(s.actions()[1].label, "Disable protection");
    assert_eq!(s.toggle_confirmation_action(), ConfirmationAction::DisableProtection);
}

#[test]
fn keys_and_tokens() {
    assert_eq!(translate_key(Key::Char('k')), Some(InputEvent::Up));
    assert_eq!(translate_key(Key::Backspace), Some(InputEvent::Back));
    assert_eq!(translate_key(Key::Char('y')), Some(InputEvent::Confirm));
    assert_eq!(translate_key(Key::Char('x')), None);
    assert_eq!(parse_script("down, confirm, q").unwrap(), vec![InputEvent::Down, InputEvent::Confirm, InputEvent::Exit]);
    assert_eq!(parse_script("abajo").unwrap_err(), "unsupported scripted input token: abajo");
}

#[test]
fn snapshots_list_the_screen_and_the_menu() {
    let mut s = session();
    s.screen = Screen::Status;
    assert_eq!(screen_title(&s), "Status");
    assert_eq!(screen_lines(&s)[2], "Runtime PID: Not running");
    let text = render_snapshot(&s);
    assert!(text.starts_with("Sentinel\nProtection: Inactiva\nRisk: Normal\nBlocklist domains: 2\nScreen: Status\n"));
    assert!(text.ends_with("Actions:\n> Run safety checks\n  Enable protection\n  View status and health\n  View install state\n  Recover network\n  Exit Sentinel"));
}
