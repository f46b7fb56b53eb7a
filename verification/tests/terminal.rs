use sentinel::cli::terminal::{input_for_key, normalize_for_raw_terminal, KeyPress, TerminalCapabilities, TerminalKey};
use sentinel::cli::InputEvent;

#[test]
fn normalizes_newlines_for_raw_terminal_output() {
    assert_eq!(normalize_for_raw_terminal("uno\ndos\n"), "uno\r\ndos\r\n");
    assert_eq!(normalize_for_raw_terminal("uno"), "uno\r\n");
    assert_eq!(normalize_for_raw_terminal("uno\r\ndos"), "uno\r\ndos\r\n");
}

#[test]
fn terminal_capabilities_struct_is_copyable() {
    let capabilities = TerminalCapabilities { color: true, unicode: true };
    assert!(capabilities.color);
    assert!(capabilities.unicode);
}

#[test]
fn every_line_break_becomes_crlf() {
    let out = normalize_for_raw_terminal("a\nb\r\n\nc");
    assert_eq!(out, "a\r\nb\r\n\r\nc\r\n");
    let chars: Vec<char> = out.chars().collect();
    for (i, c) in chars.iter().enumerate() {
        if *c == '\n' {
            assert!(i > 0 && chars[i - 1] == '\r');
        }
    }
}

#[test]
fn empty_text_gets_one_line_end() {
    assert_eq!(normalize_for_raw_terminal(""), "\r\n");
    assert_eq!(normalize_for_raw_terminal("\r\n"), "\r\n");
}

fn press(key: TerminalKey, control: bool) -> KeyPress {
    KeyPress { key, control, down: true }
}

#[test]
fn keys_map_to_session_inputs() {
    assert_eq!(input_for_key(press(TerminalKey::Up, false)), Some(InputEvent::Up));
    assert_eq!(input_for_key(press(TerminalKey::Down, false)), Some(InputEvent::Down));
    assert_eq!(input_for_key(press(TerminalKey::Enter, false)), Some(InputEvent::Confirm));
    assert_eq!(input_for_key(press(TerminalKey::Backspace, false)), Some(InputEvent::Backspace));
    assert_eq!(input_for_key(press(TerminalKey::Esc, false)), Some(InputEvent::Back));
    assert_eq!(input_for_key(press(TerminalKey::Char('Q'), false)), Some(InputEvent::Exit));
    assert_eq!(input_for_key(press(TerminalKey::Char('q'), true)), Some(InputEvent::Exit));
    assert_eq!(input_for_key(press(TerminalKey::Char('a'), false)), Some(InputEvent::InsertChar('a')));
    assert_eq!(input_for_key(press(TerminalKey::Char('c'), true)), None);
    assert_eq!(input_for_key(press(TerminalKey::Other, false)), None);
    assert_eq!(input_for_key(KeyPress { key: TerminalKey::Up, control: false, down: false }), None);
}
