use sentinel::cli::output::{
    render_blocked_domains_table, render_domain_editor, render_log_panel, render_settings_summary, render_table,
    sanitize_event_message, truncate, wrap_text, join_or_dash,
};
use sentinel::cli::styles::StyleProfile;
use sentinel::clock::Timestamp;
use sentinel::storage::events::{EventKind, EventRecord, Severity};

const PLAIN: StyleProfile = StyleProfile { color: false, unicode: false };

fn row(label: &str, value: &str, lw: usize, rw: usize) -> String {
    format!("| {:lw$} | {:rw$} |", label, value, lw = lw, rw = rw)
}

#[test]
fn tables_fit_the_terminal_width() {
    let rows = vec![("a".to_string(), "b".to_string())];
    let table = render_table("Campo", "Valor", &rows, 100, PLAIN);
    let border = format!("+{}+{}+", "-".repeat(14), "-".repeat(75));
    let expected = [border.clone(), row("Campo", "Valor", 12, 73), border.clone(), row("a", "b", 12, 73), border].join("\n");
    assert_eq!(table, expected);
    for line in table.lines() {
        assert_eq!(line.chars().count(), 92);
    }
}

#[test]
fn narrow_terminals_get_the_minimum_width() {
    let rows = vec![("Dominios vigentes".to_string(), "3".to_string())];
    let table = render_table("Campo", "Valor", &rows, 20, PLAIN);
    for line in table.lines() {
        assert_eq!(line.chars().count(), 48);
    }
}

#[test]
fn long_cells_are_cut_with_an_ellipsis() {
    assert_eq!(truncate("abcdef", 4), "abc…");
    assert_eq!(truncate("abc", 2), "a.");
    assert_eq!(truncate("abc", 1), "...");
    assert_eq!(truncate("abc", 3), "abc");
}

#[test]
fn wraps_words_greedily() {
    assert_eq!(wrap_text("uno dos tres cuatro", 12), vec!["uno dos tres".to_string(), "cuatro".to_string()]);
    assert_eq!(wrap_text("corto", 5), vec!["corto".to_string()]);
    assert_eq!(wrap_text("", 40), vec![String::new()]);
    assert_eq!(wrap_text("   ", 40), Vec::<String>::new());
}

#[test]
fn lists_join_or_show_a_dash() {
    assert_eq!(join_or_dash(&Vec::new()), "-");
    assert_eq!(join_or_dash(&vec!["Wi-Fi".to_string(), "VPN".to_string()]), "Wi-Fi, VPN");
}

#[test]
fn settings_and_editor_tables() {
    let settings = render_settings_summary(7, 100, PLAIN);
    assert!(settings.contains("| Dominios vigentes | 7"));
    assert!(settings.contains("Administracion del bloqueo"));
    let editor = render_domain_editor("", "ayuda".to_string(), 100, PLAIN);
    assert!(editor.contains("| Valor actual "));
    assert!(editor.contains("| -  "));
}

#[test]
fn blocked_domains_table_marks_the_selection() {
    let domains: Vec<String> = (0..12).map(|i| format!("d{i:02}.com")).collect();
    let table = render_blocked_domains_table(&domains, 10, 100, PLAIN);
    assert!(table.contains("| › "));
    assert!(table.contains("d10.com"));
    assert!(table.contains("d03.com"));
    assert!(!table.contains("d02.com"));
    assert!(table.contains("Dominio seleccionado: d10.com"));
    let empty = render_blocked_domains_table(&Vec::new(), 0, 100, PLAIN);
    assert!(empty.contains("No hay dominios bloqueados configurados todavia."));
    let colored = render_blocked_domains_table(&domains, 0, 100, StyleProfile { color: true, unicode: false });
    assert!(colored.contains("\u{1b}[1;34md00.com\u{1b}[0m"));
}

#[test]
fn log_panels_frame_and_wrap() {
    let panel = render_log_panel(&vec!["hola".to_string(), String::new()], 40, PLAIN);
    let lines: Vec<&str> = panel.lines().collect();
    assert_eq!(lines.len(), 4);
    assert_eq!(lines[0], format!("+{}+", "-".repeat(42)));
    assert_eq!(lines[1], format!("| {:40} |", "hola"));
    assert_eq!(lines[2], format!("| {:40} |", ""));
}

#[test]
fn event_messages_drop_the_next_step_note_and_generic_verdicts() {
    let mut event = EventRecord {
        id: "x".to_string(),
        timestamp: Timestamp { secs: 0, nanos: 0 },
        kind: EventKind::Error,
        severity: Severity::Error,
        blocked_domain: None,
        message: "  Fallo el cambio | Siguiente paso: recuperar  ".to_string(),
    };
    assert_eq!(sanitize_event_message(&event), "Fallo el cambio");
    event.kind = EventKind::SafetyCheck;
    event.message = "Los chequeos aprobaron. Puedes activar la proteccion de forma segura.".to_string();
    assert_eq!(sanitize_event_message(&event), "");
    event.message = "   ".to_string();
    assert_eq!(sanitize_event_message(&event), "");
}

#[test]
fn the_settings_table_has_seven_lines_of_the_table_width() {
    for (width, expected) in [(20usize, 48usize), (70, 66), (200, 92)] {
        let text = render_settings_summary(12345, width, PLAIN);
        let lines: Vec<&str> = text.split('\n').collect();
        assert_eq!(lines.len(), 7);
        assert!(lines.iter().all(|l| l.chars().count() == expected));
        assert_eq!(&lines[4][22..27], "12345");
        let colored = render_settings_summary(12345, width, StyleProfile { color: true, unicode: false });
        assert_eq!(colored, text);
    }
}
