//! Tables and panels drawn with box characters (or ASCII), sized to the terminal.
use vstd::prelude::*;

use crate::cli::copy::{
    blocked_domain_selection, blocked_domains_empty_state, block_activity_empty_value,
    spec_blocked_domain_selection, spec_top_blocked_domains_label, top_blocked_domains_label,
};
use crate::cli::styles::{accent_blue, colored, StyleProfile};
use crate::clock::{format_utc, utc_text};
use crate::storage::events::{BlockActivitySummary, EventKind, EventRecord};
use crate::storage::install::InstallationState;
use crate::storage::state::RuntimeState;
use crate::text::{
    ascii_upper, chars_of, digit_char, split, concat, decimal, join, join_strings, owned, push_char, replace_all, replace_str,
    split_words, string_from_chars, to_ascii_upper, trim_ws, usize_to_string, views, words, occurs_at,
    trim_chars, chars_occur_at, str_eq,
};

verus! {

// ---------------------------------------------------------------- cells

/// `n` copies of `c`.
pub open spec fn repeated(c: char, n: nat) -> Seq<char> {
    Seq::new(n, |i: int| c)
}

/// `s` padded with spaces on the right to `w` characters (what `{:w$}` does to a string).
pub open spec fn padded(s: Seq<char>, w: nat) -> Seq<char> {
    if s.len() < w {
        s + repeated(' ', (w - s.len()) as nat)
    } else {
        s
    }
}

/// `value` cut to `width` characters: the first `width - 1` and an ellipsis (a `.` when
/// the width is 2); `...` when the width is at most 1.
pub open spec fn truncated(value: Seq<char>, width: nat) -> Seq<char> {
    if value.len() <= width {
        value
    } else if width <= 1 {
        "..."@
    } else {
        value.take(width - 1).push(if width > 2 { '…' } else { '.' })
    }
}

/// One row: `│ left │ right │`, each cell cut and padded to its width.
pub open spec fn table_row(left: Seq<char>, right: Seq<char>, lw: nat, rw: nat, vert: char) -> Seq<char> {
    seq![vert, ' '] + padded(truncated(left, lw), lw) + seq![' ', vert, ' '] + padded(truncated(right, rw), rw) + seq![' ', vert]
}

/// One border: the left edge, `lw + 2` rules, the middle joint, `rw + 2` rules, the right edge.
pub open spec fn table_border(left_edge: char, middle_edge: char, right_edge: char, horiz: char, lw: nat, rw: nat) -> Seq<char> {
    seq![left_edge] + repeated(horiz, lw + 2) + seq![middle_edge] + repeated(horiz, rw + 2) + seq![right_edge]
}

/// `n` copies of `c`, as a string.
pub fn repeat_char(c: char, n: usize) -> (r: String)
    ensures
        r@ == repeated(c, n as nat),
{
    let mut r = String::new();
    let mut i: usize = 0;
    while i < n
        invariant
            i <= n,
            r@ == repeated(c, i as nat),
        decreases n - i,
    {
        push_char(&mut r, c);
        i += 1;
        assert(r@ =~= repeated(c, i as nat));
    }
    r
}

/// `s` padded with spaces on the right to `w` characters.
pub fn pad(s: &str, w: usize) -> (r: String)
    ensures
        r@ == padded(s@, w as nat),
{
    let n = chars_of(s).len();
    if n < w {
        let fill = repeat_char(' ', w - n);
        concat(s, fill.as_str())
    } else {
        owned(s)
    }
}

/// `value` cut to `width` characters.
pub fn truncate(value: &str, width: usize) -> (r: String)
    ensures
        r@ == truncated(value@, width as nat),
{
    let v = chars_of(value);
    if v.len() <= width {
        return owned(value);
    }
    if width <= 1 {
        return owned("...");
    }
    let mut kept: Vec<char> = Vec::new();
    let mut i: usize = 0;
    while i < width - 1
        invariant
            width - 1 < v.len(),
            i <= width - 1,
            kept@ == v@.take(i as int),
        decreases width - 1 - i,
    {
        kept.push(v[i]);
        i += 1;
        assert(kept@ =~= v@.take(i as int));
    }
    kept.push(if width > 2 { '…' } else { '.' });
    string_from_chars(&kept)
}

/// One row of a table.
pub fn row(left: &str, right: &str, left_width: usize, right_width: usize, vert: char) -> (r: String)
    ensures
        r@ == table_row(left@, right@, left_width as nat, right_width as nat, vert),
{
    let l = pad(truncate(left, left_width).as_str(), left_width);
    let rt = pad(truncate(right, right_width).as_str(), right_width);
    let mut s = String::new();
    push_char(&mut s, vert);
    push_char(&mut s, ' ');
    s.append(l.as_str());
    push_char(&mut s, ' ');
    push_char(&mut s, vert);
    push_char(&mut s, ' ');
    s.append(rt.as_str());
    push_char(&mut s, ' ');
    push_char(&mut s, vert);
    assert(s@ =~= table_row(left@, right@, left_width as nat, right_width as nat, vert));
    s
}

/// One border of a table.
pub fn border(left_edge: char, middle_edge: char, right_edge: char, horiz: char, left_width: usize, right_width: usize) -> (r: String)
    requires
        left_width + 2 <= usize::MAX,
        right_width + 2 <= usize::MAX,
    ensures
        r@ == table_border(left_edge, middle_edge, right_edge, horiz, left_width as nat, right_width as nat),
{
    let mut s = String::new();
    push_char(&mut s, left_edge);
    s.append(repeat_char(horiz, left_width + 2).as_str());
    push_char(&mut s, middle_edge);
    s.append(repeat_char(horiz, right_width + 2).as_str());
    push_char(&mut s, right_edge);
    assert(s@ =~= table_border(left_edge, middle_edge, right_edge, horiz, left_width as nat, right_width as nat));
    s
}

// ---------------------------------------------------------------- tables

/// The box characters: corners and joints of the top, middle and bottom borders, the rule
/// and the column separator.
pub open spec fn glyphs(unicode: bool) -> Seq<char> {
    if unicode {
        seq!['┌', '┬', '┐', '├', '┼', '┤', '└', '┴', '┘', '─', '│']
    } else {
        seq!['+', '+', '+', '+', '+', '+', '+', '+', '+', '-', '|']
    }
}

pub open spec fn clamp(x: int, lo: int, hi: int) -> int {
    if x < lo {
        lo
    } else if x > hi {
        hi
    } else {
        x
    }
}

pub open spec fn saturating_sub(a: int, b: int) -> int {
    if a > b {
        a - b
    } else {
        0
    }
}

/// The longest of `lens`, or `base` when longer.
pub open spec fn longest(lens: Seq<nat>, base: nat) -> nat
    decreases lens.len(),
{
    if lens.len() == 0 {
        base
    } else {
        let rest = longest(lens.drop_last(), base);
        if lens.last() > rest {
            lens.last()
        } else {
            rest
        }
    }
}

pub open spec fn row_view(r: (String, String)) -> (Seq<char>, Seq<char>) {
    (r.0@, r.1@)
}

pub open spec fn rows_view(rows: Seq<(String, String)>) -> Seq<(Seq<char>, Seq<char>)> {
    rows.map_values(|r: (String, String)| row_view(r))
}

/// The width of the label column: the longest label (header included), kept between 12
/// and the smaller of 26 and the inner width less 16.
pub open spec fn left_column(rows: Seq<(Seq<char>, Seq<char>)>, left_header: Seq<char>, inner: int) -> int {
    let widest = longest(rows.map_values(|r: (Seq<char>, Seq<char>)| r.0.len()), left_header.len());
    clamp(widest as int, 12, if inner - 16 < 26 { inner - 16 } else { 26 })
}

/// The lines of a two-column table: the top border, the headers, a rule, one line per row
/// and the bottom border. The table is the terminal width less 4, kept between 48 and 92.
pub open spec fn table_lines(
    left_header: Seq<char>,
    right_header: Seq<char>,
    rows: Seq<(Seq<char>, Seq<char>)>,
    terminal_width: nat,
    unicode: bool,
) -> Seq<Seq<char>> {
    let width = clamp(saturating_sub(terminal_width as int, 4), 48, 92);
    let inner = width - 4;
    let lw = left_column(rows, left_header, inner);
    let rw = saturating_sub(inner, lw + 3);
    let g = glyphs(unicode);
    seq![
        table_border(g[0], g[1], g[2], g[9], lw as nat, rw as nat),
        table_row(left_header, right_header, lw as nat, rw as nat, g[10]),
        table_border(g[3], g[4], g[5], g[9], lw as nat, rw as nat),
    ] + rows.map_values(|r: (Seq<char>, Seq<char>)| table_row(r.0, r.1, lw as nat, rw as nat, g[10]))
        + seq![table_border(g[6], g[7], g[8], g[9], lw as nat, rw as nat)]
}

pub open spec fn spec_render_table(
    left_header: Seq<char>,
    right_header: Seq<char>,
    rows: Seq<(Seq<char>, Seq<char>)>,
    terminal_width: nat,
    unicode: bool,
) -> Seq<char> {
    join(table_lines(left_header, right_header, rows, terminal_width, unicode), "\n"@)
}

/// A two-column table of labelled values, sized to the terminal.
pub fn render_table(
    left_header: &str,
    right_header: &str,
    rows: &Vec<(String, String)>,
    terminal_width: usize,
    profile: StyleProfile,
) -> (r: String)
    ensures
        r@ == spec_render_table(left_header@, right_header@, rows_view(rows@), terminal_width as nat, profile.unicode),
{
    let ghost rv = rows_view(rows@);
    let w0: usize = if terminal_width > 4 { terminal_width - 4 } else { 0 };
    let width: usize = if w0 < 48 { 48 } else if w0 > 92 { 92 } else { w0 };
    let inner = width - 4;
    let mut widest = chars_of(left_header).len();
    let ghost lens = rv.map_values(|r: (Seq<char>, Seq<char>)| r.0.len());
    let mut i: usize = 0;
    while i < rows.len()
        invariant
            rv == rows_view(rows@),
            lens == rv.map_values(|r: (Seq<char>, Seq<char>)| r.0.len()),
            i <= rows.len(),
            widest == longest(lens.take(i as int), left_header@.len()),
        decreases rows.len() - i,
    {
        let n = chars_of(rows[i].0.as_str()).len();
        proof {
            assert(lens.take(i + 1).drop_last() =~= lens.take(i as int));
            assert(lens.take(i + 1).last() == rows@[i as int].0@.len());
        }
        if n > widest {
            widest = n;
        }
        i += 1;
    }
    proof {
        assert(lens.take(rows.len() as int) =~= lens);
    }
    let cap: usize = if inner - 16 < 26 { inner - 16 } else { 26 };
    let lw: usize = if widest < 12 { 12 } else if widest > cap { cap } else { widest };
    let rw: usize = if inner > lw + 3 { inner - (lw + 3) } else { 0 };
    let (tl, tm, tr, ml, mm, mr, bl, bm, br, h, v) = if profile.unicode {
        ('┌', '┬', '┐', '├', '┼', '┤', '└', '┴', '┘', '─', '│')
    } else {
        ('+', '+', '+', '+', '+', '+', '+', '+', '+', '-', '|')
    };
    let ghost lines = table_lines(left_header@, right_header@, rv, terminal_width as nat, profile.unicode);
    let mut out: Vec<String> = Vec::new();
    out.push(border(tl, tm, tr, h, lw, rw));
    out.push(row(left_header, right_header, lw, rw, v));
    out.push(border(ml, mm, mr, h, lw, rw));
    let mut k: usize = 0;
    while k < rows.len()
        invariant
            rv == rows_view(rows@),
            k <= rows.len(),
            out@.len() == 3 + k,
            lines == table_lines(left_header@, right_header@, rv, terminal_width as nat, profile.unicode),
            forall|j: int| 0 <= j < 3 + k ==> #[trigger] out@[j]@ == lines[j],
            lw as int == left_column(rv, left_header@, inner as int),
            rw as int == saturating_sub(inner as int, lw + 3),
            inner as int == clamp(saturating_sub(terminal_width as int, 4), 48, 92) - 4,
            v == glyphs(profile.unicode)[10],
        decreases rows.len() - k,
    {
        out.push(row(rows[k].0.as_str(), rows[k].1.as_str(), lw, rw, v));
        proof {
            assert(lines[3 + k] == table_row(rv[k as int].0, rv[k as int].1, lw as nat, rw as nat, v));
        }
        k += 1;
    }
    out.push(border(bl, bm, br, h, lw, rw));
    proof {
        assert(views(out@) =~= lines);
    }
    join_strings(out.as_slice(), "\n")
}

// ---------------------------------------------------------------- lists

/// The items joined by `, `, or `-` when there are none.
pub open spec fn spec_join_or_dash(items: Seq<Seq<char>>) -> Seq<char> {
    if items.len() == 0 {
        "-"@
    } else {
        join(items, ", "@)
    }
}

pub fn join_or_dash(items: &Vec<String>) -> (r: String)
    ensures
        r@ == spec_join_or_dash(views(items@)),
{
    if items.len() == 0 {
        owned("-")
    } else {
        join_strings(items.as_slice(), ", ")
    }
}


// ---------------------------------------------------------------- the tables of each view

pub open spec fn or_default(o: Option<String>, default: Seq<char>) -> Seq<char> {
    match o {
        Some(v) => v@,
        None => default,
    }
}

pub open spec fn yes_no(b: bool) -> Seq<char> {
    if b {
        "Si"@
    } else {
        "No"@
    }
}

fn yes_no_text(b: bool) -> (r: String)
    ensures
        r@ == yes_no(b),
{
    if b {
        owned("Si")
    } else {
        owned("No")
    }
}

fn text_or(o: &Option<String>, default: &str) -> (r: String)
    ensures
        r@ == or_default(*o, default@),
{
    match o {
        Some(v) => v.clone(),
        None => owned(default),
    }
}

fn labelled(label: &str, value: String) -> (r: (String, String))
    ensures
        row_view(r) == (label@, value@),
{
    (owned(label), value)
}

pub open spec fn summary_rows(runtime: RuntimeState, next_action: Seq<char>, compact: bool) -> Seq<(Seq<char>, Seq<char>)> {
    seq![
        ("Proteccion"@, runtime.mode.spec_label()),
        ("Riesgo"@, runtime.risk_level.spec_label()),
        ("Snapshot activo"@, or_default(runtime.snapshot_id, "-"@)),
        ("Siguiente accion"@, next_action),
    ] + if compact {
        Seq::empty()
    } else {
        seq![
            ("Dominios bloqueados"@, decimal(runtime.blocklist_domain_count as nat)),
            ("Version del bloqueador"@, runtime.blocklist_version@),
        ]
    }
}

/// The overview table: protection, risk, snapshot and the next action; the bundle too
/// unless compact.
pub fn render_summary_table(
    runtime: &RuntimeState,
    next_action: &str,
    terminal_width: usize,
    compact: bool,
    profile: StyleProfile,
) -> (r: String)
    ensures
        r@ == spec_render_table("Campo"@, "Valor"@, summary_rows(*runtime, next_action@, compact), terminal_width as nat, profile.unicode),
{
    let mut rows: Vec<(String, String)> = Vec::new();
    rows.push(labelled("Proteccion", owned(runtime.mode.label())));
    rows.push(labelled("Riesgo", owned(runtime.risk_level.label())));
    rows.push(labelled("Snapshot activo", text_or(&runtime.snapshot_id, "-")));
    rows.push(labelled("Siguiente accion", owned(next_action)));
    if !compact {
        rows.push(labelled("Dominios bloqueados", usize_to_string(runtime.blocklist_domain_count)));
        rows.push(labelled("Version del bloqueador", runtime.blocklist_version.clone()));
    }
    assert(rows_view(rows@) =~= summary_rows(*runtime, next_action@, compact));
    render_table("Campo", "Valor", &rows, terminal_width, profile)
}

pub open spec fn status_rows(runtime: RuntimeState, install: InstallationState, compact: bool) -> Seq<(Seq<char>, Seq<char>)> {
    seq![
        ("Proteccion"@, runtime.mode.spec_label()),
        ("Runtime local"@, match runtime.runtime_pid {
            Some(pid) => decimal(pid as nat),
            None => "No activo"@,
        }),
        ("Snapshot activo"@, or_default(runtime.snapshot_id, "-"@)),
        ("Ruta instalada"@, or_default(install.path_entry, "No disponible"@)),
    ] + match runtime.last_verification_result {
        Some(v) => seq![("Verificacion"@, v.summary@)],
        None => Seq::empty(),
    } + if compact {
        Seq::empty()
    } else {
        seq![("Version instalada"@, or_default(install.installed_version, "No detectada"@))]
    }
}

/// The status view: the state table, a blank line and the blocking activity table.
pub fn render_status_table(
    runtime: &RuntimeState,
    install: &InstallationState,
    activity: &BlockActivitySummary,
    terminal_width: usize,
    compact: bool,
    profile: StyleProfile,
) -> (r: String)
    requires
        activity.last_blocked_at matches Some(t) ==> t.wf(),
    ensures
        r@ == spec_render_table("Estado"@, "Valor"@, status_rows(*runtime, *install, compact), terminal_width as nat, profile.unicode)
            + "
"@ + "
"@ + spec_render_table("Actividad de bloqueo"@, "Valor"@, activity_rows(*activity), terminal_width as nat, profile.unicode),
{
    let mut rows: Vec<(String, String)> = Vec::new();
    rows.push(labelled("Proteccion", owned(runtime.mode.label())));
    let pid = match runtime.runtime_pid {
        Some(pid) => usize_to_string(pid as usize),
        None => owned("No activo"),
    };
    rows.push(labelled("Runtime local", pid));
    rows.push(labelled("Snapshot activo", text_or(&runtime.snapshot_id, "-")));
    rows.push(labelled("Ruta instalada", text_or(&install.path_entry, "No disponible")));
    match &runtime.last_verification_result {
        Some(v) => rows.push(labelled("Verificacion", v.summary.clone())),
        None => {},
    }
    if !compact {
        rows.push(labelled("Version instalada", text_or(&install.installed_version, "No detectada")));
    }
    assert(rows_view(rows@) =~= status_rows(*runtime, *install, compact));
    let table = render_table("Estado", "Valor", &rows, terminal_width, profile);
    let activity_table = render_block_activity_table(activity, terminal_width, profile);
    let mut s = table;
    s.append("\n");
    s.append("\n");
    s.append(activity_table.as_str());
    s
}

pub open spec fn safety_rows(runtime: RuntimeState, compact: bool) -> Seq<(Seq<char>, Seq<char>)> {
    match runtime.last_safety_check {
        Some(summary) => seq![
            ("Estado"@, summary.status.spec_label()),
            ("Conectividad lista"@, yes_no(summary.connectivity_ready)),
            ("Recuperacion lista"@, yes_no(summary.recovery_ready)),
            ("DNS personalizados"@, yes_no(summary.detected_custom_dns)),
        ] + if compact {
            Seq::empty()
        } else {
            seq![("Accion sugerida"@, summary.recommended_action@)]
        },
        None => seq![
            ("Estado"@, "Pendiente"@),
            ("Accion sugerida"@, "Activa Sentinel; la validacion de seguridad se ejecuta automaticamente."@),
        ],
    }
}

/// The safety view: the last check's verdict, or that none ran yet.
pub fn render_safety_table(runtime: &RuntimeState, terminal_width: usize, compact: bool, profile: StyleProfile) -> (r: String)
    ensures
        r@ == spec_render_table("Chequeo"@, "Resultado"@, safety_rows(*runtime, compact), terminal_width as nat, profile.unicode),
{
    let mut rows: Vec<(String, String)> = Vec::new();
    match &runtime.last_safety_check {
        Some(summary) => {
            rows.push(labelled("Estado", owned(summary.status.label())));
            rows.push(labelled("Conectividad lista", yes_no_text(summary.connectivity_ready)));
            rows.push(labelled("Recuperacion lista", yes_no_text(summary.recovery_ready)));
            rows.push(labelled("DNS personalizados", yes_no_text(summary.detected_custom_dns)));
            if !compact {
                rows.push(labelled("Accion sugerida", summary.recommended_action.clone()));
            }
        },
        None => {
            rows.push(labelled("Estado", owned("Pendiente")));
            rows.push(
                labelled(
                    "Accion sugerida",
                    owned("Activa Sentinel; la validacion de seguridad se ejecuta automaticamente."),
                ),
            );
        },
    }
    assert(rows_view(rows@) =~= safety_rows(*runtime, compact));
    render_table("Chequeo", "Resultado", &rows, terminal_width, profile)
}

pub open spec fn recovery_rows(runtime: RuntimeState, compact: bool) -> Seq<(Seq<char>, Seq<char>)> {
    seq![
        ("Modo actual"@, runtime.mode.spec_label()),
        ("Snapshot"@, or_default(runtime.snapshot_id, "-"@)),
    ] + match runtime.last_verification_result {
        Some(v) => seq![("Coincide con snapshot"@, yes_no(v.matches_snapshot))] + (if compact {
            Seq::empty()
        } else {
            seq![("Servicios con diferencia"@, spec_join_or_dash(views(v.mismatched_services@)))]
        }) + seq![("Resumen"@, v.summary@)],
        None => seq![("Resumen"@, runtime.status_summary@)],
    }
}

/// The recovery view: the mode, the snapshot and what the last verification found.
pub fn render_recovery_table(runtime: &RuntimeState, terminal_width: usize, compact: bool, profile: StyleProfile) -> (r: String)
    ensures
        r@ == spec_render_table("Recuperacion"@, "Valor"@, recovery_rows(*runtime, compact), terminal_width as nat, profile.unicode),
{
    let mut rows: Vec<(String, String)> = Vec::new();
    rows.push(labelled("Modo actual", owned(runtime.mode.label())));
    rows.push(labelled("Snapshot", text_or(&runtime.snapshot_id, "-")));
    match &runtime.last_verification_result {
        Some(v) => {
            rows.push(labelled("Coincide con snapshot", yes_no_text(v.matches_snapshot)));
            if !compact {
                rows.push(labelled("Servicios con diferencia", join_or_dash(&v.mismatched_services)));
            }
            rows.push(labelled("Resumen", v.summary.clone()));
        },
        None => {
            rows.push(labelled("Resumen", runtime.status_summary.clone()));
        },
    }
    assert(rows_view(rows@) =~= recovery_rows(*runtime, compact));
    render_table("Recuperacion", "Valor", &rows, terminal_width, profile)
}

pub open spec fn settings_rows(count: usize) -> Seq<(Seq<char>, Seq<char>)> {
    seq![
        ("Seccion"@, "Administracion del bloqueo"@),
        ("Dominios vigentes"@, decimal(count as nat)),
        ("Siguiente paso"@, "Entra a Dominios bloqueados para revisar o modificar la lista actual."@),
    ]
}

/// The settings view: the section, how many domains are blocked and where to go next.
pub fn render_settings_summary(blocked_domain_count: usize, terminal_width: usize, profile: StyleProfile) -> (r: String)
    ensures
        r@ == spec_render_table("Campo"@, "Valor"@, settings_rows(blocked_domain_count), terminal_width as nat, profile.unicode),
{
    let mut rows: Vec<(String, String)> = Vec::new();
    rows.push(labelled("Seccion", owned("Administracion del bloqueo")));
    rows.push(labelled("Dominios vigentes", usize_to_string(blocked_domain_count)));
    rows.push(labelled("Siguiente paso", owned("Entra a Dominios bloqueados para revisar o modificar la lista actual.")));
    assert(rows_view(rows@) =~= settings_rows(blocked_domain_count));
    render_table("Campo", "Valor", &rows, terminal_width, profile)
}

pub open spec fn editor_rows(current_value: Seq<char>, hint: Seq<char>) -> Seq<(Seq<char>, Seq<char>)> {
    seq![
        ("Valor actual"@, if current_value.len() == 0 { "-"@ } else { current_value }),
        ("Ayuda"@, hint),
    ]
}

/// The domain editor: the value being edited (`-` when empty) and a hint.
pub fn render_domain_editor(current_value: &str, hint: String, terminal_width: usize, profile: StyleProfile) -> (r: String)
    ensures
        r@ == spec_render_table("Campo"@, "Valor"@, editor_rows(current_value@, hint@), terminal_width as nat, profile.unicode),
{
    let value = if chars_of(current_value).len() == 0 {
        owned("-")
    } else {
        owned(current_value)
    };
    let ghost h = hint@;
    let mut rows: Vec<(String, String)> = Vec::new();
    rows.push(labelled("Valor actual", value));
    rows.push(labelled("Ayuda", hint));
    assert(rows_view(rows@) =~= editor_rows(current_value@, h));
    render_table("Campo", "Valor", &rows, terminal_width, profile)
}

pub open spec fn activity_rows(a: BlockActivitySummary) -> Seq<(Seq<char>, Seq<char>)> {
    seq![
        ("Bloqueos desde la activacion"@, decimal(a.blocked_since_activation as nat)),
        ("Dominios unicos bloqueados"@, decimal(a.unique_blocked_domains as nat)),
        ("Ultimo bloqueo"@, match a.last_blocked_at {
            Some(t) => utc_text(t.secs, t.nanos),
            None => "Sin datos"@,
        }),
        ("Top dominios bloqueados"@, spec_top_blocked_domains_label(a.top_blocked_domains@)),
    ]
}

/// The blocking activity since the last activation.
pub fn render_block_activity_table(activity: &BlockActivitySummary, terminal_width: usize, profile: StyleProfile) -> (r: String)
    requires
        activity.last_blocked_at matches Some(t) ==> t.wf(),
    ensures
        r@ == spec_render_table("Actividad de bloqueo"@, "Valor"@, activity_rows(*activity), terminal_width as nat, profile.unicode),
{
    let mut rows: Vec<(String, String)> = Vec::new();
    rows.push(labelled("Bloqueos desde la activacion", usize_to_string(activity.blocked_since_activation)));
    rows.push(labelled("Dominios unicos bloqueados", usize_to_string(activity.unique_blocked_domains)));
    let last = match activity.last_blocked_at {
        Some(t) => format_utc(t),
        None => owned(block_activity_empty_value()),
    };
    rows.push(labelled("Ultimo bloqueo", last));
    rows.push(labelled("Top dominios bloqueados", top_blocked_domains_label(activity)));
    assert(rows_view(rows@) =~= activity_rows(*activity));
    render_table("Actividad de bloqueo", "Valor", &rows, terminal_width, profile)
}


// ---------------------------------------------------------------- the blocked domains

/// `table` with every occurrence of the selected domain shown in the accent colour, when
/// colour is on and a domain is selected.
pub open spec fn spec_colorize_selected(table: Seq<char>, selected: Option<Seq<char>>, profile: StyleProfile) -> Seq<char> {
    if !profile.color {
        table
    } else {
        match selected {
            Some(d) => replace_all(table, d, colored(d, "1;34"@, profile)),
            None => table,
        }
    }
}

pub fn colorize_selected_domain(table: String, selected_domain: Option<&str>, profile: StyleProfile) -> (r: String)
    ensures
        r@ == spec_colorize_selected(table@, match selected_domain { Some(d) => Some(d@), None => None }, profile),
{
    if !profile.color {
        return table;
    }
    match selected_domain {
        Some(domain) => {
            let accent = accent_blue(domain, profile);
            replace_str(table.as_str(), domain, accent.as_str())
        },
        None => table,
    }
}

/// How many domains the table shows at once.
pub open spec fn domain_window() -> int {
    8
}

/// The selected position, kept inside the list.
pub open spec fn clamped_selection(selected: int, len: int) -> int {
    if selected < len - 1 { selected } else { len - 1 }
}

/// The first shown position: the window ends at the selection once it passes the first page.
pub open spec fn window_start(selected: int) -> int {
    saturating_sub(selected, domain_window() - 1)
}

pub open spec fn window_end(start: int, len: int) -> int {
    if start + domain_window() < len { start + domain_window() } else { len }
}

pub open spec fn blocked_rows(domains: Seq<Seq<char>>, selected_index: int) -> Seq<(Seq<char>, Seq<char>)> {
    let sel = clamped_selection(selected_index, domains.len() as int);
    let start = window_start(sel);
    let end = window_end(start, domains.len() as int);
    Seq::new((end - start) as nat, |k: int| (if start + k == sel { "›"@ } else { " "@ }, domains[start + k]))
        + seq![("Seleccion"@, spec_blocked_domain_selection(Some(domains[sel])))]
}

pub open spec fn spec_blocked_domains_table(
    domains: Seq<Seq<char>>,
    selected_index: int,
    terminal_width: nat,
    profile: StyleProfile,
) -> Seq<char> {
    if domains.len() == 0 {
        spec_render_table(
            "Campo"@,
            "Valor"@,
            seq![
                ("Estado"@, "No hay dominios bloqueados configurados todavia."@),
                ("Seleccion"@, spec_blocked_domain_selection(None)),
            ],
            terminal_width,
            profile.unicode,
        )
    } else {
        let sel = clamped_selection(selected_index, domains.len() as int);
        spec_colorize_selected(
            spec_render_table("Sel"@, "Dominio"@, blocked_rows(domains, selected_index), terminal_width, profile.unicode),
            Some(domains[sel]),
            profile,
        )
    }
}

/// A page of at most eight blocked domains around the selected one, marked, with the
/// selection named below; the selected domain is coloured when colour is on.
pub fn render_blocked_domains_table(
    domains: &Vec<String>,
    selected_index: usize,
    terminal_width: usize,
    profile: StyleProfile,
) -> (r: String)
    ensures
        r@ == spec_blocked_domains_table(views(domains@), selected_index as int, terminal_width as nat, profile),
{
    let ghost dv = views(domains@);
    if domains.len() == 0 {
        let mut rows: Vec<(String, String)> = Vec::new();
        let empty = owned(blocked_domains_empty_state());
        rows.push(labelled("Estado", empty));
        rows.push(labelled("Seleccion", blocked_domain_selection(None)));
        assert(rows_view(rows@) =~= seq![
            ("Estado"@, "No hay dominios bloqueados configurados todavia."@),
            ("Seleccion"@, spec_blocked_domain_selection(None)),
        ]);
        return render_table("Campo", "Valor", &rows, terminal_width, profile);
    }
    let last = domains.len() - 1;
    let sel = if selected_index < last { selected_index } else { last };
    let start = if sel > 7 { sel - 7 } else { 0 };
    let end = if start + 8 < domains.len() { start + 8 } else { domains.len() };
    let ghost expected = blocked_rows(dv, selected_index as int);
    let mut rows: Vec<(String, String)> = Vec::new();
    let mut k = start;
    while k < end
        invariant
            dv == views(domains@),
            start <= k <= end <= domains.len(),
            sel < domains.len(),
            sel as int == clamped_selection(selected_index as int, dv.len() as int),
            start as int == window_start(sel as int),
            end as int == window_end(start as int, dv.len() as int),
            expected == blocked_rows(dv, selected_index as int),
            rows@.len() == k - start,
            forall|j: int| 0 <= j < k - start ==> #[trigger] row_view(rows@[j]) == expected[j],
        decreases end - k,
    {
        let mark = if k == sel { "›" } else { " " };
        rows.push(labelled(mark, domains[k].clone()));
        k += 1;
    }
    rows.push(labelled("Seleccion", blocked_domain_selection(Some(domains[sel].as_str()))));
    assert(rows_view(rows@) =~= expected);
    let table = render_table("Sel", "Dominio", &rows, terminal_width, profile);
    colorize_selected_domain(table, Some(domains[sel].as_str()), profile)
}

// ---------------------------------------------------------------- the log panel

/// Greedy wrapping of `ws` at `width`, continuing the line `current`: a word that would
/// make the line longer than `width` starts a new line (a long word stays whole).
pub open spec fn wrap_from(ws: Seq<Seq<char>>, width: nat, current: Seq<char>) -> Seq<Seq<char>>
    decreases ws.len(),
{
    if ws.len() == 0 {
        if current.len() > 0 { seq![current] } else { Seq::empty() }
    } else {
        let w = ws[0];
        let candidate = current.len() + (if current.len() == 0 { 0nat } else { 1nat }) + w.len();
        if candidate > width && current.len() > 0 {
            seq![current] + wrap_from(ws.drop_first(), width, w)
        } else if current.len() == 0 {
            wrap_from(ws.drop_first(), width, w)
        } else {
            wrap_from(ws.drop_first(), width, current + " "@ + w)
        }
    }
}

/// The lines of `value` wrapped at `width`; the value as it is when it is empty or the
/// width is under 12.
pub open spec fn spec_wrap_text(value: Seq<char>, width: nat) -> Seq<Seq<char>> {
    if value.len() == 0 || width < 12 {
        seq![value]
    } else {
        wrap_from(words(value), width, Seq::empty())
    }
}

pub fn wrap_text(value: &str, width: usize) -> (r: Vec<String>)
    ensures
        views(r@) == spec_wrap_text(value@, width as nat),
{
    if chars_of(value).len() == 0 || width < 12 {
        let mut r: Vec<String> = Vec::new();
        r.push(owned(value));
        assert(views(r@) =~= seq![value@]);
        return r;
    }
    let ws = split_words(value);
    let ghost wv = views(ws@);
    let mut lines: Vec<String> = Vec::new();
    let mut current = String::new();
    let mut i: usize = 0;
    proof {
        assert(wv.subrange(0, wv.len() as int) =~= wv);
        assert(views(lines@) + wrap_from(wv, width as nat, current@) =~= wrap_from(wv, width as nat, current@));
    }
    while i < ws.len()
        invariant
            wv == views(ws@),
            i <= ws.len(),
            views(lines@) + wrap_from(wv.subrange(i as int, wv.len() as int), width as nat, current@)
                == wrap_from(wv, width as nat, Seq::<char>::empty()),
        decreases ws.len() - i,
    {
        let ghost rest = wv.subrange(i as int, wv.len() as int);
        let ghost before = views(lines@);
        let word = &ws[i];
        let cl = chars_of(current.as_str()).len();
        let wl = chars_of(word.as_str()).len();
        let extra: usize = if cl == 0 { 0 } else { 1 };
        let too_long = (cl as u128) + (extra as u128) + (wl as u128) > (width as u128);
        proof {
            assert(rest[0] == word@);
            assert(rest.drop_first() =~= wv.subrange(i + 1, wv.len() as int));
        }
        if too_long && cl > 0 {
            let done = current;
            lines.push(done);
            current = word.clone();
            assert(views(lines@) =~= before.push(done@));
            assert(before + (seq![done@] + wrap_from(rest.drop_first(), width as nat, word@)) =~= views(lines@) + wrap_from(rest.drop_first(), width as nat, word@));
        } else if cl == 0 {
            current = word.clone();
        } else {
            current.append(" ");
            current.append(word.as_str());
        }
        i += 1;
    }
    let ghost before = views(lines@);
    proof {
        assert(wv.subrange(ws.len() as int, wv.len() as int) =~= Seq::<Seq<char>>::empty());
    }
    if chars_of(current.as_str()).len() > 0 {
        let done = current;
        lines.push(done);
        assert(views(lines@) =~= before + seq![done@]);
    } else {
        assert(before + Seq::<Seq<char>>::empty() =~= before);
    }
    lines
}


/// The corners, the rule and the side of the log panel.
pub open spec fn panel_glyphs(unicode: bool) -> Seq<char> {
    if unicode {
        seq!['┌', '┐', '└', '┘', '─', '│']
    } else {
        seq!['+', '+', '+', '+', '-', '|']
    }
}

pub open spec fn panel_line(text: Seq<char>, width: nat, vert: char) -> Seq<char> {
    seq![vert, ' '] + padded(text, width) + seq![' ', vert]
}

/// The panel lines for one body line: an empty line stays one blank line, any other is
/// wrapped.
pub open spec fn panel_body(line: Seq<char>, width: nat, vert: char) -> Seq<Seq<char>> {
    if line.len() == 0 {
        seq![panel_line(Seq::empty(), width, vert)]
    } else {
        spec_wrap_text(line, width).map_values(|w: Seq<char>| panel_line(w, width, vert))
    }
}

pub open spec fn panel_bodies(lines: Seq<Seq<char>>, width: nat, vert: char) -> Seq<Seq<char>>
    decreases lines.len(),
{
    if lines.len() == 0 {
        Seq::empty()
    } else {
        panel_bodies(lines.drop_last(), width, vert) + panel_body(lines.last(), width, vert)
    }
}

pub open spec fn spec_render_log_panel(lines: Seq<Seq<char>>, width: nat, unicode: bool) -> Seq<char> {
    let g = panel_glyphs(unicode);
    join(
        seq![seq![g[0]] + repeated(g[4], width + 2) + seq![g[1]]] + panel_bodies(lines, width, g[5])
            + seq![seq![g[2]] + repeated(g[4], width + 2) + seq![g[3]]],
        "\n"@,
    )
}

fn panel_text_line(text: &str, width: usize, vert: char) -> (r: String)
    ensures
        r@ == panel_line(text@, width as nat, vert),
{
    let mut s = String::new();
    push_char(&mut s, vert);
    push_char(&mut s, ' ');
    s.append(pad(text, width).as_str());
    push_char(&mut s, ' ');
    push_char(&mut s, vert);
    assert(s@ =~= panel_line(text@, width as nat, vert));
    s
}

/// A framed panel of text lines, each wrapped to `width`.
pub fn render_log_panel(lines: &Vec<String>, width: usize, profile: StyleProfile) -> (r: String)
    requires
        width + 2 <= usize::MAX,
    ensures
        r@ == spec_render_log_panel(views(lines@), width as nat, profile.unicode),
{
    let (tl, tr, bl, br, h, v) = if profile.unicode {
        ('┌', '┐', '└', '┘', '─', '│')
    } else {
        ('+', '+', '+', '+', '-', '|')
    };
    let ghost lv = views(lines@);
    let rule = repeat_char(h, width + 2);
    let mut out: Vec<String> = Vec::new();
    let mut top = String::new();
    push_char(&mut top, tl);
    top.append(rule.as_str());
    push_char(&mut top, tr);
    assert(top@ =~= seq![tl] + repeated(h, width as nat + 2) + seq![tr]);
    out.push(top);
    proof {
        assert(lv.take(0) =~= Seq::<Seq<char>>::empty());
        assert(views(out@) =~= seq![seq![tl] + repeated(h, width as nat + 2) + seq![tr]] + panel_bodies(lv.take(0), width as nat, v));
    }
    let mut i: usize = 0;
    while i < lines.len()
        invariant
            lv == views(lines@),
            i <= lines.len(),
            v == panel_glyphs(profile.unicode)[5],
            views(out@) == seq![seq![tl] + repeated(h, width as nat + 2) + seq![tr]] + panel_bodies(lv.take(i as int), width as nat, v),
        decreases lines.len() - i,
    {
        let ghost before = views(out@);
        let line = &lines[i];
        proof {
            assert(lv.take(i + 1).drop_last() =~= lv.take(i as int));
            assert(lv.take(i + 1).last() == line@);
            assert(panel_bodies(lv.take(i + 1), width as nat, v) == panel_bodies(lv.take(i as int), width as nat, v) + panel_body(line@, width as nat, v));
        }
        if chars_of(line.as_str()).len() == 0 {
            out.push(panel_text_line("", width, v));
            proof {
                reveal_strlit("");
                assert(views(out@) =~= before + panel_body(line@, width as nat, v));
            }
        } else {
            let wrapped = wrap_text(line.as_str(), width);
            let ghost wv = views(wrapped@);
            let mut j: usize = 0;
            while j < wrapped.len()
                invariant
                    wv == views(wrapped@),
                    j <= wrapped.len(),
                    views(out@) == before + wv.take(j as int).map_values(|w: Seq<char>| panel_line(w, width as nat, v)),
                decreases wrapped.len() - j,
            {
                let ghost b2 = views(out@);
                out.push(panel_text_line(wrapped[j].as_str(), width, v));
                assert(wv.take(j + 1).map_values(|w: Seq<char>| panel_line(w, width as nat, v)) =~= wv.take(j as int).map_values(|w: Seq<char>| panel_line(w, width as nat, v)).push(panel_line(wv[j as int], width as nat, v)));
                assert(views(out@) =~= b2.push(panel_line(wv[j as int], width as nat, v)));
                j += 1;
            }
            assert(wv.take(wrapped.len() as int) =~= wv);
            assert(views(out@) == before + panel_body(line@, width as nat, v));
        }
        assert(views(out@) =~= seq![seq![tl] + repeated(h, width as nat + 2) + seq![tr]] + panel_bodies(lv.take(i + 1), width as nat, v));
        i += 1;
    }
    assert(lv.take(lines.len() as int) =~= lv);
    let mut bottom = String::new();
    push_char(&mut bottom, bl);
    bottom.append(rule.as_str());
    push_char(&mut bottom, br);
    assert(bottom@ =~= seq![bl] + repeated(h, width as nat + 2) + seq![br]);
    let ghost b3 = views(out@);
    out.push(bottom);
    proof {
        let g = panel_glyphs(profile.unicode);
        assert(tl == g[0] && tr == g[1] && bl == g[2] && br == g[3] && h == g[4]);
        assert(views(out@) =~= b3.push(bottom@));
        assert(b3 == seq![seq![tl] + repeated(h, width as nat + 2) + seq![tr]] + panel_bodies(lv, width as nat, v));
        assert(views(out@) =~= seq![seq![g[0]] + repeated(g[4], width as nat + 2) + seq![g[1]]] + panel_bodies(lv, width as nat, g[5])
            + seq![seq![g[2]] + repeated(g[4], width as nat + 2) + seq![g[3]]]);
    }
    join_strings(out.as_slice(), "\n")
}


// ---------------------------------------------------------------- events in the log panel

/// `s` up to the first occurrence of `p` (all of `s` when `p` does not occur).
pub open spec fn prefix_before(s: Seq<char>, p: Seq<char>) -> Seq<char>
    decreases s.len(),
{
    if s.len() == 0 || occurs_at(s, p, 0) {
        Seq::empty()
    } else {
        seq![s[0]] + prefix_before(s.drop_first(), p)
    }
}

pub open spec fn next_step_marker() -> Seq<char> {
    " | Siguiente paso:"@
}

/// The verdicts that a safety check writes when it has nothing specific to say.
pub open spec fn spec_is_generic_safety_message(m: Seq<char>) -> bool {
    ||| m == "Los chequeos fallaron. Corrige el problema o recupera la red antes de cambiarla."@
    ||| m == "Los chequeos aprobaron. Puedes activar la proteccion de forma segura."@
    ||| m == "Los chequeos aprobaron con precauciones. Revisa la nota antes de confirmar."@
}

/// What the log shows of an event's message: trimmed, without a trailing next-step note;
/// nothing for a generic safety verdict.
pub open spec fn spec_sanitize(kind: EventKind, message: Seq<char>) -> Seq<char> {
    let t = trim_ws(message);
    if t.len() == 0 {
        Seq::empty()
    } else {
        let exact = trim_ws(prefix_before(t, next_step_marker()));
        if kind == EventKind::SafetyCheck && spec_is_generic_safety_message(exact) {
            Seq::empty()
        } else {
            exact
        }
    }
}

pub fn is_generic_safety_message(message: &str) -> (b: bool)
    ensures
        b == spec_is_generic_safety_message(message@),
{
    str_eq(message, "Los chequeos fallaron. Corrige el problema o recupera la red antes de cambiarla.")
        || str_eq(message, "Los chequeos aprobaron. Puedes activar la proteccion de forma segura.")
        || str_eq(message, "Los chequeos aprobaron con precauciones. Revisa la nota antes de confirmar.")
}

fn chars_before(v: &Vec<char>, p: &Vec<char>) -> (r: Vec<char>)
    requires
        p@.len() > 0,
    ensures
        r@ == prefix_before(v@, p@),
{
    let n = v.len();
    let mut i: usize = 0;
    let mut found = false;
    assert(v@.subrange(0, n as int) =~= v@);
    while i < n && !found
        invariant
            n == v@.len(),
            i <= n,
            prefix_before(v@, p@) == v@.take(i as int) + prefix_before(v@.subrange(i as int, n as int), p@),
            found ==> i < n && occurs_at(v@.subrange(i as int, n as int), p@, 0),
        decreases n - i + (if found { 0int } else { 1int }),
    {
        let ghost rest = v@.subrange(i as int, n as int);
        if chars_occur_at(v, p, i) {
            proof {
                assert(rest.subrange(0, p@.len() as int) =~= v@.subrange(i as int, i + p@.len()));
                assert(occurs_at(rest, p@, 0));
            }
            found = true;
        } else {
            proof {
                if occurs_at(rest, p@, 0) {
                    assert(rest.subrange(0, p@.len() as int) =~= v@.subrange(i as int, i + p@.len()));
                }
                assert(rest.drop_first() =~= v@.subrange(i + 1, n as int));
                assert(v@.take(i + 1) =~= v@.take(i as int) + seq![rest[0]]);
            }
            i += 1;
        }
    }
    proof {
        if i == n {
            assert(v@.subrange(n as int, n as int) =~= Seq::<char>::empty());
        }
        assert(v@.take(i as int) + Seq::<char>::empty() =~= v@.take(i as int));
        assert(v@.take(i as int) =~= v@.subrange(0, i as int));
    }
    crate::text::chars_range(v, 0, i)
}

/// What the log shows of the message of `event`.
pub fn sanitize_event_message(event: &EventRecord) -> (r: String)
    ensures
        r@ == spec_sanitize(event.kind, event.message@),
{
    let raw = chars_of(event.message.as_str());
    let trimmed = trim_chars(&raw);
    if trimmed.len() == 0 {
        return String::new();
    }
    let marker = chars_of(" | Siguiente paso:");
    proof {
        reveal_strlit(" | Siguiente paso:");
    }
    let head = chars_before(&trimmed, &marker);
    let exact_chars = trim_chars(&head);
    let exact = string_from_chars(&exact_chars);
    if event.kind == EventKind::SafetyCheck && is_generic_safety_message(exact.as_str()) {
        return String::new();
    }
    exact
}

/// The events that have something to show, each with the message it shows.
pub open spec fn shown(e: EventRecord) -> bool {
    spec_sanitize(e.kind, e.message@).len() > 0
}

pub open spec fn shown_events() -> spec_fn(EventRecord) -> bool {
    |e: EventRecord| shown(e)
}

/// `b` is `a` showing its sanitized message.
pub open spec fn as_shown(a: EventRecord, b: EventRecord) -> bool {
    &&& b.id == a.id
    &&& b.timestamp == a.timestamp
    &&& b.kind == a.kind
    &&& b.severity == a.severity
    &&& b.blocked_domain == a.blocked_domain
    &&& b.message@ == spec_sanitize(a.kind, a.message@)
}

pub fn filter_display_events(events: &Vec<EventRecord>) -> (r: Vec<EventRecord>)
    ensures
        r@.len() == events@.filter(shown_events()).len(),
        forall|k: int| 0 <= k < r@.len() ==> as_shown(#[trigger] events@.filter(shown_events())[k], r@[k]),
{
    let ghost keep = shown_events();
    let mut r: Vec<EventRecord> = Vec::new();
    proof {
        reveal(Seq::filter);
        assert(events@.take(0) =~= Seq::<EventRecord>::empty());
    }
    let mut i: usize = 0;
    while i < events.len()
        invariant
            keep == shown_events(),
            i <= events.len(),
            r@.len() == events@.take(i as int).filter(keep).len(),
            forall|k: int| 0 <= k < r@.len() ==> as_shown(#[trigger] events@.take(i as int).filter(keep)[k], r@[k]),
        decreases events.len() - i,
    {
        let e = &events[i];
        let ghost old_f = events@.take(i as int).filter(keep);
        let ghost old_r = r@;
        proof {
            assert(events@.take(i + 1) =~= events@.take(i as int).push(*e));
            crate::text::lemma_filter_push(events@.take(i as int), *e, keep);
        }
        let message = sanitize_event_message(e);
        if chars_of(message.as_str()).len() > 0 {
            let rec = EventRecord {
                id: e.id.clone(),
                timestamp: e.timestamp,
                kind: e.kind,
                severity: e.severity,
                blocked_domain: crate::text::clone_opt_string(&e.blocked_domain),
                message,
            };
            assert(as_shown(*e, rec));
            r.push(rec);
            proof {
                let nf = events@.take(i + 1).filter(keep);
                assert(nf == old_f.push(*e));
                assert forall|k: int| 0 <= k < r@.len() implies as_shown(#[trigger] nf[k], r@[k]) by {
                    if k < old_r.len() {
                        assert(nf[k] == old_f[k]);
                        assert(r@[k] == old_r[k]);
                    }
                }
            }
        } else {
            proof {
                assert(events@.take(i + 1).filter(keep) == old_f);
            }
        }
        i += 1;
    }
    assert(events@.take(events.len() as int) =~= events@);
    r
}

pub open spec fn entry_header(event: EventRecord) -> Seq<char> {
    "["@ + utc_text(event.timestamp.secs, event.timestamp.nanos) + "] "@ + padded(ascii_upper(event.severity.spec_label()), 11)
        + " "@ + event.kind.spec_label()
}

/// The lines of one event in the log panel: the time, the severity in capitals (its labels
/// are ASCII, so this is what `to_uppercase` gives) and the kind, then the shown message,
/// wrapped and indented.
pub open spec fn spec_event_entry(event: EventRecord, width: nat) -> Seq<Seq<char>> {
    seq![entry_header(event)]
        + spec_wrap_text(spec_sanitize(event.kind, event.message@), width).map_values(|l: Seq<char>| "  "@ + l)
}

pub fn render_event_entry(event: &EventRecord, width: usize) -> (r: Vec<String>)
    requires
        event.timestamp.wf(),
    ensures
        views(r@) == spec_event_entry(*event, width as nat),
{
    let mut header = owned("[");
    header.append(format_utc(event.timestamp).as_str());
    header.append("] ");
    let upper = to_ascii_upper(event.severity.label());
    header.append(pad(upper.as_str(), 11).as_str());
    header.append(" ");
    header.append(event.kind.label());
    let mut r: Vec<String> = Vec::new();
    r.push(header);
    let wrapped = wrap_text(sanitize_event_message(event).as_str(), width);
    let ghost wv = views(wrapped@);
    for j in 0..wrapped.len()
        invariant
            wv == views(wrapped@),
            views(r@) == seq![entry_header(*event)] + wv.take(j as int).map_values(|l: Seq<char>| "  "@ + l),
    {
        let ghost before = views(r@);
        r.push(concat("  ", wrapped[j].as_str()));
        assert(wv.take(j + 1).map_values(|l: Seq<char>| "  "@ + l) =~= wv.take(j as int).map_values(|l: Seq<char>| "  "@ + l).push("  "@ + wv[j as int]));
        assert(views(r@) =~= before.push("  "@ + wv[j as int]));
    }
    assert(wv.take(wrapped.len() as int) =~= wv);
    r
}

/// The body of the log panel: the first eight shown events, a blank line between two, or
/// `empty_copy` when none is shown.
pub open spec fn stream_body(shown_list: Seq<EventRecord>, empty_copy: Seq<char>, width: nat) -> Seq<Seq<char>> {
    if shown_list.len() == 0 {
        seq![empty_copy]
    } else {
        stream_entries(shown_list.take(if shown_list.len() < 8 { shown_list.len() as int } else { 8 }), width)
    }
}

pub open spec fn stream_entries(list: Seq<EventRecord>, width: nat) -> Seq<Seq<char>>
    decreases list.len(),
{
    if list.len() == 0 {
        Seq::empty()
    } else {
        stream_entries(list.drop_last(), width) + (if list.len() > 1 { seq![Seq::<char>::empty()] } else { Seq::empty() })
            + spec_event_entry(list.last(), width)
    }
}

/// Each element of a filtered sequence comes from the sequence.
pub proof fn lemma_filter_from<A>(s: Seq<A>, p: spec_fn(A) -> bool, k: int)
    requires
        0 <= k < s.filter(p).len(),
    ensures
        exists|m: int| 0 <= m < s.len() && s[m] == s.filter(p)[k],
    decreases s.len(),
{
    reveal(Seq::filter);
    if s.len() > 0 {
        let sub = s.drop_last().filter(p);
        if k < sub.len() {
            lemma_filter_from(s.drop_last(), p, k);
            let m = choose|m: int| 0 <= m < s.drop_last().len() && s.drop_last()[m] == sub[k];
            assert(s[m] == s.filter(p)[k]);
        } else {
            assert(s[s.len() - 1] == s.filter(p)[k]);
        }
    }
}

pub open spec fn stream_width(terminal_width: nat) -> nat {
    clamp(saturating_sub(terminal_width as int, 10), 40, 84) as nat
}

/// The log panel for a list of events, sized to the terminal.
pub fn render_log_panel_stream(
    events: &Vec<EventRecord>,
    empty_copy: &str,
    terminal_width: usize,
    profile: StyleProfile,
) -> (r: String)
    requires
        forall|k: int| 0 <= k < events@.len() ==> (#[trigger] events@[k]).timestamp.wf(),
    ensures
        ({
            let d = events@.filter(shown_events());
            exists|shown_list: Seq<EventRecord>| {
                &&& shown_list.len() == d.len()
                &&& (forall|k: int| 0 <= k < d.len() ==> as_shown(#[trigger] d[k], shown_list[k]))
                &&& r@ == spec_render_log_panel(stream_body(shown_list, empty_copy@, stream_width(terminal_width as nat)), stream_width(terminal_width as nat), profile.unicode)
            }
        }),
{
    let w0: usize = if terminal_width > 10 { terminal_width - 10 } else { 0 };
    let width: usize = if w0 < 40 { 40 } else if w0 > 84 { 84 } else { w0 };
    let display = filter_display_events(events);
    proof {
        let d = events@.filter(shown_events());
        assert forall|k: int| 0 <= k < display@.len() implies (#[trigger] display@[k]).timestamp.wf() by {
            assert(as_shown(d[k], display@[k]));
            lemma_filter_from(events@, shown_events(), k);
            let m = choose|m: int| 0 <= m < events@.len() && events@[m] == d[k];
            assert(events@[m].timestamp.wf());
        }
    }
    let mut body: Vec<String> = Vec::new();
    if display.len() == 0 {
        body.push(owned(empty_copy));
        assert(views(body@) =~= seq![empty_copy@]);
    } else {
        let n: usize = if display.len() < 8 { display.len() } else { 8 };
        let ghost list = display@.take(n as int);
        proof {
            assert(list.take(0) =~= Seq::<EventRecord>::empty());
        }
        for i in 0..n
            invariant
                n <= display@.len(),
                list == display@.take(n as int),
                forall|k: int| 0 <= k < display@.len() ==> (#[trigger] display@[k]).timestamp.wf(),
                views(body@) == stream_entries(list.take(i as int), width as nat),
        {
            let ghost before = views(body@);
            proof {
                assert(list.take(i + 1).drop_last() =~= list.take(i as int));
                assert(list.take(i + 1).last() == display@[i as int]);
            }
            if i > 0 {
                body.push(String::new());
            }
            let ghost mid = views(body@);
            let entry = render_event_entry(&display[i], width);
            let mut j: usize = 0;
            while j < entry.len()
                invariant
                    j <= entry.len(),
                    views(body@) == mid + views(entry@).take(j as int),
                decreases entry.len() - j,
            {
                let ghost b2 = views(body@);
                body.push(entry[j].clone());
                assert(views(body@) =~= b2.push(entry@[j as int]@));
                assert(views(entry@).take(j + 1) =~= views(entry@).take(j as int).push(entry@[j as int]@));
                assert(views(body@) =~= mid + views(entry@).take(j + 1));
                j += 1;
            }
            proof {
                assert(views(entry@).take(entry.len() as int) =~= views(entry@));
                if i > 0 {
                    assert(mid =~= before + seq![Seq::<char>::empty()]);
                } else {
                    assert(mid =~= before + Seq::<Seq<char>>::empty());
                }
                assert(views(body@) =~= stream_entries(list.take(i + 1), width as nat));
            }
        }
        assert(list.take(n as int) =~= list);
    }
    let r = render_log_panel(&body, width, profile);
    proof {
        let d = events@.filter(shown_events());
        assert(r@ == spec_render_log_panel(stream_body(display@, empty_copy@, stream_width(terminal_width as nat)), stream_width(terminal_width as nat), profile.unicode));
    }
    r
}

} // verus!

verus! {

/// `s` holds no line break.
pub open spec fn no_newline(s: Seq<char>) -> bool {
    forall|m: int| 0 <= m < s.len() ==> s[m] != '\n'
}

/// A cell cut and padded to a width of at least 2 is exactly that wide, and adds no line break.
proof fn lemma_cell(v: Seq<char>, width: nat)
    requires
        width >= 2,
    ensures
        padded(truncated(v, width), width).len() == width,
        no_newline(v) ==> no_newline(padded(truncated(v, width), width)),
        v.len() <= width ==> padded(truncated(v, width), width).subrange(0, v.len() as int) == v,
{
    let t = truncated(v, width);
    let c = padded(t, width);
    if v.len() > width {
        assert(t.len() == width);
        assert forall|m: int| 0 <= m < t.len() && no_newline(v) implies t[m] != '\n' by {
            if m < width - 1 {
                assert(t[m] == v[m]);
            }
        }
    }
    assert(c.len() == width);
    assert forall|m: int| 0 <= m < c.len() && no_newline(v) implies c[m] != '\n' by {
        if m >= t.len() {
            assert(c[m] == ' ');
        } else {
            assert(c[m] == t[m]);
            if v.len() > width {
                if m < width - 1 {
                    assert(t[m] == v[m]);
                }
            }
        }
    }
    if v.len() <= width {
        assert(c.subrange(0, v.len() as int) =~= v);
    }
}

/// A table row is as wide as its two cells and five more characters, and has no line break.
proof fn lemma_row_shape(l: Seq<char>, r: Seq<char>, lw: nat, rw: nat, vert: char)
    requires
        lw >= 2,
        rw >= 2,
        vert != '\n',
        no_newline(l),
        no_newline(r),
    ensures
        table_row(l, r, lw, rw, vert).len() == lw + rw + 7,
        no_newline(table_row(l, r, lw, rw, vert)),
        table_row(l, r, lw, rw, vert).last() == vert,
{
    lemma_cell(l, lw);
    lemma_cell(r, rw);
    let a = padded(truncated(l, lw), lw);
    let b = padded(truncated(r, rw), rw);
    let row = table_row(l, r, lw, rw, vert);
    assert(row =~= seq![vert, ' '] + a + seq![' ', vert, ' '] + b + seq![' ', vert]);
    assert forall|m: int| 0 <= m < row.len() implies row[m] != '\n' by {
        if 2 <= m < 2 + lw {
            assert(row[m] == a[m - 2]);
        } else if 5 + lw <= m < 5 + lw + rw {
            assert(row[m] == b[m - 5 - lw]);
        }
    }
}

/// A table border is as wide as a row, and has no line break.
proof fn lemma_border_shape(le: char, me: char, re: char, h: char, lw: nat, rw: nat)
    requires
        le != '\n',
        me != '\n',
        re != '\n',
        h != '\n',
    ensures
        table_border(le, me, re, h, lw, rw).len() == lw + rw + 7,
        no_newline(table_border(le, me, re, h, lw, rw)),
        table_border(le, me, re, h, lw, rw).last() == re,
{
    let b = table_border(le, me, re, h, lw, rw);
    assert forall|m: int| 0 <= m < b.len() implies b[m] != '\n' by {
        if 1 <= m < lw + 3 {
            assert(b[m] == h);
        } else if lw + 4 <= m < lw + rw + 6 {
            assert(b[m] == h);
        }
    }
}

/// The decimal digits of a number: no line break, and at most 20 of them for a `usize`.
proof fn lemma_decimal_shape(n: nat)
    ensures
        no_newline(decimal(n)),
        n < 100_000_000_000_000_000_000 ==> decimal(n).len() <= 20,
        forall|k: nat| 1 <= k && n < #[trigger] ten_to(k) ==> decimal(n).len() <= k,
    decreases n,
{
    if n >= 10 {
        lemma_decimal_shape(n / 10);
        assert forall|k: nat| 1 <= k && n < #[trigger] ten_to(k) implies decimal(n).len() <= k by {
            assert(k >= 2) by {
                if k == 1 {
                    assert(ten_to(1) == 10) by {
                        reveal_with_fuel(ten_to, 2);
                    }
                }
            }
            assert(ten_to(k) == 10 * ten_to((k - 1) as nat));
            let t = ten_to((k - 1) as nat);
            assert(n / 10 < t) by (nonlinear_arith)
                requires
                    n < 10 * t,
            ;
            assert(decimal(n / 10).len() <= (k - 1) as nat);
        }
        let d = decimal(n);
        assert(d == decimal(n / 10).push(digit_char(n % 10)));
        assert forall|m: int| 0 <= m < d.len() implies d[m] != '\n' by {
            if m < d.len() - 1 {
                assert(d[m] == decimal(n / 10)[m]);
            } else {
                assert(0 <= n % 10 < 10);
            }
        }
    }
    assert(ten_to(20) == 100_000_000_000_000_000_000) by {
        reveal_with_fuel(ten_to, 21);
    }
}

/// `10` to the power `k`.
pub open spec fn ten_to(k: nat) -> nat
    decreases k,
{
    if k == 0 {
        1
    } else {
        10 * ten_to((k - 1) as nat)
    }
}

/// The settings table has seven lines as std's `str::lines` reads them (top border, headers,
/// rule, three rows, bottom border),
/// every one as wide as the table, which is the terminal width less 4, kept between 48 and 92;
/// the fifth line shows the number of blocked domains; and colour changes nothing in it.
pub proof fn lemma_settings_layout(count: usize, terminal_width: nat, profile: StyleProfile)
    ensures
        ({
            let r = spec_render_table("Campo"@, "Valor"@, settings_rows(count), terminal_width, profile.unicode);
            let lines = crate::text::lines(r);
            let w = clamp(saturating_sub(terminal_width as int, 4), 48, 92);
            let digits = decimal(count as nat);
            &&& lines.len() == 7
            &&& forall|i: int| 0 <= i < 7 ==> #[trigger] lines[i].len() == w
            &&& lines[4].subrange(22, 22 + digits.len() as int) == digits
            &&& r == spec_render_table(
                "Campo"@,
                "Valor"@,
                settings_rows(count),
                terminal_width,
                (StyleProfile { color: !profile.color, unicode: profile.unicode }).unicode,
            )
        }),
{
    let unicode = profile.unicode;
    let rows = settings_rows(count);
    reveal_strlit("Campo");
    reveal_strlit("Valor");
    reveal_strlit("Seccion");
    reveal_strlit("Administracion del bloqueo");
    reveal_strlit("Dominios vigentes");
    reveal_strlit("Siguiente paso");
    reveal_strlit("Entra a Dominios bloqueados para revisar o modificar la lista actual.");
    reveal_strlit("\n");
    let w = clamp(saturating_sub(terminal_width as int, 4), 48, 92);
    let inner = w - 4;
    let lens = rows.map_values(|r: (Seq<char>, Seq<char>)| r.0.len());
    assert(lens =~= seq![7nat, 17nat, 14nat]);
    assert(longest(lens, 5) == 17) by {
        reveal_with_fuel(longest, 4);
        assert(lens.drop_last() =~= seq![7nat, 17nat]);
        assert(lens.drop_last().drop_last() =~= seq![7nat]);
        assert(lens.drop_last().drop_last().drop_last() =~= Seq::<nat>::empty());
    }
    let lw = left_column(rows, "Campo"@, inner);
    assert(lw == 17);
    let rw = saturating_sub(inner, lw + 3);
    assert(rw == inner - 20 && rw >= 24);
    let g = glyphs(unicode);
    let ls = table_lines("Campo"@, "Valor"@, rows, terminal_width, unicode);
    lemma_decimal_shape(count as nat);
    let digits = decimal(count as nat);
    assert(digits.len() <= 20);
    assert forall|i: int| 0 <= i < g.len() implies g[i] != '\n' by {}
    assert(no_newline("Campo"@) && no_newline("Valor"@) && no_newline("Seccion"@));
    assert(no_newline("Administracion del bloqueo"@) && no_newline("Dominios vigentes"@));
    assert(no_newline("Siguiente paso"@));
    assert(no_newline("Entra a Dominios bloqueados para revisar o modificar la lista actual."@));
    lemma_border_shape(g[0], g[1], g[2], g[9], lw as nat, rw as nat);
    lemma_border_shape(g[3], g[4], g[5], g[9], lw as nat, rw as nat);
    lemma_border_shape(g[6], g[7], g[8], g[9], lw as nat, rw as nat);
    lemma_row_shape("Campo"@, "Valor"@, lw as nat, rw as nat, g[10]);
    lemma_row_shape(rows[0].0, rows[0].1, lw as nat, rw as nat, g[10]);
    lemma_row_shape(rows[1].0, rows[1].1, lw as nat, rw as nat, g[10]);
    lemma_row_shape(rows[2].0, rows[2].1, lw as nat, rw as nat, g[10]);
    assert(ls.len() == 7);
    assert(ls[3] == table_row(rows[0].0, rows[0].1, lw as nat, rw as nat, g[10]));
    assert(ls[4] == table_row(rows[1].0, rows[1].1, lw as nat, rw as nat, g[10]));
    assert(ls[5] == table_row(rows[2].0, rows[2].1, lw as nat, rw as nat, g[10]));
    assert forall|i: int, m: int| 0 <= i < ls.len() && 0 <= m < ls[i].len() implies #[trigger] ls[i][m] != '\n' by {
        assert(no_newline(ls[i]));
    }
    crate::text::lemma_split_join(ls, '\n');
    assert("\n"@ =~= seq!['\n']);
    let r = spec_render_table("Campo"@, "Valor"@, rows, terminal_width, unicode);
    assert(split(r, '\n') == ls);
    assert forall|i: int| 0 <= i < ls.len() implies #[trigger] ls[i].last() != '\r' by {
        assert(ls[i].last() == g[10] || ls[i].last() == g[2] || ls[i].last() == g[5] || ls[i].last() == g[8]);
    }
    assert(ls[ls.len() - 1].len() > 0);
    assert(crate::text::lines(r) =~= ls);
    assert(forall|i: int| 0 <= i < 7 ==> #[trigger] ls[i].len() == w);
    lemma_cell(digits, rw as nat);
    let cell = padded(truncated(digits, rw as nat), rw as nat);
    assert(ls[4] =~= seq![g[10], ' '] + padded(truncated("Dominios vigentes"@, 17), 17) + seq![' ', g[10], ' '] + cell + seq![' ', g[10]]);
    lemma_cell("Dominios vigentes"@, 17);
    assert(ls[4].subrange(22, 22 + digits.len() as int) =~= cell.subrange(0, digits.len() as int));
}

} // verus!
