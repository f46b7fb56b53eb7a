//! Domain validation, application paths and the interactive session's decisions.
use vstd::prelude::*;

use crate::blocking::blocklist::BlocklistBundle;
use crate::cli::copy::{
    blocked_domain_deleted, blocked_domain_saved, blocked_domain_selection, spec_blocked_domain_deleted,
    spec_blocked_domain_saved, spec_blocked_domain_selection,
};
use crate::cli::menu_state::{lemma_next_previous_inverse, next_index, previous_index, spec_action_ids, spec_log_scope, MenuSession};
use crate::cli::navigation::{
    default_route, spec_default_route, ConfirmationAction, DomainEditorMode, LogScope, MenuActionId, Route,
};
use crate::cli::InputEvent;
use crate::storage::blocked_domains::BlockedDomainsStore;
use crate::storage::config::ConfigStore;
use crate::storage::events::EventStore;
use crate::storage::install::{InstallStore, InstallationState};
use crate::storage::state::{ProtectionMode, RiskLevel, RuntimeState, StateStore};
use crate::cli::navigation::ResultTone;
use crate::cli::menu_state::{normalized_state, spec_normalize_copy};
use crate::text::{concat3, join_path, owned, push_char, spec_join_path};
use crate::text::{
    all_ascii, ascii_lower, chars_of, contains_char, has_char, is_ascii_char, is_whitespace, is_ws,
    split, split_from, string_from_chars, strip_both, strip_both_chars, strip_leading, strip_trailing,
    to_ascii_lower, trim_chars,
    trim_ws,
};

verus! {

// ---------------------------------------------------------------- paths

/// The files and directories Sentinel keeps its data in.
#[derive(Debug, Clone, PartialEq, Eq)]
pub struct AppPaths {
    pub state_dir: String,
    pub snapshots_dir: String,
    pub blocklist_file: String,
    pub config_file: String,
    pub state_file: String,
    pub events_file: String,
    pub install_file: String,
}

impl AppPaths {
    /// The layout under the root directory `root`: the blocklist at the root, the
    /// configuration under `config`, the installation record under `data`, and the state, the
    /// events and the snapshots under `state`.
    pub fn under_root(root: &str) -> (r: AppPaths)
        ensures
            r.state_dir@ == spec_join_path(root@, "state"@),
            r.snapshots_dir@ == spec_join_path(spec_join_path(root@, "state"@), "snapshots"@),
            r.blocklist_file@ == spec_join_path(root@, "blocklist.txt"@),
            r.config_file@ == spec_join_path(spec_join_path(root@, "config"@), "config.toml"@),
            r.state_file@ == spec_join_path(spec_join_path(root@, "state"@), "state.json"@),
            r.events_file@ == spec_join_path(spec_join_path(root@, "state"@), "events.jsonl"@),
            r.install_file@ == spec_join_path(spec_join_path(root@, "data"@), "install.json"@),
    {
        let config_dir = join_path(root, "config");
        let data_dir = join_path(root, "data");
        let state_dir = join_path(root, "state");
        AppPaths {
            snapshots_dir: join_path(state_dir.as_str(), "snapshots"),
            blocklist_file: join_path(root, "blocklist.txt"),
            config_file: join_path(config_dir.as_str(), "config.toml"),
            state_file: join_path(state_dir.as_str(), "state.json"),
            events_file: join_path(state_dir.as_str(), "events.jsonl"),
            install_file: join_path(data_dir.as_str(), "install.json"),
            state_dir,
        }
    }

    /// A copy of these paths.
    pub fn duplicate(&self) -> (r: AppPaths)
        ensures
            r == *self,
    {
        AppPaths {
            state_dir: self.state_dir.clone(),
            snapshots_dir: self.snapshots_dir.clone(),
            blocklist_file: self.blocklist_file.clone(),
            config_file: self.config_file.clone(),
            state_file: self.state_file.clone(),
            events_file: self.events_file.clone(),
            install_file: self.install_file.clone(),
        }
    }
}

// ---------------------------------------------------------------- domain names

/// Why a domain name was refused.
#[derive(Debug, Clone, Copy, PartialEq, Eq, Structural)]
pub enum DomainError {
    Empty,
    NotAscii,
    TooLong,
    HasPath,
    HasWhitespace,
    MissingDot,
    EmptyLabel,
    LabelTooLong,
    LabelEdgeHyphen,
    InvalidCharacter,
}

impl DomainError {
    /// The message shown to the user for this error.
    pub fn message(&self) -> (s: &'static str)
        ensures
            s@ == self.spec_message(),
    {
        match self {
            DomainError::Empty => "el dominio no puede estar vacio",
            DomainError::NotAscii => "el dominio debe usar solo caracteres ASCII o punycode",
            DomainError::TooLong => "el dominio excede la longitud maxima permitida",
            DomainError::HasPath => "introduce solo el nombre de dominio, sin protocolo ni rutas",
            DomainError::HasWhitespace => "el dominio no puede contener espacios",
            DomainError::MissingDot => "el dominio debe incluir al menos un punto",
            DomainError::EmptyLabel => "el dominio no puede contener segmentos vacios entre puntos",
            DomainError::LabelTooLong => "cada segmento del dominio debe tener maximo 63 caracteres",
            DomainError::LabelEdgeHyphen => "cada segmento del dominio debe empezar y terminar con un caracter valido",
            DomainError::InvalidCharacter => "el dominio solo admite letras, numeros, guiones y puntos",
        }
    }

    pub open spec fn spec_message(&self) -> Seq<char> {
        match self {
            DomainError::Empty => "el dominio no puede estar vacio"@,
            DomainError::NotAscii => "el dominio debe usar solo caracteres ASCII o punycode"@,
            DomainError::TooLong => "el dominio excede la longitud maxima permitida"@,
            DomainError::HasPath => "introduce solo el nombre de dominio, sin protocolo ni rutas"@,
            DomainError::HasWhitespace => "el dominio no puede contener espacios"@,
            DomainError::MissingDot => "el dominio debe incluir al menos un punto"@,
            DomainError::EmptyLabel => "el dominio no puede contener segmentos vacios entre puntos"@,
            DomainError::LabelTooLong => "cada segmento del dominio debe tener maximo 63 caracteres"@,
            DomainError::LabelEdgeHyphen => "cada segmento del dominio debe empezar y terminar con un caracter valido"@,
            DomainError::InvalidCharacter => "el dominio solo admite letras, numeros, guiones y puntos"@,
        }
    }
}

/// A character allowed inside a label: an ASCII letter, an ASCII digit or `-`.
pub open spec fn is_label_char(c: char) -> bool {
    ('a' <= c && c <= 'z') || ('A' <= c && c <= 'Z') || ('0' <= c && c <= '9') || c == '-'
}

/// The first rule that one label between dots breaks, if any.
pub open spec fn label_error(l: Seq<char>) -> Option<DomainError> {
    if l.len() == 0 {
        Some(DomainError::EmptyLabel)
    } else if l.len() > 63 {
        Some(DomainError::LabelTooLong)
    } else if l[0] == '-' || l.last() == '-' {
        Some(DomainError::LabelEdgeHyphen)
    } else if exists|i: int| 0 <= i < l.len() && !is_label_char(#[trigger] l[i]) {
        Some(DomainError::InvalidCharacter)
    } else {
        None
    }
}

/// The error of the first label, left to right, that breaks a rule.
pub open spec fn first_label_error(labels: Seq<Seq<char>>) -> Option<DomainError>
    decreases labels.len(),
{
    if labels.len() == 0 {
        None
    } else {
        match label_error(labels[0]) {
            Some(e) => Some(e),
            None => first_label_error(labels.drop_first()),
        }
    }
}

/// The candidate domain: trimmed of whitespace, then of dots at both ends, then lowercased.
pub open spec fn domain_candidate(input: Seq<char>) -> Seq<char> {
    ascii_lower(strip_both(trim_ws(input), '.'))
}

/// What `normalize_domain` gives for `input`: the first failed check, or the candidate.
pub open spec fn spec_normalize_domain(input: Seq<char>) -> Result<Seq<char>, DomainError> {
    let d = domain_candidate(input);
    if d.len() == 0 {
        Err(DomainError::Empty)
    } else if !all_ascii(d) {
        Err(DomainError::NotAscii)
    } else if d.len() > 253 {
        Err(DomainError::TooLong)
    } else if has_char(d, '/') {
        Err(DomainError::HasPath)
    } else if exists|i: int| 0 <= i < d.len() && is_ws(#[trigger] d[i]) {
        Err(DomainError::HasWhitespace)
    } else if !has_char(d, '.') {
        Err(DomainError::MissingDot)
    } else {
        match first_label_error(split(d, '.')) {
            Some(e) => Err(e),
            None => Ok(d),
        }
    }
}

fn is_label_char_exec(c: char) -> (b: bool)
    ensures
        b == is_label_char(c),
{
    ('a' <= c && c <= 'z') || ('A' <= c && c <= 'Z') || ('0' <= c && c <= '9') || c == '-'
}

#[verifier::loop_isolation(false)]
fn check_label(d: &Vec<char>, start: usize, end: usize) -> (r: Option<DomainError>)
    requires
        start <= end <= d.len(),
    ensures
        r == label_error(d@.subrange(start as int, end as int)),
{
    let ghost l = d@.subrange(start as int, end as int);
    if start == end {
        return Some(DomainError::EmptyLabel);
    }
    if end - start > 63 {
        return Some(DomainError::LabelTooLong);
    }
    if d[start] == '-' || d[end - 1] == '-' {
        assert(l[0] == d@[start as int]);
        assert(l.last() == d@[end - 1]);
        return Some(DomainError::LabelEdgeHyphen);
    }
    assert(l[0] == d@[start as int]);
    assert(l.last() == d@[end - 1]);
    let mut i = start;
    while i < end
        invariant
            start <= i <= end <= d.len(),
            l == d@.subrange(start as int, end as int),
            forall|k: int| 0 <= k < i - start ==> is_label_char(#[trigger] l[k]),
        decreases end - i,
    {
        if !is_label_char_exec(d[i]) {
            assert(l[i - start] == d@[i as int]);
            return Some(DomainError::InvalidCharacter);
        }
        assert(l[i - start] == d@[i as int]);
        i += 1;
    }
    None
}

proof fn lemma_split_from_step(s: Seq<char>, sep: char, start: int, pos: int)
    requires
        0 <= start <= pos < s.len(),
        s[pos] != sep,
    ensures
        split_from(s, sep, start, pos) == split_from(s, sep, start, pos + 1),
{
}

/// The first failing label of `d`, scanning the labels left to right.
fn check_labels(d: &Vec<char>) -> (r: Option<DomainError>)
    ensures
        r == first_label_error(split(d@, '.')),
{
    let n = d.len();
    let mut start: usize = 0;
    let mut pos: usize = 0;
    while pos < n
        invariant
            start <= pos <= n == d.len(),
            first_label_error(split(d@, '.')) == first_label_error(
                split_from(d@, '.', start as int, pos as int),
            ),
        decreases n - pos,
    {
        if d[pos] == '.' {
            let e = check_label(d, start, pos);
            proof {
                let rest = split_from(d@, '.', pos + 1, pos + 1);
                let all = split_from(d@, '.', start as int, pos as int);
                assert(all == seq![d@.subrange(start as int, pos as int)] + rest);
                assert(all[0] == d@.subrange(start as int, pos as int));
                assert(all.drop_first() =~= rest);
            }
            if e.is_some() {
                return e;
            }
            start = pos + 1;
        } else {
            proof {
                lemma_split_from_step(d@, '.', start as int, pos as int);
            }
        }
        pos += 1;
    }
    let e = check_label(d, start, n);
    proof {
        let all = split_from(d@, '.', start as int, pos as int);
        assert(all == seq![d@.subrange(start as int, n as int)]);
        assert(all.drop_first() =~= Seq::<Seq<char>>::empty());
        assert(first_label_error(all.drop_first()) == None::<DomainError>);
    }
    e
}

/// Normalizes a user-entered domain name: trims whitespace and outer dots, lowercases ASCII
/// letters, and refuses names that are empty, non-ASCII, longer than 253 characters, carry a
/// path, contain whitespace, lack a dot, or have a label that is empty, longer than 63
/// characters, starts or ends with `-`, or holds anything but letters, digits and `-`.
#[verifier::loop_isolation(false)]
pub fn normalize_domain(input: &str) -> (r: Result<String, DomainError>)
    ensures
        match r {
            Ok(d) => spec_normalize_domain(input@) == Ok::<Seq<char>, DomainError>(d@),
            Err(e) => spec_normalize_domain(input@) == Err::<Seq<char>, DomainError>(e),
        },
{
    let raw = chars_of(input);
    let trimmed = trim_chars(&raw);
    let stripped = strip_both_chars(&trimmed, '.');
    let d = to_ascii_lower(&stripped);
    let ghost gd = domain_candidate(input@);
    assert(d@ == gd);
    let n = d.len();
    if n == 0 {
        return Err(DomainError::Empty);
    }
    let mut i: usize = 0;
    while i < n
        invariant
            n == d.len(),
            forall|k: int| 0 <= k < i ==> is_ascii_char(#[trigger] d@[k]),
        decreases n - i,
    {
        let c = d[i];
        if c >= '\u{80}' {
            assert(!is_ascii_char(d@[i as int]));
            return Err(DomainError::NotAscii);
        }
        assert(is_ascii_char(d@[i as int]));
        i += 1;
    }
    if n > 253 {
        return Err(DomainError::TooLong);
    }
    if contains_char(&d, '/') {
        return Err(DomainError::HasPath);
    }
    let mut j: usize = 0;
    while j < n
        invariant
            n == d.len(),
            forall|k: int| 0 <= k < j ==> !is_ws(#[trigger] d@[k]),
        decreases n - j,
    {
        if is_whitespace(d[j]) {
            assert(is_ws(d@[j as int]));
            return Err(DomainError::HasWhitespace);
        }
        j += 1;
    }
    if !contains_char(&d, '.') {
        return Err(DomainError::MissingDot);
    }
    match check_labels(&d) {
        Some(e) => Err(e),
        None => Ok(string_from_chars(&d)),
    }
}

} // verus!

verus! {

/// Normalizing is idempotent: a normalized domain normalizes to itself.
pub proof fn lemma_normalize_domain_idempotent(input: Seq<char>)
    requires
        spec_normalize_domain(input) is Ok,
    ensures
        spec_normalize_domain(spec_normalize_domain(input)->Ok_0) == spec_normalize_domain(input),
{
    let t = trim_ws(input);
    let u = strip_leading(t, '.');
    let s = strip_both(t, '.');
    let d = domain_candidate(input);
    assert(spec_normalize_domain(input)->Ok_0 == d);
    crate::text::lemma_strip_leading_props(t, '.');
    crate::text::lemma_strip_trailing_props(u, '.');
    assert(s.len() == d.len());
    assert(s.len() > 0);
    assert(s[0] == u[0]);
    assert(d[0] == crate::text::ascii_lower_char(s[0]));
    assert(d[0] != '.');
    assert(d.last() == crate::text::ascii_lower_char(s.last()));
    assert(d.last() != '.');
    assert forall|i: int| 0 <= i < d.len() implies !is_ws(#[trigger] d[i]) by {}
    crate::text::lemma_trim_ws_noop(d);
    assert(strip_leading(d, '.') == d);
    assert(strip_trailing(d, '.') == d);
    crate::text::lemma_ascii_lower_idempotent(s);
    assert(domain_candidate(d) == d);
}

} // verus!

verus! {

// ---------------------------------------------------------------- the interactive session

/// Work that the session asks the caller to do: reading or writing the stores, or running
/// the protection flows. The caller does it and then calls the matching `finish_*` step.
#[derive(Debug, Clone, PartialEq, Eq)]
pub enum Effect {
    RefreshStatus,
    OpenSettings,
    ViewBlockedDomains,
    DeleteBlockedDomain(String),
    PersistDomainEditor(DomainEditorMode),
    EnableProtection,
    DisableProtection,
    RecoverNetwork,
}

/// What the session does after an input: go on, end, or have the caller do some work first.
#[derive(Debug, Clone, PartialEq, Eq)]
pub enum Step {
    Continue,
    Exit,
    Perform(Effect),
}

/// The sensitive view's way back: recovery for a sensitive mode, the default view otherwise.
pub open spec fn spec_back_route_for(mode: ProtectionMode) -> Route {
    if mode == ProtectionMode::Degraded || mode == ProtectionMode::Recovering {
        Route::Recovery
    } else {
        spec_default_route(mode)
    }
}

pub fn back_route_for(mode: ProtectionMode) -> (r: Route)
    ensures
        r == spec_back_route_for(mode),
{
    match mode {
        ProtectionMode::Degraded | ProtectionMode::Recovering => Route::Recovery,
        _ => default_route(mode),
    }
}

pub open spec fn spec_log_parent_route(scope: LogScope) -> Route {
    match scope {
        LogScope::Safety => Route::Safety,
        LogScope::Status => Route::Status,
    }
}

/// The view a log view returns to.
pub fn log_parent_route(scope: LogScope) -> (r: Route)
    ensures
        r == spec_log_parent_route(scope),
{
    match scope {
        LogScope::Safety => Route::Safety,
        LogScope::Status => Route::Status,
    }
}

/// A frame is redrawn in place when the view did not change since the last frame.
pub fn should_redraw(last_drawn_route: Option<Route>, route: Route) -> (b: bool)
    ensures
        b == (last_drawn_route == Some(route)),
{
    match last_drawn_route {
        Some(previous) => previous == route,
        None => false,
    }
}

/// `b` shows `route` with the first entry selected and `message`; the data, the progress
/// label and the editor are those of `a`.
pub open spec fn moved_to(a: MenuSession, b: MenuSession, route: Route, message: Seq<char>) -> bool {
    &&& b.route == route
    &&& b.selected_index == 0
    &&& b.last_message@ == message
    &&& MenuSession::same_data(&a, &b)
    &&& b.progress_label == a.progress_label
}

/// `b` is `a` with only the shown message changed to `message`.
pub open spec fn only_message(a: MenuSession, b: MenuSession, message: Seq<char>) -> bool {
    &&& b.last_message@ == message
    &&& MenuSession::same_data(&a, &b)
    &&& MenuSession::same_editor(&a, &b)
    &&& b.route == a.route
    &&& b.selected_index == a.selected_index
    &&& b.last_result == a.last_result
    &&& b.progress_label == a.progress_label
}

/// Nothing shown changed between `a` and `b`.
pub open spec fn unchanged(a: MenuSession, b: MenuSession) -> bool {
    &&& MenuSession::same_data(&a, &b)
    &&& MenuSession::same_editor(&a, &b)
    &&& b.route == a.route
    &&& b.selected_index == a.selected_index
    &&& b.last_message == a.last_message
    &&& b.last_result == a.last_result
    &&& b.progress_label == a.progress_label
}

/// Where going back leads from each view, and what it says.
pub open spec fn spec_handle_back(a: MenuSession, b: MenuSession) -> bool {
    match a.route {
        Route::Home | Route::Progress | Route::Exit => unchanged(a, b),
        Route::Settings => moved_to(a, b, Route::Home, "Volviste al inicio para revisar otra accion principal."@)
            && MenuSession::same_editor(&a, &b) && b.last_result == a.last_result,
        Route::BlockedDomains => moved_to(a, b, Route::Settings, "Volviste a Ajustes sin perder el catalogo vigente."@)
            && MenuSession::same_editor(&a, &b) && b.last_result == a.last_result,
        Route::BlockedDomainEditor(_) => moved_to(a, b, Route::BlockedDomains, "La edicion fue cancelada antes de guardar cambios."@)
            && b.domain_input@.len() == 0 && b.domain_original is None && b.last_result == a.last_result,
        Route::Recovery => moved_to(a, b, Route::Home, "Volviste al inicio para elegir otra accion con una pantalla limpia."@)
            && MenuSession::same_editor(&a, &b) && b.last_result == a.last_result,
        Route::Confirm(_) => moved_to(a, b, spec_back_route_for(a.runtime_state.mode), "La accion sensible fue cancelada antes de cambiar la red."@)
            && MenuSession::same_editor(&a, &b) && b.last_result == a.last_result,
        Route::Logs(scope) => moved_to(a, b, spec_log_parent_route(scope), "Volviste a la vista anterior sin perder el contexto."@)
            && MenuSession::same_editor(&a, &b) && b.last_result == a.last_result,
        Route::Result | Route::Safety | Route::Status => moved_to(a, b, Route::Home, "Volviste al inicio para ejecutar otra accion."@)
            && MenuSession::same_editor(&a, &b) && b.last_result is None,
    }
}

/// `domain (if any)` of the selected blocked domain.
pub open spec fn selected_domain_view(s: MenuSession) -> Option<Seq<char>> {
    if s.selected_domain_index < s.blocked_domains@.len() {
        Some(s.blocked_domains@[s.selected_domain_index as int]@)
    } else {
        None
    }
}

/// What each menu action does to the session and what it asks the caller to do.
pub open spec fn spec_execute_action(a: MenuSession, action: MenuActionId, b: MenuSession, step: Step) -> bool {
    match action {
        MenuActionId::ToggleProtection => step == Step::Continue && moved_to(
            a,
            b,
            Route::Confirm(
                if a.runtime_state.mode == ProtectionMode::Active {
                    ConfirmationAction::DisableProtection
                } else {
                    ConfirmationAction::EnableProtection
                },
            ),
            "Confirma la accion solo si deseas aplicar el cambio de red."@,
        ) && MenuSession::same_editor(&a, &b) && b.last_result == a.last_result,
        MenuActionId::ViewStatus => step == Step::Perform(Effect::RefreshStatus) && unchanged(a, b),
        MenuActionId::OpenSettings => step == Step::Perform(Effect::OpenSettings) && unchanged(a, b),
        MenuActionId::ViewBlockedDomains => step == Step::Perform(Effect::ViewBlockedDomains) && unchanged(a, b),
        MenuActionId::AddBlockedDomain => step == Step::Continue && moved_to(
            a,
            b,
            Route::BlockedDomainEditor(DomainEditorMode::Add),
            "Introduce un dominio valido y confirma para guardarlo."@,
        ) && b.domain_input@.len() == 0 && b.domain_original is None && b.last_result == a.last_result,
        MenuActionId::EditBlockedDomain => step == Step::Continue && match selected_domain_view(a) {
            Some(d) => moved_to(
                a,
                b,
                Route::BlockedDomainEditor(DomainEditorMode::Edit),
                "Editando `"@ + d + "`. Confirma cuando termines."@,
            ) && b.domain_input@ == d && b.last_result == a.last_result
                && (b.domain_original matches Some(o) && o@ == d),
            None => only_message(a, b, "No hay un dominio seleccionado para editar."@),
        },
        MenuActionId::DeleteBlockedDomain => match selected_domain_view(a) {
            Some(d) => unchanged(a, b) && (step matches Step::Perform(Effect::DeleteBlockedDomain(x)) && x@ == d),
            None => step == Step::Continue && only_message(a, b, "No hay un dominio seleccionado para eliminar."@),
        },
        MenuActionId::SelectNextBlockedDomain => step == Step::Continue
            && b.selected_domain_index as nat == next_index(a.selected_domain_index as nat, a.blocked_domains@.len())
            && b.route == a.route && b.selected_index == a.selected_index && b.blocked_domains == a.blocked_domains
            && b.last_message@ == spec_blocked_domain_selection(selected_domain_view(b)),
        MenuActionId::SelectPreviousBlockedDomain => step == Step::Continue
            && b.selected_domain_index as nat == previous_index(a.selected_domain_index as nat, a.blocked_domains@.len())
            && b.route == a.route && b.selected_index == a.selected_index && b.blocked_domains == a.blocked_domains
            && b.last_message@ == spec_blocked_domain_selection(selected_domain_view(b)),
        MenuActionId::ViewLogs => step == Step::Continue && match spec_log_scope(a.route) {
            Some(scope) => moved_to(a, b, Route::Logs(scope), "Revisa los logs y vuelve cuando termines."@)
                && MenuSession::same_editor(&a, &b) && b.last_result == a.last_result,
            None => unchanged(a, b),
        },
        MenuActionId::RecoverNetwork => step == Step::Continue && moved_to(
            a,
            b,
            Route::Confirm(ConfirmationAction::RecoverNetwork),
            "Sentinel puede restaurar la red y validar el resultado antes de volver al inicio."@,
        ) && MenuSession::same_editor(&a, &b) && b.last_result == a.last_result,
        MenuActionId::BackToPrevious => step == Step::Continue && match spec_log_scope(a.route) {
            Some(scope) => moved_to(a, b, spec_log_parent_route(scope), "Volviste a la vista anterior sin perder el contexto."@)
                && MenuSession::same_editor(&a, &b) && b.last_result == a.last_result,
            None => unchanged(a, b),
        },
        MenuActionId::BackSettings => step == Step::Continue && moved_to(
            a,
            b,
            Route::Settings,
            "Volviste a Ajustes sin perder el catalogo actual."@,
        ) && MenuSession::same_editor(&a, &b) && b.last_result == a.last_result,
        MenuActionId::BackHome => step == Step::Continue && moved_to(
            a,
            b,
            Route::Home,
            "Volviste al inicio para revisar otra vista o accion."@,
        ) && MenuSession::same_editor(&a, &b) && b.last_result is None,
        MenuActionId::Exit => step == Step::Exit && exited(a, b),
        MenuActionId::Confirm => match a.route {
            Route::Confirm(ConfirmationAction::EnableProtection) => step == Step::Perform(Effect::EnableProtection) && unchanged(a, b),
            Route::Confirm(ConfirmationAction::DisableProtection) => step == Step::Perform(Effect::DisableProtection) && unchanged(a, b),
            Route::Confirm(ConfirmationAction::RecoverNetwork) => step == Step::Perform(Effect::RecoverNetwork) && unchanged(a, b),
            _ => step == Step::Continue && unchanged(a, b),
        },
        MenuActionId::Cancel => step == Step::Continue && moved_to(
            a,
            b,
            spec_back_route_for(a.runtime_state.mode),
            "La accion sensible fue cancelada antes de cambiar la red."@,
        ) && MenuSession::same_editor(&a, &b) && b.last_result == a.last_result,
    }
}

/// The session ended: the exit view, nothing selected, no result, no message.
pub open spec fn exited(a: MenuSession, b: MenuSession) -> bool {
    &&& b.route == Route::Exit
    &&& b.selected_index == 0
    &&& b.last_result is None
    &&& b.last_message@.len() == 0
    &&& MenuSession::same_data(&a, &b)
    &&& MenuSession::same_editor(&a, &b)
}

/// What each input does: arrows move the menu selection, escape goes back, `q` ends,
/// editing keys change the domain being edited (only in the editor), and confirming saves
/// the editor or runs the selected action.
pub open spec fn spec_handle_input(a: MenuSession, input: InputEvent, b: MenuSession, step: Step) -> bool {
    match input {
        InputEvent::Up => step == Step::Continue && b.selected_index as nat == previous_index(
            a.selected_index as nat,
            spec_action_ids(a.route).len(),
        ) && MenuSession::only_selection_changed(&a, &b),
        InputEvent::Down => step == Step::Continue && b.selected_index as nat == next_index(
            a.selected_index as nat,
            spec_action_ids(a.route).len(),
        ) && MenuSession::only_selection_changed(&a, &b),
        InputEvent::Back => step == Step::Continue && spec_handle_back(a, b),
        InputEvent::Exit => step == Step::Exit && exited(a, b),
        InputEvent::Backspace => step == Step::Continue && if a.route is BlockedDomainEditor {
            (a.domain_input@.len() > 0 ==> b.domain_input@ == a.domain_input@.drop_last())
                && (a.domain_input@.len() == 0 ==> b.domain_input@ == a.domain_input@)
                && b.domain_original == a.domain_original && MenuSession::same_data(&a, &b)
                && b.route == a.route && b.selected_index == a.selected_index
                && b.last_message == a.last_message
        } else {
            unchanged(a, b)
        },
        InputEvent::InsertChar(c) => step == Step::Continue && if a.route is BlockedDomainEditor {
            b.domain_input@ == a.domain_input@.push(c) && b.domain_original == a.domain_original
                && MenuSession::same_data(&a, &b) && b.route == a.route
                && b.selected_index == a.selected_index && b.last_message == a.last_message
        } else {
            unchanged(a, b)
        },
        InputEvent::InsertText(t) => step == Step::Continue && if a.route is BlockedDomainEditor {
            b.domain_input == t && b.domain_original == a.domain_original
                && MenuSession::same_data(&a, &b) && b.route == a.route
                && b.selected_index == a.selected_index && b.last_message == a.last_message
        } else {
            unchanged(a, b)
        },
        InputEvent::Confirm => match a.route {
            Route::BlockedDomainEditor(mode) => step == Step::Perform(Effect::PersistDomainEditor(mode)) && unchanged(a, b),
            _ => if a.selected_index < spec_action_ids(a.route).len() {
                spec_execute_action(a, spec_action_ids(a.route)[a.selected_index as int], b, step)
            } else {
                step == Step::Continue && unchanged(a, b)
            },
        },
    }
}

/// Pressing down then up, or up then down, leaves the session on the same view with the same
/// entry selected, and continues it.
pub proof fn lemma_arrows_are_inverse(a: MenuSession, b: MenuSession, c: MenuSession, s1: Step, s2: Step, down_first: bool)
    requires
        (a.selected_index as nat) < spec_action_ids(a.route).len(),
        spec_handle_input(a, if down_first { InputEvent::Down } else { InputEvent::Up }, b, s1),
        spec_handle_input(b, if down_first { InputEvent::Up } else { InputEvent::Down }, c, s2),
    ensures
        c.route == a.route,
        c.selected_index == a.selected_index,
        c.last_message == a.last_message,
        s1 == Step::Continue,
        s2 == Step::Continue,
{
    lemma_next_previous_inverse(a.selected_index as nat, spec_action_ids(a.route).len());
}

/// The network is changed only after a confirmation: the session asks to enable, disable or
/// recover only when Enter is pressed on the confirmation view of that very action.
pub proof fn lemma_network_changes_need_confirmation(a: MenuSession, input: InputEvent, b: MenuSession, step: Step)
    requires
        spec_handle_input(a, input, b, step),
    ensures
        step == Step::Perform(Effect::EnableProtection) ==> input == InputEvent::Confirm
            && a.route == Route::Confirm(ConfirmationAction::EnableProtection),
        step == Step::Perform(Effect::DisableProtection) ==> input == InputEvent::Confirm
            && a.route == Route::Confirm(ConfirmationAction::DisableProtection),
        step == Step::Perform(Effect::RecoverNetwork) ==> input == InputEvent::Confirm
            && a.route == Route::Confirm(ConfirmationAction::RecoverNetwork),
{
}

/// The label shown while a confirmed sensitive action runs.
pub open spec fn spec_progress_label(route: Route, input: InputEvent) -> Option<Seq<char>> {
    if input != InputEvent::Confirm {
        None
    } else {
        match route {
            Route::Confirm(ConfirmationAction::EnableProtection) => Some("Activando Sentinel y preparando snapshot recuperable..."@),
            Route::Confirm(ConfirmationAction::DisableProtection) => Some("Desactivando Sentinel y restaurando la red..."@),
            Route::Confirm(ConfirmationAction::RecoverNetwork) => Some("Recuperando la red y verificando el resultado..."@),
            _ => None,
        }
    }
}

/// The application: its paths and stores.
pub struct SentinelApp {
    pub paths: AppPaths,
    pub config_store: ConfigStore,
    pub state_store: StateStore,
    pub event_store: EventStore,
    pub install_store: InstallStore,
}

impl SentinelApp {
    /// The application over `paths`, with its stores.
    pub fn new(paths: AppPaths) -> (app: SentinelApp)
        ensures
            app.paths == paths,
            app.config_store.paths == paths,
            app.state_store.paths == paths,
            app.event_store.paths == paths,
            app.install_store.paths == paths,
    {
        SentinelApp {
            config_store: ConfigStore::new(paths.duplicate()),
            state_store: StateStore::new(paths.duplicate()),
            event_store: EventStore::new(paths.duplicate()),
            install_store: InstallStore::new(paths.duplicate()),
            paths,
        }
    }

    /// The store of blocked domains, kept in the blocklist file.
    pub fn blocked_domains_store(&self) -> (s: BlockedDomainsStore)
        ensures
            s.path == self.paths.blocklist_file,
    {
        BlockedDomainsStore::new(self.paths.blocklist_file.clone())
    }

    /// Goes back from the current view.
    pub fn handle_back(&self, session: &mut MenuSession)
        ensures
            spec_handle_back(*old(session), *final(session)),
    {
        match session.route {
            Route::Home => {},
            Route::Progress => {},
            Route::Exit => {},
            Route::Settings => {
                session.route = Route::Home;
                session.selected_index = 0;
                session.last_message = owned("Volviste al inicio para revisar otra accion principal.");
            },
            Route::BlockedDomains => {
                session.route = Route::Settings;
                session.selected_index = 0;
                session.last_message = owned("Volviste a Ajustes sin perder el catalogo vigente.");
            },
            Route::BlockedDomainEditor(_) => {
                session.route = Route::BlockedDomains;
                session.selected_index = 0;
                session.clear_domain_editor();
                session.last_message = owned("La edicion fue cancelada antes de guardar cambios.");
            },
            Route::Recovery => {
                session.route = Route::Home;
                session.selected_index = 0;
                session.last_message = owned("Volviste al inicio para elegir otra accion con una pantalla limpia.");
            },
            Route::Confirm(_) => {
                session.route = back_route_for(session.runtime_state.mode);
                session.selected_index = 0;
                session.last_message = owned("La accion sensible fue cancelada antes de cambiar la red.");
            },
            Route::Logs(scope) => {
                session.route = log_parent_route(scope);
                session.selected_index = 0;
                session.last_message = owned("Volviste a la vista anterior sin perder el contexto.");
            },
            Route::Result | Route::Safety | Route::Status => {
                session.route = Route::Home;
                session.selected_index = 0;
                session.last_result = None;
                session.last_message = owned("Volviste al inicio para ejecutar otra accion.");
            },
        }
    }

    /// Ends the session; always asks to stop.
    pub fn exit_session(&self, session: &mut MenuSession) -> (stop: bool)
        ensures
            stop,
            exited(*old(session), *final(session)),
            final(session).progress_label == old(session).progress_label,
    {
        session.route = Route::Exit;
        session.selected_index = 0;
        session.last_result = None;
        session.last_message = String::new();
        true
    }

    /// Runs a menu action: navigation is done here; reading, writing and the protection
    /// flows are handed to the caller as an effect.
    pub fn execute_action(&self, session: &mut MenuSession, action: MenuActionId) -> (step: Step)
        ensures
            spec_execute_action(*old(session), action, *final(session), step),
    {
        match action {
            MenuActionId::ToggleProtection => {
                session.route = Route::Confirm(session.toggle_confirmation_action());
                session.selected_index = 0;
                session.last_message = owned("Confirma la accion solo si deseas aplicar el cambio de red.");
                Step::Continue
            },
            MenuActionId::ViewStatus => Step::Perform(Effect::RefreshStatus),
            MenuActionId::OpenSettings => Step::Perform(Effect::OpenSettings),
            MenuActionId::ViewBlockedDomains => Step::Perform(Effect::ViewBlockedDomains),
            MenuActionId::AddBlockedDomain => {
                session.start_domain_editor(DomainEditorMode::Add, None);
                session.last_message = owned("Introduce un dominio valido y confirma para guardarlo.");
                Step::Continue
            },
            MenuActionId::EditBlockedDomain => {
                match session.selected_blocked_domain() {
                    Some(d) => {
                        let domain = owned(d);
                        let message = concat3("Editando `", domain.as_str(), "`. Confirma cuando termines.");
                        session.start_domain_editor(DomainEditorMode::Edit, Some(domain));
                        session.last_message = message;
                    },
                    None => {
                        session.last_message = owned("No hay un dominio seleccionado para editar.");
                    },
                }
                Step::Continue
            },
            MenuActionId::DeleteBlockedDomain => {
                match session.selected_blocked_domain() {
                    Some(d) => Step::Perform(Effect::DeleteBlockedDomain(owned(d))),
                    None => {
                        session.last_message = owned("No hay un dominio seleccionado para eliminar.");
                        Step::Continue
                    },
                }
            },
            MenuActionId::SelectNextBlockedDomain => {
                session.select_next_domain();
                session.last_message = blocked_domain_selection(session.selected_blocked_domain());
                Step::Continue
            },
            MenuActionId::SelectPreviousBlockedDomain => {
                session.select_previous_domain();
                session.last_message = blocked_domain_selection(session.selected_blocked_domain());
                Step::Continue
            },
            MenuActionId::ViewLogs => {
                match session.log_scope() {
                    Some(scope) => {
                        session.route = Route::Logs(scope);
                        session.selected_index = 0;
                        session.last_message = owned("Revisa los logs y vuelve cuando termines.");
                    },
                    None => {},
                }
                Step::Continue
            },
            MenuActionId::RecoverNetwork => {
                session.route = Route::Confirm(ConfirmationAction::RecoverNetwork);
                session.selected_index = 0;
                session.last_message = owned("Sentinel puede restaurar la red y validar el resultado antes de volver al inicio.");
                Step::Continue
            },
            MenuActionId::BackToPrevious => {
                match session.log_scope() {
                    Some(scope) => {
                        session.route = log_parent_route(scope);
                        session.selected_index = 0;
                        session.last_message = owned("Volviste a la vista anterior sin perder el contexto.");
                    },
                    None => {},
                }
                Step::Continue
            },
            MenuActionId::BackSettings => {
                session.route = Route::Settings;
                session.selected_index = 0;
                session.last_message = owned("Volviste a Ajustes sin perder el catalogo actual.");
                Step::Continue
            },
            MenuActionId::BackHome => {
                session.route = Route::Home;
                session.selected_index = 0;
                session.last_result = None;
                session.last_message = owned("Volviste al inicio para revisar otra vista o accion.");
                Step::Continue
            },
            MenuActionId::Exit => {
                self.exit_session(session);
                Step::Exit
            },
            MenuActionId::Confirm => {
                match session.route {
                    Route::Confirm(ConfirmationAction::EnableProtection) => Step::Perform(Effect::EnableProtection),
                    Route::Confirm(ConfirmationAction::DisableProtection) => Step::Perform(Effect::DisableProtection),
                    Route::Confirm(ConfirmationAction::RecoverNetwork) => Step::Perform(Effect::RecoverNetwork),
                    _ => Step::Continue,
                }
            },
            MenuActionId::Cancel => {
                session.route = back_route_for(session.runtime_state.mode);
                session.selected_index = 0;
                session.last_message = owned("La accion sensible fue cancelada antes de cambiar la red.");
                Step::Continue
            },
        }
    }

    /// Handles one input of the session.
    pub fn handle_input(&self, session: &mut MenuSession, input: InputEvent) -> (step: Step)
        ensures
            spec_handle_input(*old(session), input, *final(session), step),
    {
        match input {
            InputEvent::Up => {
                session.select_previous();
                Step::Continue
            },
            InputEvent::Down => {
                session.select_next();
                Step::Continue
            },
            InputEvent::Back => {
                self.handle_back(session);
                Step::Continue
            },
            InputEvent::Exit => {
                self.exit_session(session);
                Step::Exit
            },
            InputEvent::Backspace => {
                if session.route.is_editor() {
                    session.pop_domain_input();
                }
                Step::Continue
            },
            InputEvent::InsertChar(ch) => {
                if session.route.is_editor() {
                    let mut text = String::new();
                    push_char(&mut text, ch);
                    assert(text@ == Seq::<char>::empty().push(ch));
                    session.append_domain_input(text.as_str());
                    assert(session.domain_input@ == old(session).domain_input@.push(ch));
                }
                Step::Continue
            },
            InputEvent::InsertText(text) => {
                if session.route.is_editor() {
                    session.replace_domain_input(text);
                }
                Step::Continue
            },
            InputEvent::Confirm => {
                match session.route {
                    Route::BlockedDomainEditor(mode) => Step::Perform(Effect::PersistDomainEditor(mode)),
                    _ => match session.selected_action_id() {
                        Some(action) => self.execute_action(session, action),
                        None => Step::Continue,
                    },
                }
            },
        }
    }

    /// The label to show while a confirmed sensitive action runs, if the input confirms one.
    pub fn progress_label_for_input(&self, session: &MenuSession, input: &InputEvent) -> (r: Option<String>)
        ensures
            match spec_progress_label(session.route, *input) {
                Some(l) => r matches Some(s) && s@ == l,
                None => r is None,
            },
    {
        match input {
            InputEvent::Confirm => {},
            _ => return None,
        }
        match session.route {
            Route::Confirm(ConfirmationAction::EnableProtection) => Some(owned("Activando Sentinel y preparando snapshot recuperable...")),
            Route::Confirm(ConfirmationAction::DisableProtection) => Some(owned("Desactivando Sentinel y restaurando la red...")),
            Route::Confirm(ConfirmationAction::RecoverNetwork) => Some(owned("Recuperando la red y verificando el resultado...")),
            _ => None,
        }
    }
}


// ---------------------------------------------------------------- after the caller's work

/// What the caller is asked to write to the catalogue for the domain editor.
#[derive(Debug, Clone, PartialEq, Eq)]
pub enum DomainWrite {
    Add(String),
    Update { original: String, replacement: String },
}

/// `b` shows `route` with the first entry selected and `message`; nothing else shown changed.
pub open spec fn shows(a: MenuSession, b: MenuSession, route: Route, message: Seq<char>) -> bool {
    &&& moved_to(a, b, route, message)
    &&& MenuSession::same_editor(&a, &b)
    &&& b.last_result == a.last_result
}

impl SentinelApp {
    /// Opens the settings view (once the catalogue and the activity were reloaded).
    pub fn show_settings(&self, session: &mut MenuSession)
        ensures
            shows(*old(session), *final(session), Route::Settings, "Ajustes centraliza la administracion del catalogo activo."@),
    {
        session.route = Route::Settings;
        session.selected_index = 0;
        session.last_message = owned("Ajustes centraliza la administracion del catalogo activo.");
    }

    /// Opens the blocked domains view, naming the selected domain.
    pub fn show_blocked_domains(&self, session: &mut MenuSession)
        ensures
            shows(*old(session), *final(session), Route::BlockedDomains, spec_blocked_domain_selection(selected_domain_view(*old(session)))),
    {
        let message = blocked_domain_selection(session.selected_blocked_domain());
        session.route = Route::BlockedDomains;
        session.selected_index = 0;
        session.last_message = message;
    }

    /// Shows why the last change was refused; nothing else changes.
    pub fn show_message(&self, session: &mut MenuSession, message: &str)
        ensures
            only_message(*old(session), *final(session), message@),
    {
        session.last_message = owned(message);
    }

    /// `domain` was removed and the catalogue is now `updated`: the blocked domains view
    /// shows it, with the state recording `bundle`.
    pub fn finish_domain_deleted(&self, session: &mut MenuSession, domain: &str, updated: Vec<String>, bundle: &BlocklistBundle)
        ensures
            final(session).blocked_domains == updated,
            final(session).route == Route::BlockedDomains,
            final(session).selected_index == 0,
            final(session).last_message@ == spec_blocked_domain_deleted(domain@),
            final(session).runtime_state.blocklist_version@ == bundle.version@,
            final(session).runtime_state.blocklist_domain_count == bundle.domain_count,
            final(session).runtime_state.mode == old(session).runtime_state.mode,
            final(session).last_result == old(session).last_result,
            MenuSession::same_editor(old(session), final(session)),
    {
        session.sync_blocked_domains(updated);
        session.runtime_state.refresh_bundle(bundle);
        session.route = Route::BlockedDomains;
        session.selected_index = 0;
        session.last_message = blocked_domain_deleted(domain);
    }

    /// What confirming the domain editor asks to write: the new domain, or the replacement
    /// of the domain being edited. An edit without a domain to replace says so instead.
    pub fn domain_write_request(&self, session: &mut MenuSession, mode: DomainEditorMode) -> (r: Option<DomainWrite>)
        ensures
            match mode {
                DomainEditorMode::Add => r == Some(DomainWrite::Add(old(session).domain_input)) && unchanged(*old(session), *final(session)),
                DomainEditorMode::Edit => match old(session).domain_original {
                    Some(o) => r == Some(DomainWrite::Update { original: o, replacement: old(session).domain_input })
                        && unchanged(*old(session), *final(session)),
                    None => r is None && only_message(*old(session), *final(session), "No hay un dominio base para aplicar la edicion."@),
                },
            },
    {
        match mode {
            DomainEditorMode::Add => Some(DomainWrite::Add(session.domain_input.clone())),
            DomainEditorMode::Edit => match &session.domain_original {
                Some(o) => Some(DomainWrite::Update { original: o.clone(), replacement: session.domain_input.clone() }),
                None => {
                    session.last_message = owned("No hay un dominio base para aplicar la edicion.");
                    None
                },
            },
        }
    }

    /// `domain` was saved (as an edit when `edited`) and the catalogue is now `domains`: the
    /// saved domain, normalized, is selected when listed, the editor is closed, and the
    /// blocked domains view says what was saved. A domain that does not normalize changes
    /// nothing and gives its error.
    pub fn finish_domain_saved(
        &self,
        session: &mut MenuSession,
        domains: Vec<String>,
        edited: bool,
        domain: &str,
        bundle: &BlocklistBundle,
    ) -> (r: Result<(), DomainError>)
        ensures
            match spec_normalize_domain(domain@) {
                Err(e) => r == Err::<(), DomainError>(e) && *final(session) == *old(session),
                Ok(d) => {
                    &&& r is Ok
                    &&& final(session).blocked_domains == domains
                    &&& (crate::text::views(domains@).contains(d) ==> final(session).selected_domain_index < domains@.len()
                        && domains@[final(session).selected_domain_index as int]@ == d)
                    &&& final(session).route == Route::BlockedDomains
                    &&& final(session).selected_index == 0
                    &&& final(session).domain_input@.len() == 0
                    &&& final(session).domain_original is None
                    &&& final(session).last_message@ == spec_blocked_domain_saved(d, edited)
                    &&& final(session).runtime_state.blocklist_version@ == bundle.version@
                    &&& final(session).runtime_state.blocklist_domain_count == bundle.domain_count
                    &&& final(session).last_result == old(session).last_result
                },
            },
    {
        let normalized = match normalize_domain(domain) {
            Ok(d) => d,
            Err(e) => return Err(e),
        };
        session.sync_blocked_domains(domains);
        match crate::storage::blocked_domains::position_of(&session.blocked_domains, normalized.as_str()) {
            Some(index) => {
                session.selected_domain_index = index;
            },
            None => {},
        }
        session.runtime_state.refresh_bundle(bundle);
        session.route = Route::BlockedDomains;
        session.selected_index = 0;
        session.clear_domain_editor();
        session.last_message = blocked_domain_saved(normalized.as_str(), edited);
        Ok(())
    }

    /// The result of enabling: success when the protection is active, a warning with the
    /// state's message (or its summary) otherwise.
    pub fn show_enable_result(&self, session: &mut MenuSession)
        ensures
            final(session).last_result matches Some(res) && if old(session).runtime_state.mode == ProtectionMode::Active {
                &&& res.title@ == "Sentinel activado"@
                &&& res.summary@ == "Sentinel quedo activo con un resultado visible y una ruta clara para continuar."@
                &&& res.next_step@ == "Pulsa Enter para volver al inicio o baja a Salir."@
                &&& res.tone == ResultTone::Success
            } else {
                &&& res.title@ == "Activacion con advertencias"@
                &&& res.summary@ == state_message_or(old(session).runtime_state, old(session).status_summary@)
                &&& res.next_step@ == "Revisa el estado o ejecuta recuperacion desde el inicio antes de seguir."@
                &&& res.tone == ResultTone::Warning
            },
            final(session).route == Route::Result,
            final(session).selected_index == 0,
            final(session).progress_label is None,
            MenuSession::same_data(old(session), final(session)),
            final(session).last_message == old(session).last_message,
    {
        if session.runtime_state.mode == ProtectionMode::Active {
            session.show_result(
                owned("Sentinel activado"),
                owned("Sentinel quedo activo con un resultado visible y una ruta clara para continuar."),
                owned("Pulsa Enter para volver al inicio o baja a Salir."),
                ResultTone::Success,
            );
        } else {
            let summary = message_or_summary(session);
            session.show_result(
                owned("Activacion con advertencias"),
                summary,
                owned("Revisa el estado o ejecuta recuperacion desde el inicio antes de seguir."),
                ResultTone::Warning,
            );
        }
    }

    /// The result of disabling: a warning when the protection is left degraded or
    /// recovering, success otherwise, with the state's message (or its summary).
    pub fn show_disable_result(&self, session: &mut MenuSession)
        ensures
            ({
                let warn = old(session).runtime_state.mode == ProtectionMode::Degraded
                    || old(session).runtime_state.mode == ProtectionMode::Recovering;
                final(session).last_result matches Some(res)
                    && res.title@ == (if warn { "Desactivacion con advertencias"@ } else { "Sentinel desactivado"@ })
                    && res.summary@ == state_message_or(old(session).runtime_state, old(session).status_summary@)
                    && res.next_step@ == "Vuelve al inicio para revisar el estado o salir con una pantalla limpia."@
                    && res.tone == (if warn { ResultTone::Warning } else { ResultTone::Success })
            }),
            final(session).route == Route::Result,
            final(session).selected_index == 0,
            final(session).progress_label is None,
            MenuSession::same_data(old(session), final(session)),
            final(session).last_message == old(session).last_message,
    {
        let warn = session.runtime_state.mode == ProtectionMode::Degraded || session.runtime_state.mode
            == ProtectionMode::Recovering;
        let tone = if warn { ResultTone::Warning } else { ResultTone::Success };
        let title = if warn { owned("Desactivacion con advertencias") } else { owned("Sentinel desactivado") };
        let summary = message_or_summary(session);
        session.show_result(
            title,
            summary,
            owned("Vuelve al inicio para revisar el estado o salir con una pantalla limpia."),
            tone,
        );
    }

    /// The result of a recovery: complete when the verification matched (or, without one,
    /// when the risk is not critical), with warnings otherwise.
    pub fn show_recovery_result(&self, session: &mut MenuSession)
        ensures
            ({
                let st = old(session).runtime_state;
                let ok = match st.last_verification_result {
                    Some(v) => v.matches_snapshot,
                    None => st.risk_level != RiskLevel::Critical,
                };
                final(session).last_result matches Some(res)
                    && res.title@ == (if ok { "Recuperacion completada"@ } else { "Recuperacion con advertencias"@ })
                    && res.summary@ == state_message_or(st, "La recuperacion termino y Sentinel verifico el estado de red."@)
                    && res.next_step@ == "Pulsa Enter para volver al inicio o revisa el estado antes de salir."@
                    && res.tone == (if ok { ResultTone::Success } else { ResultTone::Warning })
            }),
            final(session).route == Route::Result,
            final(session).selected_index == 0,
            final(session).progress_label is None,
            MenuSession::same_data(old(session), final(session)),
            final(session).last_message == old(session).last_message,
    {
        let ok = match &session.runtime_state.last_verification_result {
            Some(v) => v.matches_snapshot,
            None => session.runtime_state.risk_level != RiskLevel::Critical,
        };
        let title = if ok { owned("Recuperacion completada") } else { owned("Recuperacion con advertencias") };
        let tone = if ok { ResultTone::Success } else { ResultTone::Warning };
        let summary = match &session.runtime_state.last_message {
            Some(m) => m.clone(),
            None => owned("La recuperacion termino y Sentinel verifico el estado de red."),
        };
        session.show_result(
            title,
            summary,
            owned("Pulsa Enter para volver al inicio o revisa el estado antes de salir."),
            tone,
        );
    }

    /// The status view after reloading: the (possibly degraded) state and the installation
    /// are shown, with no result and the status message.
    pub fn show_status(&self, session: &mut MenuSession, state: RuntimeState, install: InstallationState)
        ensures
            normalized_state(state, final(session).runtime_state),
            final(session).install_state == install,
            final(session).route == Route::Status,
            final(session).selected_index == 0,
            final(session).last_result is None,
            final(session).last_message@ == "Estado actualizado desde el runtime persistido, seguridad e instalacion."@,
            final(session).blocked_domains == old(session).blocked_domains,
            final(session).block_activity == old(session).block_activity,
            MenuSession::same_editor(old(session), final(session)),
    {
        session.sync_runtime_state(state);
        session.install_state = install;
        session.route = Route::Status;
        session.selected_index = 0;
        session.last_result = None;
        session.last_message = owned("Estado actualizado desde el runtime persistido, seguridad e instalacion.");
    }
}

/// The state's message, or `fallback` when it has none.
pub open spec fn state_message_or(state: RuntimeState, fallback: Seq<char>) -> Seq<char> {
    match state.last_message {
        Some(m) => m@,
        None => fallback,
    }
}

fn message_or_summary(session: &MenuSession) -> (r: String)
    ensures
        r@ == state_message_or(session.runtime_state, session.status_summary@),
{
    match &session.runtime_state.last_message {
        Some(m) => m.clone(),
        None => session.status_summary.clone(),
    }
}

/// When the state says the protection is active with a runtime that is no longer alive, the
/// protection is degraded and critical and says so; otherwise the state is kept.
pub fn mark_runtime_lost(state: &mut RuntimeState, runtime_alive: bool)
    ensures
        old(state).recoverable() ==> final(state).recoverable(),
        (old(state).runtime_pid is Some && old(state).mode == ProtectionMode::Active && !runtime_alive) ==> {
            &&& final(state).mode == ProtectionMode::Degraded
            &&& final(state).risk_level == RiskLevel::Critical
            &&& final(state).status_summary@ == "El runtime local ya no esta sano. Se recomienda recuperar la red."@
            &&& final(state).last_message matches Some(m) && m@ == "Sentinel detecto que el runtime en segundo plano desaparecio. Se recomienda recuperar la red."@
            &&& final(state).runtime_pid == old(state).runtime_pid
            &&& final(state).runtime_addr == old(state).runtime_addr
            &&& final(state).snapshot_id == old(state).snapshot_id
            &&& final(state).last_transition_at == old(state).last_transition_at
            &&& final(state).blocklist_version == old(state).blocklist_version
            &&& final(state).blocklist_domain_count == old(state).blocklist_domain_count
            &&& final(state).last_safety_check == old(state).last_safety_check
            &&& final(state).last_verification_result == old(state).last_verification_result
        },
        !(old(state).runtime_pid is Some && old(state).mode == ProtectionMode::Active && !runtime_alive) ==> *final(state) == *old(state),
{
    if state.runtime_pid.is_some() && state.mode == ProtectionMode::Active && !runtime_alive {
        state.mode = ProtectionMode::Degraded;
        state.risk_level = RiskLevel::Critical;
        state.status_summary = owned("El runtime local ya no esta sano. Se recomienda recuperar la red.");
        state.last_message = Some(
            owned("Sentinel detecto que el runtime en segundo plano desaparecio. Se recomienda recuperar la red."),
        );
    }
}


// ---------------------------------------------------------------- the runtime address

/// The value of a decimal numeral.
pub open spec fn numeral_value(digits: Seq<char>) -> nat
    decreases digits.len(),
{
    if digits.len() == 0 {
        0
    } else {
        (numeral_value(digits.drop_last()) * 10 + (digits.last() as int - '0' as int)) as nat
    }
}

pub open spec fn all_digits(s: Seq<char>) -> bool {
    forall|i: int| 0 <= i < s.len() ==> '0' <= #[trigger] s[i] && s[i] <= '9'
}

/// What std's `u16::from_str` accepts: an optional `+` and at least one decimal digit, the
/// value fitting in 16 bits.
pub open spec fn spec_parse_port(text: Seq<char>) -> Option<u16> {
    let digits = if text.len() > 0 && text[0] == '+' { text.drop_first() } else { text };
    if digits.len() > 0 && all_digits(digits) && numeral_value(digits) <= 65535 {
        Some(numeral_value(digits) as u16)
    } else {
        None
    }
}

/// Reads a port number as std's `u16::from_str` does.
pub fn parse_port(text: &str) -> (r: Option<u16>)
    ensures
        r == spec_parse_port(text@),
{
    let v = chars_of(text);
    let start: usize = if v.len() > 0 && v[0] == '+' { 1 } else { 0 };
    let ghost digits = if text@.len() > 0 && text@[0] == '+' { text@.drop_first() } else { text@ };
    assert(digits =~= v@.subrange(start as int, v@.len() as int));
    if start == v.len() {
        return None;
    }
    let mut value: u32 = 0;
    let mut i = start;
    while i < v.len()
        invariant
            v@ == text@,
            start <= i <= v.len(),
            digits == v@.subrange(start as int, v@.len() as int),
            digits == (if text@.len() > 0 && text@[0] == '+' { text@.drop_first() } else { text@ }),
            all_digits(v@.subrange(start as int, i as int)),
            value as nat == numeral_value(v@.subrange(start as int, i as int)),
            value <= 65535,
        decreases v.len() - i,
    {
        let c = v[i];
        let ghost prefix = v@.subrange(start as int, i + 1);
        assert(prefix.drop_last() =~= v@.subrange(start as int, i as int));
        if !('0' <= c && c <= '9') {
            assert(!all_digits(digits)) by {
                assert(digits[i - start] == c);
            }
            return None;
        }
        let d: u32 = (c as u32) - ('0' as u32);
        let next: u32 = value * 10 + d;
        assert(numeral_value(prefix) == numeral_value(v@.subrange(start as int, i as int)) * 10 + (c as int - '0' as int));
        if next > 65535 {
            proof {
                if all_digits(digits) {
                    lemma_numeral_grows(digits, i + 1 - start);
                    assert(digits.take(i + 1 - start) =~= prefix);
                }
            }
            return None;
        }
        value = next;
        i += 1;
    }
    assert(v@.subrange(start as int, v@.len() as int) =~= digits);
    Some(value as u16)
}

/// A longer prefix of a numeral is worth at least as much.
proof fn lemma_numeral_grows(digits: Seq<char>, k: int)
    requires
        0 <= k <= digits.len(),
        all_digits(digits),
    ensures
        numeral_value(digits.take(k)) <= numeral_value(digits),
    decreases digits.len() - k,
{
    if k < digits.len() {
        lemma_numeral_grows(digits, k + 1);
        assert(digits.take(k + 1).drop_last() =~= digits.take(k));
        assert(digits.take(k + 1).last() == digits[k]);
    } else {
        assert(digits.take(k) =~= digits);
    }
}

/// The address the local resolver listens on: `bind` (the loopback address when unset)
/// and the port (53 when unset or not a valid port).
pub fn runtime_addr_text(bind: Option<String>, port: Option<String>) -> (r: String)
    ensures
        r@ == (match bind { Some(b) => b@, None => "127.0.0.1"@ }) + ":"@ + crate::text::decimal(
            (match port {
                Some(p) => match spec_parse_port(p@) {
                    Some(n) => n,
                    None => 53u16,
                },
                None => 53u16,
            }) as nat,
        ),
{
    let port_number: u16 = match &port {
        Some(p) => match parse_port(p.as_str()) {
            Some(n) => n,
            None => 53,
        },
        None => 53,
    };
    let host = match bind {
        Some(b) => b,
        None => owned("127.0.0.1"),
    };
    let digits = crate::text::usize_to_string(port_number as usize);
    concat3(host.as_str(), ":", digits.as_str())
}

} // verus!
