//! The texts of the interactive session.
use vstd::prelude::*;

use crate::install::version::{current_version, spec_current_version};
use crate::storage::events::BlockActivitySummary;
use crate::storage::state::ProtectionMode;
use crate::text::{concat, concat3, decimal, join, join_strings, owned, write_decimal};

use super::navigation::{ConfirmationAction, DomainEditorMode, LogScope, MenuActionId, Route};

verus! {

/// `Version ` followed by the running version.
pub fn app_subtitle() -> (s: String)
    ensures
        s@ == "Version "@ + spec_current_version(),
{
    concat("Version ", current_version())
}

pub open spec fn spec_route_title(route: Route) -> Seq<char> {
    match route {
        Route::Home => "Inicio"@,
        Route::Settings => "Ajustes"@,
        Route::BlockedDomains => "Dominios bloqueados"@,
        Route::BlockedDomainEditor(DomainEditorMode::Add) => "Agregar dominio bloqueado"@,
        Route::BlockedDomainEditor(DomainEditorMode::Edit) => "Editar dominio bloqueado"@,
        Route::Safety => "Chequeos de seguridad"@,
        Route::Status => "Estado de Sentinel"@,
        Route::Logs(LogScope::Safety) => "Logs del chequeo"@,
        Route::Logs(LogScope::Status) => "Logs de Sentinel"@,
        Route::Recovery => "Recuperacion"@,
        Route::Confirm(_) => "Confirmacion"@,
        Route::Progress => "Procesando"@,
        Route::Result => "Resultado"@,
        Route::Exit => "Salida"@,
    }
}

/// The title of a view.
pub fn route_title(route: Route) -> (s: &'static str)
    ensures
        s@ == spec_route_title(route),
{
    match route {
        Route::Home => "Inicio",
        Route::Settings => "Ajustes",
        Route::BlockedDomains => "Dominios bloqueados",
        Route::BlockedDomainEditor(DomainEditorMode::Add) => "Agregar dominio bloqueado",
        Route::BlockedDomainEditor(DomainEditorMode::Edit) => "Editar dominio bloqueado",
        Route::Safety => "Chequeos de seguridad",
        Route::Status => "Estado de Sentinel",
        Route::Logs(LogScope::Safety) => "Logs del chequeo",
        Route::Logs(LogScope::Status) => "Logs de Sentinel",
        Route::Recovery => "Recuperacion",
        Route::Confirm(_) => "Confirmacion",
        Route::Progress => "Procesando",
        Route::Result => "Resultado",
        Route::Exit => "Salida",
    }
}

pub open spec fn spec_intro_text(route: Route, mode: ProtectionMode) -> Seq<char> {
    match route {
        Route::Home => if mode == ProtectionMode::Degraded || mode == ProtectionMode::Recovering {
            "Sentinel detecto un estado sensible. Puedes priorizar la recuperacion o revisar el estado antes de hacer nuevos cambios."@
        } else {
            "Cada accion principal abre una vista independiente y mantiene el inicio limpio."@
        },
        Route::Settings => "Administra el catalogo activo de dominios bloqueados sin salir del flujo guiado."@,
        Route::BlockedDomains => "Revisa la lista vigente, mueve la seleccion actual y administra sus cambios desde esta vista."@,
        Route::BlockedDomainEditor(DomainEditorMode::Add) => "Escribe el dominio que quieres agregar al catalogo activo."@,
        Route::BlockedDomainEditor(DomainEditorMode::Edit) => "Edita el dominio seleccionado y confirma para reemplazarlo en la lista activa."@,
        Route::Safety => "Revisa si el equipo esta listo para cambiar la proteccion sin comprometer conectividad."@,
        Route::Status => "Consulta el estado actual de Sentinel y la actividad reciente de bloqueo en una vista mas enfocada."@,
        Route::Logs(LogScope::Safety) => "Revisa los eventos exactos del ultimo chequeo para diagnosticar fallos y decidir el siguiente paso."@,
        Route::Logs(LogScope::Status) => "Revisa los eventos recientes de Sentinel con su severidad, momento y mensaje exacto."@,
        Route::Recovery => "Usa esta vista para recuperar la red o revisar el estado cuando Sentinel detecta un problema."@,
        Route::Confirm(_) => "Esta accion puede modificar o restaurar la red. Confirma solo si deseas continuar."@,
        Route::Progress => "Sentinel esta ejecutando la accion solicitada."@,
        Route::Result => "Revisa el resultado antes de volver al inicio o salir."@,
        Route::Exit => "La sesion interactiva termino sin dejar texto residual."@,
    }
}

/// The introduction of a view; on home it depends on whether the mode is sensitive.
pub fn intro_text(route: Route, mode: ProtectionMode) -> (s: &'static str)
    ensures
        s@ == spec_intro_text(route, mode),
{
    match route {
        Route::Home => {
            if mode == ProtectionMode::Degraded || mode == ProtectionMode::Recovering {
                "Sentinel detecto un estado sensible. Puedes priorizar la recuperacion o revisar el estado antes de hacer nuevos cambios."
            } else {
                "Cada accion principal abre una vista independiente y mantiene el inicio limpio."
            }
        },
        Route::Settings => "Administra el catalogo activo de dominios bloqueados sin salir del flujo guiado.",
        Route::BlockedDomains => "Revisa la lista vigente, mueve la seleccion actual y administra sus cambios desde esta vista.",
        Route::BlockedDomainEditor(DomainEditorMode::Add) => "Escribe el dominio que quieres agregar al catalogo activo.",
        Route::BlockedDomainEditor(DomainEditorMode::Edit) => "Edita el dominio seleccionado y confirma para reemplazarlo en la lista activa.",
        Route::Safety => "Revisa si el equipo esta listo para cambiar la proteccion sin comprometer conectividad.",
        Route::Status => "Consulta el estado actual de Sentinel y la actividad reciente de bloqueo en una vista mas enfocada.",
        Route::Logs(LogScope::Safety) => "Revisa los eventos exactos del ultimo chequeo para diagnosticar fallos y decidir el siguiente paso.",
        Route::Logs(LogScope::Status) => "Revisa los eventos recientes de Sentinel con su severidad, momento y mensaje exacto.",
        Route::Recovery => "Usa esta vista para recuperar la red o revisar el estado cuando Sentinel detecta un problema.",
        Route::Confirm(_) => "Esta accion puede modificar o restaurar la red. Confirma solo si deseas continuar.",
        Route::Progress => "Sentinel esta ejecutando la accion solicitada.",
        Route::Result => "Revisa el resultado antes de volver al inicio o salir.",
        Route::Exit => "La sesion interactiva termino sin dejar texto residual.",
    }
}

pub open spec fn spec_footer_hint(route: Route) -> Seq<char> {
    match route {
        Route::Progress => "Espera a que termine la operacion."@,
        Route::BlockedDomainEditor(_) => "Escribe el dominio, usa Backspace para borrar, Enter para guardar, Esc para cancelar y q para salir."@,
        Route::Home | Route::Recovery | Route::Confirm(_) | Route::Result => "Usa ↑/↓ para navegar, Enter para confirmar, Esc para volver y q para salir."@,
        _ => "Usa ↑/↓ para elegir, Enter para continuar, Esc para volver y q para salir."@,
    }
}

/// The key hint shown at the foot of a view.
pub fn footer_hint(route: Route) -> (s: &'static str)
    ensures
        s@ == spec_footer_hint(route),
{
    match route {
        Route::Progress => "Espera a que termine la operacion.",
        Route::BlockedDomainEditor(_) => "Escribe el dominio, usa Backspace para borrar, Enter para guardar, Esc para cancelar y q para salir.",
        Route::Home | Route::Recovery | Route::Confirm(_) | Route::Result => "Usa ↑/↓ para navegar, Enter para confirmar, Esc para volver y q para salir.",
        _ => "Usa ↑/↓ para elegir, Enter para continuar, Esc para volver y q para salir.",
    }
}

pub open spec fn spec_action_label(action: MenuActionId, mode: ProtectionMode) -> Seq<char> {
    match action {
        MenuActionId::ToggleProtection => if mode == ProtectionMode::Active {
            "Desactivar Sentinel"@
        } else {
            "Activar Sentinel"@
        },
        MenuActionId::ViewStatus => "Ver estado de Sentinel"@,
        MenuActionId::OpenSettings => "Ajustes"@,
        MenuActionId::ViewBlockedDomains => "Dominios bloqueados"@,
        MenuActionId::AddBlockedDomain => "Agregar dominio"@,
        MenuActionId::EditBlockedDomain => "Editar dominio seleccionado"@,
        MenuActionId::DeleteBlockedDomain => "Eliminar dominio seleccionado"@,
        MenuActionId::SelectNextBlockedDomain => "Siguiente dominio"@,
        MenuActionId::SelectPreviousBlockedDomain => "Dominio anterior"@,
        MenuActionId::ViewLogs => "Logs"@,
        MenuActionId::RecoverNetwork => "Recuperar red"@,
        MenuActionId::BackToPrevious => "Volver a la vista anterior"@,
        MenuActionId::BackSettings => "Volver a Ajustes"@,
        MenuActionId::BackHome => "Volver al inicio"@,
        MenuActionId::Exit => "Salir de Sentinel"@,
        MenuActionId::Confirm => "Confirmar accion"@,
        MenuActionId::Cancel => "Cancelar y volver"@,
    }
}

/// The label of a menu action; the toggle reads "disable" exactly when the mode is active.
pub fn action_label(action: MenuActionId, mode: ProtectionMode) -> (s: String)
    ensures
        s@ == spec_action_label(action, mode),
{
    owned(
        match action {
            MenuActionId::ToggleProtection => {
                if mode == ProtectionMode::Active {
                    "Desactivar Sentinel"
                } else {
                    "Activar Sentinel"
                }
            },
            MenuActionId::ViewStatus => "Ver estado de Sentinel",
            MenuActionId::OpenSettings => "Ajustes",
            MenuActionId::ViewBlockedDomains => "Dominios bloqueados",
            MenuActionId::AddBlockedDomain => "Agregar dominio",
            MenuActionId::EditBlockedDomain => "Editar dominio seleccionado",
            MenuActionId::DeleteBlockedDomain => "Eliminar dominio seleccionado",
            MenuActionId::SelectNextBlockedDomain => "Siguiente dominio",
            MenuActionId::SelectPreviousBlockedDomain => "Dominio anterior",
            MenuActionId::ViewLogs => "Logs",
            MenuActionId::RecoverNetwork => "Recuperar red",
            MenuActionId::BackToPrevious => "Volver a la vista anterior",
            MenuActionId::BackSettings => "Volver a Ajustes",
            MenuActionId::BackHome => "Volver al inicio",
            MenuActionId::Exit => "Salir de Sentinel",
            MenuActionId::Confirm => "Confirmar accion",
            MenuActionId::Cancel => "Cancelar y volver",
        },
    )
}

pub open spec fn spec_action_description(action: MenuActionId, mode: ProtectionMode) -> Seq<char> {
    match action {
        MenuActionId::ToggleProtection => if mode == ProtectionMode::Active {
            "Restaura la configuracion original y detiene Sentinel."@
        } else {
            "Inicia Sentinel y activa el bloqueo DNS local con snapshot recuperable."@
        },
        MenuActionId::ViewStatus => "Muestra el estado actual de Sentinel, su runtime, el snapshot y la instalacion."@,
        MenuActionId::OpenSettings => "Abre opciones de administracion para el catalogo activo de dominios bloqueados."@,
        MenuActionId::ViewBlockedDomains => "Lista y administra los dominios que Sentinel bloquea actualmente."@,
        MenuActionId::AddBlockedDomain => "Escribe un nuevo dominio para incluirlo en el catalogo activo."@,
        MenuActionId::EditBlockedDomain => "Edita el dominio actualmente seleccionado en la lista vigente."@,
        MenuActionId::DeleteBlockedDomain => "Elimina el dominio seleccionado del catalogo activo."@,
        MenuActionId::SelectNextBlockedDomain => "Mueve la seleccion al siguiente dominio visible."@,
        MenuActionId::SelectPreviousBlockedDomain => "Mueve la seleccion al dominio anterior visible."@,
        MenuActionId::ViewLogs => "Abre una vista independiente con logs exactos de eventos y errores."@,
        MenuActionId::RecoverNetwork => "Intenta restaurar la red y verificar que coincide con el snapshot original."@,
        MenuActionId::BackToPrevious => "Regresa a la vista anterior sin perder el contexto actual."@,
        MenuActionId::BackSettings => "Vuelve a Ajustes sin perder el catalogo actual."@,
        MenuActionId::BackHome => "Vuelve al inicio limpio para elegir otra accion."@,
        MenuActionId::Exit => "Cierra la sesion interactiva actual."@,
        MenuActionId::Confirm => "Ejecuta la accion sensible seleccionada."@,
        MenuActionId::Cancel => "Detiene esta accion sensible sin aplicar cambios."@,
    }
}

/// The description of a menu action; the toggle's depends on whether the mode is active.
pub fn action_description(action: MenuActionId, mode: ProtectionMode) -> (s: String)
    ensures
        s@ == spec_action_description(action, mode),
{
    owned(
        match action {
            MenuActionId::ToggleProtection => {
                if mode == ProtectionMode::Active {
                    "Restaura la configuracion original y detiene Sentinel."
                } else {
                    "Inicia Sentinel y activa el bloqueo DNS local con snapshot recuperable."
                }
            },
            MenuActionId::ViewStatus => "Muestra el estado actual de Sentinel, su runtime, el snapshot y la instalacion.",
            MenuActionId::OpenSettings => "Abre opciones de administracion para el catalogo activo de dominios bloqueados.",
            MenuActionId::ViewBlockedDomains => "Lista y administra los dominios que Sentinel bloquea actualmente.",
            MenuActionId::AddBlockedDomain => "Escribe un nuevo dominio para incluirlo en el catalogo activo.",
            MenuActionId::EditBlockedDomain => "Edita el dominio actualmente seleccionado en la lista vigente.",
            MenuActionId::DeleteBlockedDomain => "Elimina el dominio seleccionado del catalogo activo.",
            MenuActionId::SelectNextBlockedDomain => "Mueve la seleccion al siguiente dominio visible.",
            MenuActionId::SelectPreviousBlockedDomain => "Mueve la seleccion al dominio anterior visible.",
            MenuActionId::ViewLogs => "Abre una vista independiente con logs exactos de eventos y errores.",
            MenuActionId::RecoverNetwork => "Intenta restaurar la red y verificar que coincide con el snapshot original.",
            MenuActionId::BackToPrevious => "Regresa a la vista anterior sin perder el contexto actual.",
            MenuActionId::BackSettings => "Vuelve a Ajustes sin perder el catalogo actual.",
            MenuActionId::BackHome => "Vuelve al inicio limpio para elegir otra accion.",
            MenuActionId::Exit => "Cierra la sesion interactiva actual.",
            MenuActionId::Confirm => "Ejecuta la accion sensible seleccionada.",
            MenuActionId::Cancel => "Detiene esta accion sensible sin aplicar cambios.",
        },
    )
}

pub open spec fn spec_confirmation_heading(action: ConfirmationAction) -> Seq<char> {
    match action {
        ConfirmationAction::EnableProtection => "Activar Sentinel"@,
        ConfirmationAction::DisableProtection => "Desactivar Sentinel"@,
        ConfirmationAction::RecoverNetwork => "Recuperar red"@,
    }
}

/// The heading of a confirmation.
pub fn confirmation_heading(action: ConfirmationAction) -> (s: &'static str)
    ensures
        s@ == spec_confirmation_heading(action),
{
    match action {
        ConfirmationAction::EnableProtection => "Activar Sentinel",
        ConfirmationAction::DisableProtection => "Desactivar Sentinel",
        ConfirmationAction::RecoverNetwork => "Recuperar red",
    }
}

/// Shown when no domain is listed.
pub fn blocked_domains_empty_state() -> (s: &'static str)
    ensures
        s@ == "No hay dominios bloqueados configurados todavia."@,
{
    "No hay dominios bloqueados configurados todavia."
}

pub open spec fn spec_blocked_domain_deleted(domain: Seq<char>) -> Seq<char> {
    "Se elimino `"@ + domain + "` del catalogo activo."@
}

/// Confirms that a domain was removed.
pub fn blocked_domain_deleted(domain: &str) -> (s: String)
    ensures
        s@ == spec_blocked_domain_deleted(domain@),
{
    concat3("Se elimino `", domain, "` del catalogo activo.")
}

pub open spec fn spec_blocked_domain_saved(domain: Seq<char>, edited: bool) -> Seq<char> {
    if edited {
        "El dominio seleccionado ahora se guarda como `"@ + domain + "`."@
    } else {
        "Se agrego `"@ + domain + "` al catalogo activo."@
    }
}

/// Confirms that a domain was saved, as an edit or as an addition.
pub fn blocked_domain_saved(domain: &str, edited: bool) -> (s: String)
    ensures
        s@ == spec_blocked_domain_saved(domain@, edited),
{
    if edited {
        concat3("El dominio seleccionado ahora se guarda como `", domain, "`.")
    } else {
        concat3("Se agrego `", domain, "` al catalogo activo.")
    }
}

pub open spec fn spec_blocked_domain_selection(domain: Option<Seq<char>>) -> Seq<char> {
    match domain {
        Some(d) => "Dominio seleccionado: "@ + d,
        None => "No hay un dominio seleccionable todavia."@,
    }
}

/// Names the selected domain, or says that none can be selected.
pub fn blocked_domain_selection(domain: Option<&str>) -> (s: String)
    ensures
        s@ == spec_blocked_domain_selection(
            match domain {
                Some(d) => Some(d@),
                None => None,
            },
        ),
{
    match domain {
        Some(d) => concat("Dominio seleccionado: ", d),
        None => owned("No hay un dominio seleccionable todavia."),
    }
}

pub open spec fn spec_blocked_domain_editor_hint(mode: DomainEditorMode, original: Option<Seq<char>>) -> Seq<char> {
    match mode {
        DomainEditorMode::Add => "Escribe un dominio nuevo y pulsa Enter para guardarlo."@,
        DomainEditorMode::Edit => match original {
            Some(d) => "Edita `"@ + d + "` y pulsa Enter para reemplazarlo."@,
            None => "Edita el dominio actual y pulsa Enter para guardarlo."@,
        },
    }
}

/// The hint of the domain editor.
pub fn blocked_domain_editor_hint(mode: DomainEditorMode, original: Option<&str>) -> (s: String)
    ensures
        s@ == spec_blocked_domain_editor_hint(
            mode,
            match original {
                Some(d) => Some(d@),
                None => None,
            },
        ),
{
    match (mode, original) {
        (DomainEditorMode::Add, _) => owned("Escribe un dominio nuevo y pulsa Enter para guardarlo."),
        (DomainEditorMode::Edit, Some(domain)) => concat3(
            "Edita `",
            domain,
            "` y pulsa Enter para reemplazarlo.",
        ),
        (DomainEditorMode::Edit, None) => owned("Edita el dominio actual y pulsa Enter para guardarlo."),
    }
}

/// Shown where there is no blocking data.
pub fn block_activity_empty_value() -> (s: &'static str)
    ensures
        s@ == "Sin datos"@,
{
    "Sin datos"
}

/// `domain (count)`.
pub open spec fn count_entry(entry: (String, usize)) -> Seq<char> {
    entry.0@ + " ("@ + decimal(entry.1 as nat) + ")"@
}

pub open spec fn spec_top_blocked_domains_label(top: Seq<(String, usize)>) -> Seq<char> {
    if top.len() == 0 {
        "Sin datos"@
    } else {
        join(top.take(if top.len() < 3 { top.len() as int } else { 3 }).map_values(|e: (String, usize)| count_entry(e)), ", "@)
    }
}

/// The first three most blocked domains with their counts, or `Sin datos`.
pub fn top_blocked_domains_label(summary: &BlockActivitySummary) -> (s: String)
    ensures
        s@ == spec_top_blocked_domains_label(summary.top_blocked_domains@),
{
    let top = &summary.top_blocked_domains;
    if top.len() == 0 {
        return owned(block_activity_empty_value());
    }
    let n: usize = if top.len() < 3 { top.len() } else { 3 };
    let mut parts: Vec<String> = Vec::new();
    for i in 0..n
        invariant
            n <= top@.len(),
            parts@.len() == i,
            forall|k: int| 0 <= k < i ==> #[trigger] parts@[k]@ == count_entry(top@[k]),
    {
        let mut entry = top[i].0.clone();
        entry.append(" (");
        write_decimal(&mut entry, top[i].1);
        entry.append(")");
        parts.push(entry);
    }
    let s = join_strings(parts.as_slice(), ", ");
    assert(crate::text::views(parts@) =~= top@.take(n as int).map_values(
        |e: (String, usize)| count_entry(e),
    ));
    s
}

} // verus!
