//! The safety checks that must pass before Sentinel changes the network.
use vstd::prelude::*;

use crate::app::AppPaths;
use crate::blocking::blocklist::BlocklistBundle;
use crate::storage::state::{SafetyCheckSummary, SafetyStatus};
use crate::text::{concat3, decimal, owned, usize_to_string, views};

verus! {

/// Runs the safety checks for one blocklist.
pub struct SafetyController<'a> {
    pub paths: &'a AppPaths,
    pub blocklist: &'a BlocklistBundle,
}

pub open spec fn no_services_issue() -> Seq<char> {
    "No se detectaron servicios de red activos en macOS."@
}

pub open spec fn integrity_issue() -> Seq<char> {
    "El bloqueador incluido no paso la validacion de integridad."@
}

pub open spec fn port_busy_issue(port: u16) -> Seq<char> {
    "El puerto DNS local "@ + decimal(port as nat) + " ya esta en uso por otro proceso."@
}

pub open spec fn custom_dns_issue() -> Seq<char> {
    "Se detectaron DNS personalizados; Sentinel los preservara con un snapshot recuperable."@
}

/// Some check failed outright: no services, a blocklist that failed its integrity check, or
/// a busy DNS port.
pub open spec fn blocking_failure(no_services: bool, integrity_ok: bool, runtime_busy: bool) -> bool {
    no_services || !integrity_ok || runtime_busy
}

/// The issues found, in the order the checks run. Custom DNS is only looked for when no
/// check failed.
pub open spec fn spec_issues(
    no_services: bool,
    integrity_ok: bool,
    runtime_busy: bool,
    port: u16,
    custom_dns: bool,
) -> Seq<Seq<char>> {
    let a = if no_services { seq![no_services_issue()] } else { Seq::empty() };
    let b = if !integrity_ok { seq![integrity_issue()] } else { Seq::empty() };
    let c = if runtime_busy { seq![port_busy_issue(port)] } else { Seq::empty() };
    let d = if !blocking_failure(no_services, integrity_ok, runtime_busy) && custom_dns {
        seq![custom_dns_issue()]
    } else {
        Seq::empty()
    };
    a + b + c + d
}

pub open spec fn spec_status(no_services: bool, integrity_ok: bool, runtime_busy: bool, custom_dns: bool) -> SafetyStatus {
    if blocking_failure(no_services, integrity_ok, runtime_busy) {
        SafetyStatus::Fail
    } else if custom_dns {
        SafetyStatus::Warn
    } else {
        SafetyStatus::Pass
    }
}

/// What to do next, for the verdict and the first failing reason among a busy port, no
/// services and a failed integrity check.
pub open spec fn spec_recommended_action(
    status: SafetyStatus,
    no_services: bool,
    integrity_ok: bool,
    runtime_busy: bool,
    port: u16,
) -> Seq<char> {
    match status {
        SafetyStatus::Pass => "Los chequeos aprobaron. Puedes activar la proteccion de forma segura."@,
        SafetyStatus::Warn => "Los chequeos aprobaron con precauciones. Revisa la nota antes de confirmar."@,
        SafetyStatus::Fail => if runtime_busy {
            "Libera el puerto DNS local "@ + decimal(port as nat)
                + " o deten el proceso que lo usa antes de activar Sentinel."@
        } else if no_services {
            "No hay servicios de red activos. Conecta la red y vuelve a ejecutar el chequeo."@
        } else if !integrity_ok {
            "El bloqueador no paso la validacion de integridad. Reinstala Sentinel o actualiza sus archivos antes de continuar."@
        } else {
            "Corrige el problema detectado o recupera la red antes de cambiarla."@
        },
    }
}

/// The local DNS port conflicts with something: a conflict is simulated, or (on the real
/// platform) the port is taken and the runtime recorded in the state is not alive.
pub fn runtime_conflict(simulated_busy: bool, fake_mode: bool, port_available: bool, recorded_runtime_alive: bool) -> (b: bool)
    ensures
        b == (simulated_busy || (!fake_mode && !port_available && !recorded_runtime_alive)),
{
    simulated_busy || (!fake_mode && !port_available && !recorded_runtime_alive)
}

/// A conflict that could not be cleared by reclaiming the port leaves it busy.
pub fn runtime_busy(conflict: bool, reclaimed: bool) -> (b: bool)
    ensures
        b == (conflict && !reclaimed),
{
    conflict && !reclaimed
}

/// The checks allow a network change (the verdict is not `Fail`) exactly when a network
/// service is active, the blocklist passed its integrity check and the local DNS port is free;
/// they pass without reservation exactly when, besides, no custom DNS was found. A blocklist
/// that failed its integrity check is always reported as an issue and always fails the checks;
/// with a service active and the port free, the recommended action is then to reinstall.
pub proof fn lemma_safety_verdict(no_services: bool, integrity_ok: bool, runtime_busy: bool, port: u16, custom_dns: bool)
    ensures
        (spec_status(no_services, integrity_ok, runtime_busy, custom_dns) != SafetyStatus::Fail)
            <==> (!no_services && integrity_ok && !runtime_busy),
        (spec_status(no_services, integrity_ok, runtime_busy, custom_dns) == SafetyStatus::Pass)
            <==> (!no_services && integrity_ok && !runtime_busy && !custom_dns),
        !integrity_ok ==> spec_status(no_services, integrity_ok, runtime_busy, custom_dns) == SafetyStatus::Fail,
        !integrity_ok ==> spec_issues(no_services, integrity_ok, runtime_busy, port, custom_dns).contains(integrity_issue()),
        (!integrity_ok && !no_services && !runtime_busy) ==> spec_recommended_action(
            spec_status(no_services, integrity_ok, runtime_busy, custom_dns),
            no_services,
            integrity_ok,
            runtime_busy,
            port,
        ) == "El bloqueador no paso la validacion de integridad. Reinstala Sentinel o actualiza sus archivos antes de continuar."@,
{
    if !integrity_ok {
        let a = if no_services { seq![no_services_issue()] } else { Seq::<Seq<char>>::empty() };
        let issues = spec_issues(no_services, integrity_ok, runtime_busy, port, custom_dns);
        assert(issues[a.len() as int] == integrity_issue());
    }
}

impl<'a> SafetyController<'a> {
    pub fn new(paths: &'a AppPaths, blocklist: &'a BlocklistBundle) -> (r: SafetyController<'a>)
        ensures
            r.paths == paths,
            r.blocklist == blocklist,
    {
        SafetyController { paths, blocklist }
    }

    /// The checks have failed before custom DNS is looked at; when they have, custom DNS is
    /// not looked for.
    pub fn fails_before_dns_probe(&self, services: &Vec<String>, runtime_busy: bool) -> (b: bool)
        ensures
            b == blocking_failure(services@.len() == 0, self.blocklist.integrity_state, runtime_busy),
    {
        services.len() == 0 || !self.blocklist.integrity_state || runtime_busy
    }

    /// The verdict of the safety checks, from what was observed: the active network
    /// services, whether the local DNS port `runtime_port` is busy, and whether any service
    /// has custom DNS (looked at only when nothing failed before).
    pub fn run_checks(
        &self,
        services: &Vec<String>,
        runtime_port: u16,
        runtime_busy: bool,
        custom_dns_found: bool,
    ) -> (r: SafetyCheckSummary)
        ensures
            ({
                let no_services = services@.len() == 0;
                let integrity_ok = self.blocklist.integrity_state;
                let status = spec_status(no_services, integrity_ok, runtime_busy, custom_dns_found);
                &&& r.status == status
                &&& views(r.issues@) == spec_issues(no_services, integrity_ok, runtime_busy, runtime_port, custom_dns_found)
                &&& r.connectivity_ready == (status != SafetyStatus::Fail)
                &&& r.recovery_ready == !no_services
                &&& r.recommended_action@ == spec_recommended_action(status, no_services, integrity_ok, runtime_busy, runtime_port)
                &&& r.detected_custom_dns == (!blocking_failure(no_services, integrity_ok, runtime_busy) && custom_dns_found)
                &&& r.verification_target matches Some(t) && t@ == "snapshot original de DNS por servicio"@
            }),
            r.connectivity_ready <==> (services@.len() > 0 && self.blocklist.integrity_state && !runtime_busy),
            r.status == SafetyStatus::Pass
                <==> (services@.len() > 0 && self.blocklist.integrity_state && !runtime_busy && !custom_dns_found),
            !self.blocklist.integrity_state ==> r.status == SafetyStatus::Fail && !r.connectivity_ready
                && views(r.issues@).contains(integrity_issue()),
            r.check_id@.len() == 36,
            r.timestamp.wf(),
    {
        proof {
            lemma_safety_verdict(
                services@.len() == 0,
                self.blocklist.integrity_state,
                runtime_busy,
                runtime_port,
                custom_dns_found,
            );
        }
        let no_services = services.len() == 0;
        let integrity_ok = self.blocklist.integrity_state;
        let ghost spec_issue_list = spec_issues(no_services, integrity_ok, runtime_busy, runtime_port, custom_dns_found);
        let mut issues: Vec<String> = Vec::new();
        let mut status = SafetyStatus::Pass;
        let mut detected_custom_dns = false;
        if no_services {
            issues.push(owned("No se detectaron servicios de red activos en macOS."));
            status = SafetyStatus::Fail;
        }
        if !integrity_ok {
            issues.push(owned("El bloqueador incluido no paso la validacion de integridad."));
            status = SafetyStatus::Fail;
        }
        let port_text = usize_to_string(runtime_port as usize);
        if runtime_busy {
            issues.push(concat3("El puerto DNS local ", port_text.as_str(), " ya esta en uso por otro proceso."));
            status = SafetyStatus::Fail;
        }
        if status != SafetyStatus::Fail && custom_dns_found {
            detected_custom_dns = true;
            issues.push(
                owned("Se detectaron DNS personalizados; Sentinel los preservara con un snapshot recuperable."),
            );
            status = SafetyStatus::Warn;
        }
        proof {
            assert(views(issues@) =~= spec_issue_list);
        }
        let connectivity_ready = status != SafetyStatus::Fail;
        let recovery_ready = !no_services;
        let recommended_action = match status {
            SafetyStatus::Pass => owned("Los chequeos aprobaron. Puedes activar la proteccion de forma segura."),
            SafetyStatus::Warn => owned("Los chequeos aprobaron con precauciones. Revisa la nota antes de confirmar."),
            SafetyStatus::Fail => if runtime_busy {
                concat3(
                    "Libera el puerto DNS local ",
                    port_text.as_str(),
                    " o deten el proceso que lo usa antes de activar Sentinel.",
                )
            } else if no_services {
                owned("No hay servicios de red activos. Conecta la red y vuelve a ejecutar el chequeo.")
            } else if !integrity_ok {
                owned(
                    "El bloqueador no paso la validacion de integridad. Reinstala Sentinel o actualiza sus archivos antes de continuar.",
                )
            } else {
                owned("Corrige el problema detectado o recupera la red antes de cambiarla.")
            },
        };
        let mut summary = SafetyCheckSummary::new(status, connectivity_ready, recovery_ready, issues, recommended_action);
        summary.detected_custom_dns = detected_custom_dns;
        summary.verification_target = Some(owned("snapshot original de DNS por servicio"));
        summary
    }
}

} // verus!
