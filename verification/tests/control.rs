use sentinel::blocking::blocklist::BlocklistBundle;
use sentinel::clock::Timestamp;
use sentinel::control::activation::{
    already_active, begin_activation, begin_deactivation, block_activation, complete_activation,
    deactivation_without_snapshot, fail_activation, finish_deactivation, local_dns_servers,
    safety_allows_activation,
};
use sentinel::control::recovery::{apply_recovery, choose_snapshot, NetworkRecoverySnapshot, RecoveryError};
use sentinel::control::safety::{runtime_busy, runtime_conflict, SafetyController};
use sentinel::control::snapshot::{verify_against, NetworkServiceSnapshot, NetworkSnapshot};
use sentinel::app::AppPaths;
use sentinel::platform::macos::{applied_servers, parse_dns_servers, parse_service_list, set_dns_args};
use sentinel::storage::events::{EventKind, Severity};
use sentinel::storage::state::{ProtectionMode, RestoreVerification, RiskLevel, RuntimeState, SafetyStatus};

fn paths() -> AppPaths {
    AppPaths {
        state_dir: "/tmp/sentinel/state".to_string(),
        snapshots_dir: "/tmp/sentinel/state/snapshots".to_string(),
        blocklist_file: "/tmp/sentinel/data/blocklist.txt".to_string(),
        config_file: "/tmp/sentinel/config/config.toml".to_string(),
        state_file: "/tmp/sentinel/state/state.json".to_string(),
        events_file: "/tmp/sentinel/state/events.jsonl".to_string(),
        install_file: "/tmp/sentinel/data/install.json".to_string(),
    }
}

fn bundle(count: usize) -> BlocklistBundle {
    let raw: String = (0..count).map(|i| format!("ads{i}.example.com\n")).collect();
    BlocklistBundle::parse(&raw, Timestamp { secs: 0, nanos: 0 }, "test".to_string()).unwrap()
}

fn services(names: &[&str]) -> Vec<String> {
    names.iter().map(|s| s.to_string()).collect()
}

#[test]
fn safety_passes_with_services_and_a_sound_blocklist() {
    let p = paths();
    let b = bundle(60);
    let checks = SafetyController::new(&p, &b).run_checks(&services(&["Wi-Fi"]), 53, false, false);
    assert_eq!(checks.status, SafetyStatus::Pass);
    assert!(checks.connectivity_ready && checks.recovery_ready);
    assert!(checks.issues.is_empty());
    assert_eq!(checks.recommended_action, "Los chequeos aprobaron. Puedes activar la proteccion de forma segura.");
    assert_eq!(checks.verification_target.as_deref(), Some("snapshot original de DNS por servicio"));
    assert_eq!(checks.check_id.len(), 36);
}

#[test]
fn custom_dns_gives_a_warning() {
    let p = paths();
    let b = bundle(60);
    let checks = SafetyController::new(&p, &b).run_checks(&services(&["Wi-Fi"]), 53, false, true);
    assert_eq!(checks.status, SafetyStatus::Warn);
    assert!(checks.detected_custom_dns);
    assert_eq!(checks.issues.len(), 1);
}

#[test]
fn a_busy_port_fails_and_names_the_port() {
    let p = paths();
    let b = bundle(60);
    let checks = SafetyController::new(&p, &b).run_checks(&services(&["Wi-Fi"]), 19053, true, true);
    assert_eq!(checks.status, SafetyStatus::Fail);
    assert!(!checks.connectivity_ready);
    assert!(!checks.detected_custom_dns);
    assert_eq!(checks.issues, vec!["El puerto DNS local 19053 ya esta en uso por otro proceso.".to_string()]);
    assert_eq!(
        checks.recommended_action,
        "Libera el puerto DNS local 19053 o deten el proceso que lo usa antes de activar Sentinel."
    );
}

#[test]
fn no_services_and_a_small_blocklist_both_fail() {
    let p = paths();
    let b = bundle(3);
    let controller = SafetyController::new(&p, &b);
    assert!(controller.fails_before_dns_probe(&Vec::new(), false));
    let checks = controller.run_checks(&Vec::new(), 53, false, false);
    assert_eq!(checks.status, SafetyStatus::Fail);
    assert!(!checks.recovery_ready);
    assert_eq!(checks.issues.len(), 2);
    assert_eq!(
        checks.recommended_action,
        "No hay servicios de red activos. Conecta la red y vuelve a ejecutar el chequeo."
    );
}

#[test]
fn port_conflicts() {
    assert!(runtime_conflict(true, true, true, true));
    assert!(runtime_conflict(false, false, false, false));
    assert!(!runtime_conflict(false, false, false, true));
    assert!(!runtime_conflict(false, true, false, false));
    assert!(runtime_busy(true, false));
    assert!(!runtime_busy(true, true));
}

#[test]
fn enabling_flow_records_the_snapshot_then_activates() {
    let mut state = RuntimeState::initial();
    assert!(!already_active(&state, true));
    let p = paths();
    let b = bundle(60);
    let checks = SafetyController::new(&p, &b).run_checks(&services(&["Wi-Fi"]), 53, false, false);
    assert!(safety_allows_activation(&checks));
    let now = Timestamp { secs: 1_700_000_000, nanos: 5 };
    begin_activation(&mut state, "snap-1".to_string(), now, checks.clone());
    assert_eq!(state.mode, ProtectionMode::Recovering);
    assert_eq!(state.snapshot_id.as_deref(), Some("snap-1"));
    assert_eq!(state.risk_level, RiskLevel::Warning);
    let event = complete_activation(&mut state, 4242, "127.0.0.1:53".to_string(), "snap-1".to_string(), now, &b, checks);
    assert_eq!(state.mode, ProtectionMode::Active);
    assert_eq!(state.risk_level, RiskLevel::Normal);
    assert_eq!(state.runtime_pid, Some(4242));
    assert_eq!(state.blocklist_version, "0.1.1-60");
    assert_eq!(state.blocklist_domain_count, 60);
    assert_eq!(event.kind, EventKind::Enable);
    assert_eq!(event.severity, Severity::Info);
    assert!(already_active(&state, true));
    assert!(!already_active(&state, false));
    assert_eq!(local_dns_servers(), vec!["127.0.0.1".to_string()]);
}

#[test]
fn failed_checks_block_the_activation() {
    let mut state = RuntimeState::initial();
    let p = paths();
    let b = bundle(3);
    let checks = SafetyController::new(&p, &b).run_checks(&Vec::new(), 53, false, false);
    assert!(!safety_allows_activation(&checks));
    let event = block_activation(&mut state, checks);
    assert_eq!(state.mode, ProtectionMode::Degraded);
    assert_eq!(state.risk_level, RiskLevel::Critical);
    assert_eq!(
        state.last_message.as_deref(),
        Some("No se detectaron servicios de red activos en macOS. | El bloqueador incluido no paso la validacion de integridad.")
    );
    assert_eq!(event.kind, EventKind::Error);
    assert_eq!(event.message, "La activacion fue bloqueada porque fallaron los chequeos de seguridad");
}

#[test]
fn a_failed_dns_change_degrades_and_reports_the_error() {
    let mut state = RuntimeState::initial();
    let verification = RestoreVerification::success("La red coincide con el snapshot original capturado por Sentinel.".to_string());
    let event = fail_activation(&mut state, verification, "permiso denegado");
    assert_eq!(state.mode, ProtectionMode::Degraded);
    assert_eq!(
        state.last_message.as_deref(),
        Some("La activacion fallo y Sentinel intento restaurar la red: permiso denegado")
    );
    assert_eq!(event.severity, Severity::Error);
}

#[test]
fn disabling_restores_or_degrades() {
    let b = bundle(60);
    let now = Timestamp { secs: 1_700_000_100, nanos: 0 };
    let mut state = RuntimeState::initial();
    state.runtime_pid = Some(7);
    state.snapshot_id = Some("snap-1".to_string());
    begin_deactivation(&mut state, now);
    assert_eq!(state.mode, ProtectionMode::Recovering);
    assert_eq!(state.runtime_pid, None);
    let ok = RestoreVerification::success("coincide".to_string());
    let event = finish_deactivation(&mut state, ok, now, &b);
    assert_eq!(state.mode, ProtectionMode::Inactive);
    assert_eq!(state.snapshot_id, None);
    assert_eq!(event.kind, EventKind::Disable);
    assert_eq!(event.severity, Severity::Info);

    let mut other = RuntimeState::initial();
    other.snapshot_id = Some("snap-2".to_string());
    let bad = RestoreVerification::failure(vec!["Wi-Fi".to_string()], "difiere".to_string());
    let event = finish_deactivation(&mut other, bad, now, &b);
    assert_eq!(other.mode, ProtectionMode::Degraded);
    assert_eq!(other.status_summary, "difiere");
    assert_eq!(other.snapshot_id.as_deref(), Some("snap-2"));
    assert_eq!(event.severity, Severity::Error);

    let mut missing = RuntimeState::initial();
    let event = deactivation_without_snapshot(&mut missing, now);
    assert_eq!(missing.mode, ProtectionMode::Degraded);
    assert_eq!(event.message, "No se encontro un snapshot recuperable durante la desactivacion");
}

fn snapshot(entries: &[(&str, &[&str])]) -> NetworkSnapshot {
    NetworkSnapshot {
        id: "snap".to_string(),
        captured_at: Timestamp { secs: 0, nanos: 0 },
        interface_scope: entries.iter().map(|(s, _)| s.to_string()).collect(),
        services: entries
            .iter()
            .map(|(s, d)| NetworkServiceSnapshot { service: s.to_string(), dns_servers: services(d) })
            .collect(),
        restorable: true,
    }
}

#[test]
fn a_restored_network_matches_its_snapshot() {
    let expected = snapshot(&[("Wi-Fi", &["1.1.1.1"]), ("Ethernet", &[])]);
    let verdict = verify_against(&expected, &expected.services);
    assert!(verdict.matches_snapshot);
    assert!(verdict.mismatched_services.is_empty());
    assert_eq!(verdict.summary, "La red coincide con el snapshot original capturado por Sentinel.");
}

#[test]
fn differences_and_missing_services_are_named() {
    let expected = snapshot(&[("Wi-Fi", &["1.1.1.1"]), ("Ethernet", &[]), ("VPN", &["10.0.0.1"])]);
    let current = snapshot(&[("Wi-Fi", &["127.0.0.1"]), ("Ethernet", &[])]);
    let verdict = verify_against(&expected, &current.services);
    assert!(!verdict.matches_snapshot);
    assert_eq!(verdict.mismatched_services, services(&["Wi-Fi", "VPN"]));
    assert_eq!(verdict.summary, "La restauracion no coincide con el snapshot en: Wi-Fi, VPN.");
}

#[test]
fn recovery_picks_the_named_snapshot_first() {
    let named = NetworkRecoverySnapshot::capture(services(&["Wi-Fi"]), Vec::new());
    let latest = NetworkRecoverySnapshot::capture(services(&["Ethernet"]), Vec::new());
    let named_id = named.snapshot_id.clone();
    let latest_id = latest.snapshot_id.clone();
    assert_ne!(named_id, latest_id);
    assert_eq!(choose_snapshot(Some(named), Some(latest.clone())).unwrap().snapshot_id, named_id);
    assert_eq!(choose_snapshot(None, Some(latest)).unwrap().snapshot_id, latest_id);
    let err = choose_snapshot(None, None).unwrap_err();
    assert_eq!(err, RecoveryError::NoSnapshot);
    assert_eq!(err.message(), "no recoverable network snapshot was found");
}

#[test]
fn recovery_state_follows_the_verification() {
    let now = Timestamp { secs: 1_700_000_200, nanos: 0 };
    let mut state = RuntimeState::initial();
    state.mode = ProtectionMode::Active;
    state.runtime_pid = Some(9);
    let event = apply_recovery(&mut state, &"snap-9".to_string(), RestoreVerification::success("ok".to_string()), now);
    assert_eq!(state.mode, ProtectionMode::Inactive);
    assert_eq!(state.runtime_pid, None);
    assert_eq!(state.snapshot_id, None);
    assert_eq!(event.kind, EventKind::Recover);
    assert_eq!(event.severity, Severity::Info);

    let mut other = RuntimeState::initial();
    let bad = RestoreVerification::failure(services(&["Wi-Fi"]), "difiere".to_string());
    let event = apply_recovery(&mut other, &"snap-9".to_string(), bad, now);
    assert_eq!(other.mode, ProtectionMode::Degraded);
    assert_eq!(other.snapshot_id.as_deref(), Some("snap-9"));
    assert_eq!(other.risk_level, RiskLevel::Critical);
    assert_eq!(event.severity, Severity::Error);
}

#[test]
fn recovery_snapshot_files_live_in_the_snapshots_directory() {
    let snap = NetworkRecoverySnapshot::capture(services(&["Wi-Fi"]), Vec::new());
    let path = snap.file_path(&paths());
    assert_eq!(path, format!("/tmp/sentinel/state/snapshots/{}.json", snap.snapshot_id));
    assert_eq!(snap.routing_state, vec!["dns_only".to_string()]);
    assert!(snap.restorable);
    let network = snap.to_network_snapshot();
    assert_eq!(network.id, snap.snapshot_id);
    assert_eq!(network.interface_scope, services(&["Wi-Fi"]));
}

#[test]
fn reads_what_networksetup_prints() {
    let listing = "An asterisk (*) denotes that a network service is disabled.\nWi-Fi\n*Bluetooth PAN\n  Ethernet  \n\n";
    assert_eq!(parse_service_list(listing), services(&["Wi-Fi", "Ethernet"]));
    assert!(parse_service_list("").is_empty());
    assert_eq!(parse_dns_servers("1.1.1.1\n8.8.8.8\n"), services(&["1.1.1.1", "8.8.8.8"]));
    assert!(parse_dns_servers("There aren't any DNS Servers set on Wi-Fi.\n").is_empty());
}

#[test]
fn builds_the_networksetup_arguments() {
    assert_eq!(set_dns_args("Wi-Fi", &Vec::new()), services(&["-setdnsservers", "Wi-Fi", "Empty"]));
    assert_eq!(
        set_dns_args("Wi-Fi", &services(&["1.1.1.1", "8.8.8.8"])),
        services(&["-setdnsservers", "Wi-Fi", "1.1.1.1", "8.8.8.8"])
    );
    assert_eq!(applied_servers(&services(&["1.1.1.1"]), true), services(&["203.0.113.53"]));
    assert_eq!(applied_servers(&services(&["127.0.0.1"]), true), services(&["127.0.0.1"]));
    assert_eq!(applied_servers(&services(&["1.1.1.1"]), false), services(&["1.1.1.1"]));
}
