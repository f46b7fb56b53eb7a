use sentinel::app::AppPaths;
use sentinel::blocking::blocklist::BlocklistBundle;
use sentinel::clock::Timestamp;
use sentinel::control::disabling::{deactivation_start, deactivation_step, Deactivation, DeactivationOutcome, DeactivationWork};
use sentinel::control::enabling::{activation_step, Activation, ActivationOutcome, ActivationWork};
use sentinel::control::safety::SafetyController;
use sentinel::storage::events::EventKind;
use sentinel::storage::state::{ProtectionMode, RestoreVerification, RiskLevel, RuntimeState};

fn bundle(count: usize) -> BlocklistBundle {
    let raw: String = (0..count).map(|i| format!("ads{i}.example.com\n")).collect();
    BlocklistBundle::parse(&raw, Timestamp { secs: 0, nanos: 0 }, "test".to_string()).unwrap()
}

fn names(v: &[&str]) -> Vec<String> {
    v.iter().map(|s| s.to_string()).collect()
}

const NOW: Timestamp = Timestamp { secs: 1_700_000_000, nanos: 0 };

#[test]
fn a_successful_activation_snapshots_then_points_every_service_at_the_resolver() {
    let paths = AppPaths::under_root("/tmp/sentinel");
    let b = bundle(60);
    let mut state = RuntimeState::initial();
    let checks = SafetyController::new(&paths, &b).run_checks(&names(&["Wi-Fi", "Ethernet"]), 53, false, false);

    let (stage, work, log) = activation_step(&mut state, Activation::Checking, ActivationOutcome::Checked(checks), NOW, &b);
    assert!(matches!(work, ActivationWork::CaptureSnapshot));
    assert_eq!(log.len(), 1);
    assert_eq!(log[0].kind, EventKind::SafetyCheck);
    assert_eq!(state.mode, ProtectionMode::Inactive);

    let captured = ActivationOutcome::Captured { snapshot_id: "snap-1".to_string(), services: names(&["Wi-Fi", "Ethernet"]) };
    let (stage, work, log) = activation_step(&mut state, stage, captured, NOW, &b);
    assert!(matches!(work, ActivationWork::StartRuntime));
    assert!(log.is_empty());
    assert_eq!(state.mode, ProtectionMode::Recovering);
    assert_eq!(state.snapshot_id.as_deref(), Some("snap-1"));

    let started = ActivationOutcome::Started { pid: 4242, addr: "127.0.0.1:53".to_string() };
    let (stage, work, _) = activation_step(&mut state, stage, started, NOW, &b);
    match &work {
        ActivationWork::SetDns { service, servers } => {
            assert_eq!(service, "Wi-Fi");
            assert_eq!(servers, &names(&["127.0.0.1"]));
        }
        other => panic!("expected a DNS change, got {other:?}"),
    }
    let (stage, work, _) = activation_step(&mut state, stage, ActivationOutcome::DnsSet, NOW, &b);
    assert!(matches!(&work, ActivationWork::SetDns { service, .. } if service == "Ethernet"));
    assert_eq!(state.mode, ProtectionMode::Recovering);

    let (stage, work, log) = activation_step(&mut state, stage, ActivationOutcome::DnsSet, NOW, &b);
    assert!(matches!(stage, Activation::Done));
    assert!(matches!(work, ActivationWork::Finish));
    assert_eq!(log.len(), 1);
    assert_eq!(log[0].kind, EventKind::Enable);
    assert_eq!(state.mode, ProtectionMode::Active);
    assert_eq!(state.runtime_pid, Some(4242));
    assert_eq!(state.runtime_addr.as_deref(), Some("127.0.0.1:53"));
    assert_eq!(state.snapshot_id.as_deref(), Some("snap-1"));
    assert_eq!(state.blocklist_domain_count, 60);
    assert!(state.last_safety_check.is_some());
}

#[test]
fn refused_checks_end_the_activation_before_any_snapshot() {
    let paths = AppPaths::under_root("/tmp/sentinel");
    let b = bundle(3);
    let mut state = RuntimeState::initial();
    let checks = SafetyController::new(&paths, &b).run_checks(&Vec::new(), 53, false, false);
    let (stage, work, log) = activation_step(&mut state, Activation::Checking, ActivationOutcome::Checked(checks), NOW, &b);
    assert!(matches!(stage, Activation::Done));
    assert!(matches!(work, ActivationWork::Finish));
    assert_eq!(log.len(), 2);
    assert_eq!(log[1].kind, EventKind::Error);
    assert_eq!(state.mode, ProtectionMode::Degraded);
    assert_eq!(state.snapshot_id, None);
}

#[test]
fn a_failed_dns_change_rolls_back() {
    let b = bundle(60);
    let mut state = RuntimeState::initial();
    let stage = Activation::Applying {
        snapshot_id: "snap-2".to_string(),
        services: names(&["Wi-Fi"]),
        runtime_pid: 77,
        runtime_addr: "127.0.0.1:53".to_string(),
        next: 0,
    };
    state.snapshot_id = Some("snap-2".to_string());
    state.last_safety_check =
        Some(SafetyController::new(&AppPaths::under_root("/tmp/s"), &b).run_checks(&names(&["Wi-Fi"]), 53, false, false));
    let (stage, work, log) =
        activation_step(&mut state, stage, ActivationOutcome::DnsFailed("permiso denegado".to_string()), NOW, &b);
    assert!(matches!(work, ActivationWork::RollBack { runtime_pid: 77 }));
    assert!(log.is_empty());
    let verification = RestoreVerification::success("La red coincide con el snapshot original capturado por Sentinel.".to_string());
    let (stage, work, log) = activation_step(&mut state, stage, ActivationOutcome::RolledBack(verification), NOW, &b);
    assert!(matches!(stage, Activation::Done));
    assert!(matches!(work, ActivationWork::Finish));
    assert_eq!(log.len(), 1);
    assert_eq!(state.mode, ProtectionMode::Degraded);
    assert_eq!(state.risk_level, RiskLevel::Critical);
    assert_eq!(
        state.last_message.as_deref(),
        Some("La activacion fallo y Sentinel intento restaurar la red: permiso denegado")
    );
}

#[test]
fn an_outcome_out_of_turn_ends_the_activation_without_changes() {
    let b = bundle(60);
    let mut state = RuntimeState::initial();
    let (stage, work, log) = activation_step(&mut state, Activation::Checking, ActivationOutcome::DnsSet, NOW, &b);
    assert!(matches!(stage, Activation::Done));
    assert!(matches!(work, ActivationWork::Finish));
    assert!(log.is_empty());
    assert_eq!(state.mode, ProtectionMode::Inactive);
}

#[test]
fn disabling_stops_the_runtime_then_restores_the_recorded_snapshot() {
    let b = bundle(60);
    let mut state = RuntimeState::initial();
    state.mode = ProtectionMode::Active;
    state.runtime_pid = Some(4242);
    state.snapshot_id = Some("snap-9".to_string());
    let (stage, work) = deactivation_start(&state);
    assert!(matches!(work, DeactivationWork::StopRuntime { pid: Some(4242) }));
    let (stage, work, log) = deactivation_step(&mut state, stage, DeactivationOutcome::RuntimeStopped, NOW, &b);
    assert!(matches!(&work, DeactivationWork::LoadSnapshot { snapshot_id } if snapshot_id == "snap-9"));
    assert!(log.is_empty());
    assert_eq!(state.mode, ProtectionMode::Recovering);
    assert_eq!(state.runtime_pid, None);
    let (stage, work, _) = deactivation_step(&mut state, stage, DeactivationOutcome::SnapshotLoaded(true), NOW, &b);
    assert!(matches!(work, DeactivationWork::RestoreSnapshot));
    let verification = RestoreVerification::success("La red coincide con el snapshot original capturado por Sentinel.".to_string());
    let (stage, work, log) = deactivation_step(&mut state, stage, DeactivationOutcome::Restored(verification), NOW, &b);
    assert!(matches!(stage, Deactivation::Done));
    assert!(matches!(work, DeactivationWork::Finish));
    assert_eq!(log.len(), 1);
    assert_eq!(log[0].kind, EventKind::Disable);
    assert_eq!(state.mode, ProtectionMode::Inactive);
    assert_eq!(state.snapshot_id, None);
    assert_eq!(state.blocklist_domain_count, 60);
}

#[test]
fn disabling_without_a_snapshot_degrades() {
    let b = bundle(60);
    let mut state = RuntimeState::initial();
    let (stage, work) = deactivation_start(&state);
    assert!(matches!(work, DeactivationWork::StopRuntime { pid: None }));
    let (stage, work, log) = deactivation_step(&mut state, stage, DeactivationOutcome::RuntimeStopped, NOW, &b);
    assert!(matches!(stage, Deactivation::Done));
    assert!(matches!(work, DeactivationWork::Finish));
    assert_eq!(log.len(), 1);
    assert_eq!(log[0].kind, EventKind::Error);
    assert_eq!(state.mode, ProtectionMode::Degraded);
    assert_eq!(state.last_message.as_deref(), Some("Sentinel no pudo completar la desactivacion segura porque falta el snapshot."));

    let mut state = RuntimeState::initial();
    state.snapshot_id = Some("gone".to_string());
    let (stage, _) = deactivation_start(&state);
    let (stage, _, _) = deactivation_step(&mut state, stage, DeactivationOutcome::RuntimeStopped, NOW, &b);
    let (_, work, log) = deactivation_step(&mut state, stage, DeactivationOutcome::SnapshotLoaded(false), NOW, &b);
    assert!(matches!(work, DeactivationWork::Finish));
    assert_eq!(log.len(), 1);
    assert_eq!(state.mode, ProtectionMode::Degraded);
}
