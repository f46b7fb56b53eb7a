use sentinel::clock::Timestamp;
use sentinel::storage::events::{block_activity, recent_from, safety_event, EventKind, EventRecord, Severity};
use sentinel::storage::state::{SafetyCheckSummary, SafetyStatus};

fn at(secs: i64, kind: EventKind, domain: Option<&str>) -> EventRecord {
    EventRecord {
        id: format!("id-{secs}"),
        timestamp: Timestamp { secs, nanos: 0 },
        kind,
        severity: Severity::Info,
        blocked_domain: domain.map(|d| d.to_string()),
        message: "m".to_string(),
    }
}

#[test]
fn counts_blocking_since_the_last_activation() {
    let items = vec![
        at(10, EventKind::Enable, None),
        at(11, EventKind::BlockedDomain, Some("old.com")),
        at(20, EventKind::Enable, None),
        at(21, EventKind::BlockedDomain, Some("b.com")),
        at(22, EventKind::BlockedDomain, Some("a.com")),
        at(23, EventKind::BlockedDomain, Some("b.com")),
        at(24, EventKind::Disable, None),
        at(25, EventKind::BlockedDomain, Some("c.com")),
    ];
    let summary = block_activity(&items);
    assert_eq!(summary.blocked_since_activation, 4);
    assert_eq!(summary.unique_blocked_domains, 3);
    assert_eq!(summary.last_blocked_at, Some(Timestamp { secs: 25, nanos: 0 }));
    assert_eq!(
        summary.top_blocked_domains,
        vec![("b.com".to_string(), 2), ("a.com".to_string(), 1), ("c.com".to_string(), 1)]
    );
}

#[test]
fn nothing_counts_before_any_activation() {
    let items = vec![at(1, EventKind::BlockedDomain, Some("a.com"))];
    let summary = block_activity(&items);
    assert_eq!(summary.blocked_since_activation, 0);
    assert_eq!(summary.unique_blocked_domains, 0);
    assert_eq!(summary.last_blocked_at, None);
    assert!(summary.top_blocked_domains.is_empty());
}

#[test]
fn recent_events_come_newest_first() {
    let items = vec![
        at(1, EventKind::Enable, None),
        at(2, EventKind::Disable, None),
        at(3, EventKind::Recover, None),
    ];
    let recent = recent_from(items.clone(), 2);
    assert_eq!(recent.iter().map(|e| e.timestamp.secs).collect::<Vec<_>>(), vec![3, 2]);
    let all = recent_from(items, 10);
    assert_eq!(all.iter().map(|e| e.timestamp.secs).collect::<Vec<_>>(), vec![3, 2, 1]);
}

#[test]
fn safety_events_follow_the_verdict() {
    let warn = SafetyCheckSummary::new(
        SafetyStatus::Warn,
        true,
        true,
        vec!["uno".to_string(), "dos".to_string()],
        "accion".to_string(),
    );
    let event = safety_event(&warn);
    assert_eq!(event.kind, EventKind::SafetyCheck);
    assert_eq!(event.severity, Severity::Warning);
    assert_eq!(event.message, "uno | dos");
    let pass = SafetyCheckSummary::new(SafetyStatus::Pass, true, true, Vec::new(), "todo bien".to_string());
    let event = safety_event(&pass);
    assert_eq!(event.severity, Severity::Info);
    assert_eq!(event.message, "todo bien");
}

#[test]
fn a_blocked_query_event_names_the_domain() {
    let event = EventRecord::blocked_domain("ads.example.com".to_string());
    assert_eq!(event.kind, EventKind::BlockedDomain);
    assert_eq!(event.blocked_domain.as_deref(), Some("ads.example.com"));
    assert_eq!(event.message, "Sentinel bloqueo una consulta DNS para ads.example.com");
    assert_eq!(event.id.len(), 36);
    assert_eq!(EventKind::BlockedDomain.label(), "Bloqueo de dominio");
    assert_eq!(Severity::Warning.label(), "Advertencia");
}
