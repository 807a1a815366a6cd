use advanced_show_control::connection::{
    identities_match, identity_key, latency_text, system_accessibility_label, system_row,
    ConnectionDialogMode, ConnectionState, DiscoveredLv1Status, DiscoveredLv1System, LatencyState,
    Lv1SystemIdentity, SystemRowAction, SystemRowStatus, SystemRowTone, TcpConnectProbeResult,
};
use advanced_show_control::view_state::{AppConnectionState, AppViewState};

fn identity(uuid: Option<&str>, host: Option<&str>, address: &str, port: u16) -> Lv1SystemIdentity {
    Lv1SystemIdentity {
        uuid: uuid.map(str::to_string),
        host: host.map(str::to_string),
        address: address.to_string(),
        port,
    }
}

fn available(identity: &Lv1SystemIdentity) -> DiscoveredLv1System {
    DiscoveredLv1System {
        identity: identity.clone(),
        status: DiscoveredLv1Status::Available,
    }
}

#[test]
fn identity_matching_prefers_uuid_then_requires_the_complete_endpoint() {
    let connected = identity(Some("a"), Some("FOH"), "10.0.0.1", 1234);
    assert!(identities_match(
        &identity(Some("a"), Some("Other"), "x", 9),
        Some(&connected)
    ));
    assert!(!identities_match(
        &identity(Some("b"), Some("FOH"), "10.0.0.1", 1234),
        Some(&connected)
    ));

    let connected = identity(None, Some("FOH"), "10.0.0.1", 1234);
    assert!(identities_match(
        &identity(None, Some("FOH"), "10.0.0.1", 1234),
        Some(&connected)
    ));
    assert!(!identities_match(
        &identity(None, Some("FOH"), "10.0.0.2", 1234),
        Some(&connected)
    ));
}

#[test]
fn startup_dialog_closes_only_after_a_connected_snapshot() {
    let mut state = ConnectionState::startup();
    state.close_startup_if_connected(&AppViewState::default());
    assert!(state.is_visible());

    let connected = AppViewState {
        connection: AppConnectionState::Connected,
        ..Default::default()
    };
    state.close_startup_if_connected(&connected);
    assert!(!state.is_visible());

    state.open_manual();
    state.close_startup_if_connected(&connected);
    assert!(state.is_visible());
}

#[test]
fn only_the_matching_command_releases_a_pending_connection() {
    let mut state = ConnectionState::default();
    state.pending_identity = Some(identity(Some("a"), Some("FOH"), "10.0.0.1", 1234));
    state.pending_command_id = Some(7);

    state.finish_command(6);
    assert!(state.pending_identity.is_some());
    assert_eq!(state.pending_command_id, Some(7));

    state.finish_command(7);
    assert!(state.pending_identity.is_none());
    assert_eq!(state.pending_command_id, None);
}

#[test]
fn opening_the_dialog_discards_a_previous_connection_error() {
    let mut state = ConnectionState::startup();
    state.command_error = Some("old failure".to_string());

    state.open_manual();

    assert_eq!(state.command_error, None);
}

#[test]
fn reopening_the_dialog_discards_previous_latency_results() {
    let console = identity(Some("a"), Some("FOH"), "10.0.0.1", 1234);
    let mut state = ConnectionState::default();
    state.mode = Some(ConnectionDialogMode::Manual);
    let (session_id, attempt_id) = state.begin_latency(&console).unwrap();
    state.set_latency(
        session_id,
        attempt_id,
        &console,
        Ok(TcpConnectProbeResult { tcp_connect_ms: 12 }),
    );
    assert!(!state.latency_is_empty());

    state.open_manual();

    assert!(state.latency_is_empty());
}

#[test]
fn a_probe_result_from_a_closed_dialog_cannot_enter_a_new_session() {
    let console = identity(Some("a"), Some("FOH"), "10.0.0.1", 1234);
    let mut state = ConnectionState::startup();
    let (old_session, old_attempt) = state.begin_latency(&console).unwrap();

    state.close();
    state.open_manual();
    let (new_session, new_attempt) = state.begin_latency(&console).unwrap();
    assert_ne!(old_session, new_session);
    assert_ne!(old_attempt, new_attempt);
    state.set_latency(
        old_session,
        old_attempt,
        &console,
        Ok(TcpConnectProbeResult { tcp_connect_ms: 12 }),
    );

    assert_eq!(
        state.latency_for(&identity_key(&console)),
        Some(LatencyState::Pending {
            attempt_id: new_attempt
        })
    );
}

#[test]
fn visible_dialog_starts_each_discovered_identity_once_per_session() {
    let first = identity(Some("a"), Some("FOH"), "10.0.0.1", 1234);
    let second = identity(Some("b"), Some("MON"), "10.0.0.2", 1234);
    let systems = vec![available(&first), available(&second)];
    let mut state = ConnectionState::startup();

    let probes = state.reconcile_latency_probes(&systems);
    assert_eq!(probes.len(), 2);
    assert_eq!(probes[0].2, first);
    assert_eq!(probes[1].2, second);
    assert_ne!(probes[0].1, probes[1].1);
    assert!(state.reconcile_latency_probes(&systems).is_empty());
}

#[test]
fn latency_reconciliation_prunes_removed_identities_and_rejects_their_results() {
    let removed = identity(Some("a"), Some("FOH"), "10.0.0.1", 1234);
    let retained = identity(Some("b"), Some("MON"), "10.0.0.2", 1234);
    let mut state = ConnectionState::startup();

    let probes = state.reconcile_latency_probes(&vec![available(&removed), available(&retained)]);
    let (session_id, attempt_id, _) = &probes[0];
    assert!(state
        .reconcile_latency_probes(&vec![available(&retained)])
        .is_empty());

    state.set_latency(
        *session_id,
        *attempt_id,
        &removed,
        Ok(TcpConnectProbeResult { tcp_connect_ms: 12 }),
    );

    assert!(state.latency_for(&identity_key(&removed)).is_none());
    assert_eq!(
        state.latency_for(&identity_key(&retained)),
        Some(LatencyState::Pending {
            attempt_id: probes[1].1
        })
    );
}

#[test]
fn remove_then_reappear_before_completion_reuses_the_single_in_flight_attempt() {
    let console = identity(Some("a"), Some("FOH"), "10.0.0.1", 1234);
    let systems = |present: bool| {
        if present {
            vec![available(&console)]
        } else {
            Vec::new()
        }
    };
    let mut state = ConnectionState::startup();

    let probes = state.reconcile_latency_probes(&systems(true));
    let (session_id, attempt_id, _) = &probes[0];
    assert!(state.reconcile_latency_probes(&systems(false)).is_empty());
    assert!(state.latency_for(&identity_key(&console)).is_none());
    assert!(state.reconcile_latency_probes(&systems(true)).is_empty());
    assert_eq!(
        state.latency_for(&identity_key(&console)),
        Some(LatencyState::Pending {
            attempt_id: *attempt_id
        })
    );

    state.set_latency(
        *session_id,
        *attempt_id,
        &console,
        Ok(TcpConnectProbeResult { tcp_connect_ms: 12 }),
    );
    assert_eq!(
        state.latency_for(&identity_key(&console)),
        Some(LatencyState::Success(12))
    );
}

#[test]
fn completion_while_removed_stays_hidden_and_permits_a_fresh_attempt_on_reappearance() {
    let console = identity(Some("a"), Some("FOH"), "10.0.0.1", 1234);
    let system = available(&console);
    let mut state = ConnectionState::startup();

    let first = state.reconcile_latency_probes(&vec![system.clone()]);
    let (session_id, first_attempt_id, _) = &first[0];
    state.reconcile_latency_probes(&Vec::new());
    state.set_latency(
        *session_id,
        *first_attempt_id,
        &console,
        Ok(TcpConnectProbeResult { tcp_connect_ms: 99 }),
    );
    assert!(state.latency_for(&identity_key(&console)).is_none());

    let second = state.reconcile_latency_probes(&vec![system]);
    assert_eq!(second.len(), 1);
    assert_ne!(second[0].1, *first_attempt_id);
}

#[test]
fn reopening_clears_hidden_in_flight_attempts() {
    let console = identity(Some("a"), Some("FOH"), "10.0.0.1", 1234);
    let system = available(&console);
    let mut state = ConnectionState::startup();

    let first = state.reconcile_latency_probes(&vec![system.clone()]);
    state.reconcile_latency_probes(&Vec::new());
    state.close();
    state.open_manual();
    let reopened = state.reconcile_latency_probes(&vec![system]);

    assert_eq!(reopened.len(), 1);
    assert_ne!(reopened[0].0, first[0].0);
    assert_ne!(reopened[0].1, first[0].1);
}

#[test]
fn latency_results_require_a_currently_pending_identity() {
    let console = identity(Some("a"), Some("FOH"), "10.0.0.1", 1234);
    let mut state = ConnectionState::startup();

    state.set_latency(
        0,
        0,
        &console,
        Ok(TcpConnectProbeResult { tcp_connect_ms: 12 }),
    );
    assert!(state.latency_is_empty());

    let (session_id, attempt_id) = state.begin_latency(&console).unwrap();
    state.set_latency(
        session_id,
        attempt_id,
        &console,
        Ok(TcpConnectProbeResult { tcp_connect_ms: 12 }),
    );
    state.set_latency(
        session_id,
        attempt_id,
        &console,
        Ok(TcpConnectProbeResult { tcp_connect_ms: 99 }),
    );

    assert_eq!(
        state.latency_for(&identity_key(&console)),
        Some(LatencyState::Success(12))
    );
}

#[test]
fn latency_text_covers_testing_success_and_failure_states() {
    assert_eq!(latency_text(None), "Testing…");
    assert_eq!(
        latency_text(Some(&LatencyState::Pending { attempt_id: 7 })),
        "Testing…"
    );
    assert_eq!(latency_text(Some(&LatencyState::Success(12))), "12 ms");
    assert_eq!(
        latency_text(Some(&LatencyState::Error("timed out".to_string()))),
        "Failed: timed out"
    );
}

#[test]
fn row_accessibility_label_includes_latency_status() {
    assert_eq!(
        system_accessibility_label("FOH", "Available", Some(&LatencyState::Success(12))),
        "FOH, Available, latency 12 ms"
    );
    assert_eq!(
        system_accessibility_label(
            "FOH",
            "Available",
            Some(&LatencyState::Error("timed out".to_string()))
        ),
        "FOH, Available, latency Failed: timed out"
    );
}

#[test]
fn closed_dialog_does_not_start_automatic_probes() {
    let console = identity(Some("a"), Some("FOH"), "10.0.0.1", 1234);
    let mut state = ConnectionState::startup();
    state.close();
    assert!(state.reconcile_latency_probes(&vec![available(&console)]).is_empty());
    assert!(state.begin_latency(&console).is_none());
}

#[test]
fn identity_key_joins_every_field_with_separators() {
    assert_eq!(
        identity_key(&identity(Some("u"), Some("FOH"), "10.0.0.1", 1234)),
        "u\0FOH\010.0.0.1\01234"
    );
    assert_eq!(
        identity_key(&identity(None, None, "10.0.0.1", 80)),
        "\0\010.0.0.1\080"
    );
}

#[test]
fn a_failed_probe_is_shown_with_its_reason() {
    let console = identity(None, Some("MON"), "10.0.0.9", 9000);
    let mut state = ConnectionState::startup();
    let (session_id, attempt_id) = state.begin_latency(&console).unwrap();
    state.set_latency(session_id, attempt_id, &console, Err("refused".to_string()));
    assert_eq!(
        state.latency_for(&identity_key(&console)),
        Some(LatencyState::Error("refused".to_string()))
    );
}

#[test]
fn a_console_row_reports_unavailable_then_connected_then_connecting() {
    let foh = identity(Some("a"), Some("FOH"), "10.0.0.1", 1234);
    let mon = identity(Some("b"), None, "10.0.0.2", 1234);

    let row = system_row(&available(&foh), Some(&foh), None);
    assert_eq!(row.display_name, "FOH");
    assert!(row.connected);
    assert_eq!(row.status, SystemRowStatus::Connected);
    assert_eq!(row.status.label(), "Connected");
    assert_eq!(row.tone, SystemRowTone::Current);
    assert!(!row.disabled);
    assert_eq!(row.action, SystemRowAction::Resume);

    let row = system_row(&available(&mon), Some(&foh), Some(&mon));
    assert_eq!(row.display_name, "LV1 Console");
    assert_eq!(row.status, SystemRowStatus::Connecting);
    assert_eq!(row.status.label(), "Connecting\u{2026}");
    assert_eq!(row.tone, SystemRowTone::Cued);
    assert!(row.disabled);
    assert_eq!(row.action, SystemRowAction::Ignore);

    let row = system_row(&available(&mon), None, None);
    assert_eq!(row.status, SystemRowStatus::Available);
    assert_eq!(row.action, SystemRowAction::Select);

    let unavailable = DiscoveredLv1System {
        identity: foh.clone(),
        status: DiscoveredLv1Status::Unavailable,
    };
    let row = system_row(&unavailable, Some(&foh), None);
    assert_eq!(row.status, SystemRowStatus::Unavailable);
    assert_eq!(row.status.label(), "Unavailable");
    assert_eq!(row.tone, SystemRowTone::Danger);
    assert!(row.disabled);
    assert_eq!(row.action, SystemRowAction::Ignore);
}

#[test]
fn selecting_a_console_is_ignored_while_another_connection_is_pending() {
    let mut state = ConnectionState::startup();
    let foh = identity(Some("a"), Some("FOH"), "10.0.0.1", 1234);
    let mon = identity(Some("b"), Some("MON"), "10.0.0.2", 1234);
    assert!(state.begin_select(foh.clone()));
    state.record_connect_command(7);
    assert!(!state.begin_select(mon));
    assert_eq!(state.pending_identity, Some(foh));
    assert_eq!(state.pending_command_id, Some(7));
    state.finish_command(7);
    assert!(state.pending_identity.is_none());
}

#[test]
fn different_identities_have_different_latency_keys() {
    let a = identity(Some("a"), Some("FOH"), "10.0.0.1", 1234);
    let b = identity(Some("a"), Some("FOH"), "10.0.0.1", 123);
    let c = identity(None, Some("aFOH"), "10.0.0.1", 1234);
    let d = identity(Some("a"), None, "FOH10.0.0.1", 1234);
    assert_ne!(identity_key(&a), identity_key(&b));
    assert_ne!(identity_key(&a), identity_key(&c));
    assert_ne!(identity_key(&a), identity_key(&d));
    assert_eq!(identity_key(&a), identity_key(&a.clone()));
}
