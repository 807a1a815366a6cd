use advanced_show_control::lifecycle::{
    discovery_replacement, discovery_timeout_ms, DisconnectOutcome, DiscoveryFailure,
    InstalledRuntime, LifecycleInner, RuntimeClearTransaction,
};

#[test]
fn only_the_active_generation_can_install_its_runtime() {
    let mut lifecycle: LifecycleInner<&str> = LifecycleInner::new(0);
    let first = lifecycle.begin_connecting();
    let second = lifecycle.begin_connecting();
    assert_eq!((first, second), (1, 2));
    assert!(lifecycle.is_connecting());

    let stale = lifecycle.install_runtime_transaction(InstalledRuntime {
        generation: first,
        endpoints: "stale",
    });
    assert!(matches!(stale, Err(InstalledRuntime { generation: 1, endpoints: "stale" })));
    assert!(lifecycle.current_runtime().is_none());

    assert!(lifecycle
        .install_runtime_transaction(InstalledRuntime {
            generation: second,
            endpoints: "current",
        })
        .is_ok());
    assert!(!lifecycle.is_connecting());
    assert_eq!(lifecycle.connected_runtime(), Some((2, &"current")));
    assert_eq!(lifecycle.scene_peer_endpoints(2), Some(&"current"));
    assert_eq!(lifecycle.scene_peer_endpoints(1), None);
}

#[test]
fn clearing_is_fenced_by_the_expected_generation() {
    let mut lifecycle: LifecycleInner<u8> = LifecycleInner::new(4);
    let generation = lifecycle.begin_connecting();
    assert!(lifecycle.install_runtime_transaction(InstalledRuntime { generation, endpoints: 9 }).is_ok());

    assert_eq!(lifecycle.clear_runtime_if_current(generation - 1), None);
    assert_eq!(lifecycle.current_runtime(), Some(&9));
    assert_eq!(
        lifecycle.clear_runtime_if_current(generation),
        Some(RuntimeClearTransaction {
            cleared_generation: 5,
            active_generation: 6
        })
    );
    assert_eq!(lifecycle.active_generation(), 6);
    assert!(lifecycle.current_runtime().is_none());
}

#[test]
fn a_superseded_disconnect_changes_nothing() {
    let mut lifecycle: LifecycleInner<u8> = LifecycleInner::new(0);
    let generation = lifecycle.begin_connecting();
    assert!(lifecycle.install_runtime_transaction(InstalledRuntime { generation, endpoints: 1 }).is_ok());
    assert_eq!(lifecycle.finish_disconnect(generation, false), DisconnectOutcome::Superseded);
    assert_eq!(lifecycle.finish_disconnect(generation + 5, true), DisconnectOutcome::Superseded);
    assert_eq!(lifecycle.connected_runtime(), Some((1, &1)));
    assert_eq!(
        lifecycle.finish_disconnect(generation, true),
        DisconnectOutcome::Disconnected(RuntimeClearTransaction {
            cleared_generation: 1,
            active_generation: 2
        })
    );
}

#[test]
fn a_rejected_transaction_removes_only_its_own_runtime() {
    let mut lifecycle: LifecycleInner<u8> = LifecycleInner::new(0);
    let generation = lifecycle.begin_connecting();
    assert!(lifecycle.install_runtime_transaction(InstalledRuntime { generation, endpoints: 3 }).is_ok());
    assert!(!lifecycle.abort_rejected_connection_transaction(generation + 1));
    assert_eq!(lifecycle.current_runtime(), Some(&3));
    assert!(lifecycle.abort_rejected_connection_transaction(generation));
    assert!(lifecycle.current_runtime().is_none());
}

#[test]
fn a_new_connection_attempt_hides_the_previous_runtime() {
    let mut lifecycle: LifecycleInner<u8> = LifecycleInner::new(0);
    let generation = lifecycle.begin_connecting();
    assert!(lifecycle.install_runtime_transaction(InstalledRuntime { generation, endpoints: 7 }).is_ok());
    lifecycle.begin_connecting();
    assert_eq!(lifecycle.connected_runtime(), None);
    assert_eq!(lifecycle.scene_peer_endpoints(generation), None);
    assert_eq!(lifecycle.current_runtime(), Some(&7));
}

#[test]
fn discovery_timeout_defaults_and_clamps() {
    assert_eq!(discovery_timeout_ms(None), 1_000);
    assert_eq!(discovery_timeout_ms(Some(5)), 100);
    assert_eq!(discovery_timeout_ms(Some(2_500)), 2_500);
    assert_eq!(discovery_timeout_ms(Some(60_000)), 6_000);
}

use advanced_show_control::errors::AppCommandError;
use advanced_show_control::lifecycle::{connect_step, ConnectAction, ConnectReply, ConnectStage};

#[test]
fn a_connection_is_established_only_after_every_stage_in_order() {
    let (stage, action) = connect_step(ConnectStage::InitialState, ConnectReply::InitialState { connected: true });
    assert_eq!((stage, action), (ConnectStage::Metadata, ConnectAction::RecordMetadata));
    let (stage, action) = connect_step(stage, ConnectReply::Metadata(Ok((true, true))));
    assert_eq!(action, ConnectAction::InstallScenePeers);
    let (stage, action) = connect_step(stage, ConnectReply::ScenePeersInstalled(true));
    assert_eq!(action, ConnectAction::NotifyPeersReady);
    let (stage, action) = connect_step(stage, ConnectReply::PeersReady(true));
    assert_eq!(action, ConnectAction::RememberIdentity);
    let (stage, action) = connect_step(stage, ConnectReply::Remembered(false));
    assert_eq!(action, ConnectAction::LogRememberFailure);
    let (stage, action) = connect_step(stage, ConnectReply::StillCurrent(true));
    assert_eq!((stage, action), (ConnectStage::Finished, ConnectAction::Succeed { changed: true }));
    assert_eq!(
        connect_step(stage, ConnectReply::StillCurrent(true)),
        (ConnectStage::Finished, ConnectAction::Ignore)
    );
}

#[test]
fn failures_before_acceptance_clear_the_candidate_metadata() {
    assert_eq!(
        connect_step(ConnectStage::InitialState, ConnectReply::InitialState { connected: false }),
        (ConnectStage::Finished, ConnectAction::FailConnection("LV1 did not connect".to_string()))
    );
    assert_eq!(
        connect_step(ConnectStage::InitialState, ConnectReply::InitialStateUnsent("closed".to_string())),
        (
            ConnectStage::Finished,
            ConnectAction::FailConnection("Failed to request initial LV1 state: closed".to_string())
        )
    );
    assert_eq!(
        connect_step(ConnectStage::InitialState, ConnectReply::InitialStateClosed),
        (
            ConnectStage::Finished,
            ConnectAction::FailConnection(AppCommandError::ReplyChannelClosed.message())
        )
    );
}

#[test]
fn failures_after_acceptance_remove_the_candidate_runtime() {
    assert_eq!(
        connect_step(ConnectStage::Metadata, ConnectReply::Metadata(Ok((false, false)))),
        (ConnectStage::Finished, ConnectAction::AbortCandidate("LV1 connection was superseded".to_string()))
    );
    assert_eq!(
        connect_step(ConnectStage::Metadata, ConnectReply::Metadata(Err(AppCommandError::ShowUnavailable))),
        (ConnectStage::Finished, ConnectAction::AbortCandidate("show state is unavailable".to_string()))
    );
    assert_eq!(
        connect_step(ConnectStage::ScenePeers { changed: true }, ConnectReply::ScenePeersInstalled(false)),
        (ConnectStage::Finished, ConnectAction::AbortCandidate("generation is stale".to_string()))
    );
    assert_eq!(
        connect_step(ConnectStage::PeersReady { changed: true }, ConnectReply::PeersReady(false)),
        (ConnectStage::Finished, ConnectAction::AbortCandidate("scene actor is unavailable".to_string()))
    );
    assert_eq!(
        connect_step(ConnectStage::Confirm { changed: false }, ConnectReply::StillCurrent(false)),
        (ConnectStage::Finished, ConnectAction::AbortCandidate("LV1 connection was superseded".to_string()))
    );
    assert_eq!(
        connect_step(ConnectStage::Metadata, ConnectReply::PeersReady(true)),
        (ConnectStage::Metadata, ConnectAction::Ignore)
    );
}

#[test]
fn a_failed_shutdown_disconnect_still_invalidates_the_runtime() {
    let mut lifecycle: LifecycleInner<&str> = LifecycleInner::new(0);
    let generation = lifecycle.begin_connecting();
    assert!(lifecycle
        .install_runtime_transaction(InstalledRuntime { generation, endpoints: "console" })
        .is_ok());
    assert!(lifecycle.finish_shutdown(true));
    assert_eq!(lifecycle.active_generation(), generation);
    assert!(lifecycle.current_runtime().is_some());

    assert!(!lifecycle.finish_shutdown(false));
    assert_eq!(lifecycle.active_generation(), generation + 1);
    assert!(lifecycle.current_runtime().is_none());
}

#[test]
fn discovery_failures_send_no_replacement() {
    assert_eq!(discovery_replacement(Ok(vec![1, 2])), Ok(vec![1, 2]));
    assert_eq!(
        discovery_replacement::<u8>(Err(DiscoveryFailure::Worker("panicked".to_string()))),
        Err("LV1 discovery worker failed: panicked".to_string())
    );
    assert_eq!(
        discovery_replacement::<u8>(Err(DiscoveryFailure::Discover("timed out".to_string()))),
        Err("Failed to discover LV1 systems: timed out".to_string())
    );
}
