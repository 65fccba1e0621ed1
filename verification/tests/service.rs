use qbz::engine::VolumeMode;
use qbz::pairing::{PairingTokens, TransportConfig};
use qbz::service::{
    latch_lifecycle_into_shared, next_watchdog_generation, AutoConnect, AutoConnectStep,
    ConnectReply, ConnectStep, DaemonQconnectService, QconnectHandle, QconnectLifecycleState,
    ShutdownWork,
};

const NOW: u64 = 1_700_000_000;

fn service() -> DaemonQconnectService {
    DaemonQconnectService::new(true, "QBZ".to_string())
}

fn config(reconnect_idle_retry_ms: u64) -> TransportConfig {
    TransportConfig {
        endpoint_url: "wss://account".to_string(),
        jwt_qws: None,
        require_jwt: false,
        reconnect_idle_retry_ms,
        subscribe_channels: Vec::new(),
    }
}

fn tokens(ws_exp: u64) -> PairingTokens {
    PairingTokens {
        session_id: "s".into(),
        ws_jwt: "paired".into(),
        ws_exp,
        ws_endpoint: "wss://paired".into(),
        api_jwt: Some("api".into()),
        api_exp: 0,
    }
}

#[test]
fn a_state_is_published_by_its_name() {
    let mut status = service().status;
    for (state, label, active) in [
        (QconnectLifecycleState::Off, "off", false),
        (QconnectLifecycleState::Connecting, "connecting", false),
        (QconnectLifecycleState::Exhausted, "exhausted", false),
    ] {
        latch_lifecycle_into_shared(&mut status, state, NOW);
        assert_eq!(status.state, label);
        assert_eq!(status.session_active, active);
        assert_eq!(status.last_transport_reconnect, None);
        assert!(!status.network_online);
    }
    latch_lifecycle_into_shared(&mut status, QconnectLifecycleState::Connected, NOW);
    assert_eq!(status.state, "connected");
    assert!(status.session_active && status.network_online);
    latch_lifecycle_into_shared(&mut status, QconnectLifecycleState::Reconnecting, NOW);
    assert_eq!(status.state, "retrying");
    assert!(!status.session_active && status.network_online);
    assert_eq!(status.last_transport_reconnect.as_deref(), Some("1700000000"));
}

#[test]
fn a_connect_goes_from_credentials_to_a_session() {
    let mut service = service();
    service.last_pushed_queue_ids = Some(vec![1]);
    let (mut run, step) = service.connect(true, VolumeMode::Locked, NOW);
    assert!(matches!(step, ConnectStep::Resolve));
    assert_eq!(service.status.state, "connecting");
    let step = run.step(&mut service, ConnectReply::Resolved(Ok(config(0))), NOW);
    match step {
        ConnectStep::Open(config) => assert_eq!(config.endpoint_url, "wss://account"),
        _ => panic!("the connection must be opened"),
    }
    let step = run.step(&mut service, ConnectReply::Opened(Ok(())), NOW);
    assert!(matches!(step, ConnectStep::Start { pin_volume: true, idle_retry: false }));
    assert!(service.running);
    assert_eq!(service.last_pushed_queue_ids, None);
    let step = run.step(&mut service, ConnectReply::Bootstrapped(Ok("Room".to_string())), NOW);
    assert!(matches!(step, ConnectStep::Finish(Ok(()))));
    assert_eq!(service.status.device_name, "Room");

    // A second connect does nothing.
    let (_, step) = service.connect(true, VolumeMode::Software, NOW);
    assert!(matches!(step, ConnectStep::Finish(Ok(()))));
    assert!(service.running);

    // Transitions of a running session are announced when they change it.
    assert!(service.update_lifecycle_state_if_running(QconnectLifecycleState::Connected, NOW));
    assert!(!service.update_lifecycle_state_if_running(QconnectLifecycleState::Connected, NOW));
    assert!(service.status.session_active);

    assert!(service.disconnect(), "there is a connection to close");
    service.disconnected(Err("gone".to_string()));
    assert_eq!(service.status.state, "off");
    assert!(!service.status.session_active && !service.running);
    assert_eq!(service.last_error.as_deref(), Some("qconnect disconnect failed: gone"));
    assert!(!service.update_lifecycle_state_if_running(QconnectLifecycleState::Connected, NOW));
}

#[test]
fn handed_over_credentials_come_first() {
    let mut service = service();
    service.pairing_store.tokens = Some(tokens(0));
    let (mut run, step) = service.connect(true, VolumeMode::Software, NOW);
    match step {
        ConnectStep::Open(config) => {
            assert_eq!(config.endpoint_url, "wss://paired");
            assert_eq!(config.jwt_qws.as_deref(), Some("paired"));
        },
        _ => panic!("the paired connection must be opened"),
    }
    let step = run.step(&mut service, ConnectReply::Opened(Ok(())), NOW);
    assert!(matches!(step, ConnectStep::Start { pin_volume: false, idle_retry: true }));
}

#[test]
fn expired_credentials_are_dropped() {
    let mut service = service();
    service.pairing_store.tokens = Some(tokens(NOW));
    let (_, step) = service.connect(true, VolumeMode::Software, NOW);
    assert!(matches!(step, ConnectStep::Resolve));
    assert!(service.pairing_store.tokens.is_none());
}

fn failure(step: ConnectStep) -> String {
    match step {
        ConnectStep::Finish(Err(why)) => why,
        _ => panic!("the connect must fail"),
    }
}

#[test]
fn each_failure_of_a_connect_is_named() {
    let mut service = service();
    let (_, step) = service.connect(false, VolumeMode::Software, NOW);
    assert_eq!(failure(step), "Qobuz API is not initialized; cannot start Qobuz Connect");
    assert_eq!(service.status.state, "off");

    let (mut run, _) = service.connect(true, VolumeMode::Software, NOW);
    // While one is on its way, another does nothing.
    let (_, step) = service.connect(true, VolumeMode::Software, NOW);
    assert!(matches!(step, ConnectStep::Finish(Ok(()))));
    let step = run.step(&mut service, ConnectReply::Resolved(Err("no token".to_string())), NOW);
    assert_eq!(failure(step), "no token");
    assert_eq!(service.lifecycle_state, QconnectLifecycleState::Off);
    assert_eq!(service.status.state, "off");

    let (mut run, _) = service.connect(true, VolumeMode::Software, NOW);
    run.step(&mut service, ConnectReply::Resolved(Ok(config(5))), NOW);
    let step = run.step(&mut service, ConnectReply::Opened(Err("refused".to_string())), NOW);
    assert_eq!(failure(step), "qconnect transport connect failed: refused");
    assert_eq!(
        service.last_error.as_deref(),
        Some("qconnect transport connect failed: refused")
    );
    assert_eq!(service.lifecycle_state, QconnectLifecycleState::Off);

    let (mut run, _) = service.connect(true, VolumeMode::Software, NOW);
    run.step(&mut service, ConnectReply::Resolved(Ok(config(5))), NOW);
    let step = run.step(&mut service, ConnectReply::Opened(Ok(())), NOW);
    assert!(matches!(step, ConnectStep::Start { pin_volume: false, idle_retry: true }));
    let step = run.step(&mut service, ConnectReply::Bootstrapped(Err("late".to_string())), NOW);
    assert!(matches!(step, ConnectStep::TearDown));
    assert!(service.disconnect());
    service.disconnected(Ok(()));
    let step = run.step(&mut service, ConnectReply::TornDown, NOW);
    assert_eq!(failure(step), "qconnect bootstrap failed: late");
    assert_eq!(service.last_error.as_deref(), Some("qconnect bootstrap failed: late"));
    assert!(!service.running);
}

#[test]
fn a_takeover_joins_as_the_active_renderer() {
    let mut service = service();
    service.pairing_store.tokens = Some(tokens(0));
    assert_eq!(service.takeover_bearer(NOW), Some(Some("api".to_string())));
    assert!(!service.disconnect());
    assert!(!service.handoff_join_pending);
    let (_, step) = service.reconnect_for_pairing(true, VolumeMode::Software, NOW);
    assert!(matches!(step, ConnectStep::Open(_)));
    assert!(service.handoff_join_pending);
    // The operator's disconnect forgets it all.
    service.forget_pairing();
    assert!(!service.handoff_join_pending);
    assert_eq!(service.takeover_bearer(NOW), None);
}

#[test]
fn the_automatic_connect_slows_down_and_gives_up() {
    let mut auto = AutoConnect::new();
    assert_eq!(auto.connect_on_ready(true, false), AutoConnectStep::Poll(500));
    assert_eq!(auto.connect_on_ready(false, true), AutoConnectStep::Poll(500));
    assert_eq!(auto.connect_on_ready(true, true), AutoConnectStep::Connect);
    for delay in [2_000, 5_000, 15_000, 30_000] {
        assert_eq!(auto.attempted(false), AutoConnectStep::Retry(delay));
    }
    assert_eq!(auto.attempted(false), AutoConnectStep::GiveUp);
    assert_eq!(AutoConnect::new().attempted(true), AutoConnectStep::Connected);
}

#[test]
fn a_shutdown_ends_with_the_disconnect() {
    let mut handle = QconnectHandle::start(true, true);
    assert_eq!(
        handle.shutdown(),
        [
            ShutdownWork::StopPairing,
            ShutdownWork::AbortTakeover,
            ShutdownWork::StopWatcher,
            ShutdownWork::StopReports,
            ShutdownWork::StopPublishing,
            ShutdownWork::StopRefresh,
            ShutdownWork::Disconnect,
        ]
    );
    assert_eq!(handle.shutdown(), [ShutdownWork::AbortTakeover, ShutdownWork::Disconnect]);
    assert_eq!(
        QconnectHandle::start(false, false).shutdown(),
        [
            ShutdownWork::AbortTakeover,
            ShutdownWork::StopReports,
            ShutdownWork::StopPublishing,
            ShutdownWork::Disconnect,
        ]
    );
}

#[test]
fn the_pairing_port_shows_what_is_bound() {
    let mut service = service();
    assert!(service.status.enabled);
    service.pairing_started(Some(4711));
    assert!(service.status.pairing);
    assert_eq!(service.status.pairing_port, Some(4711));
    service.pairing_started(None);
    assert!(!service.status.pairing);
}

#[test]
fn a_watchdog_generation_is_never_the_one_before() {
    assert_eq!(next_watchdog_generation(4), 5);
    assert_eq!(next_watchdog_generation(u64::MAX), 0);
}
