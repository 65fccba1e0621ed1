use qbz::engine::VolumeMode;
use qbz::queue::{QConnectQueueState, QueueItem, QueueVersion};
use qbz::renderer_model::{
    EngineCall, PlaybackState, QConnectRendererState, QconnectRemoteSyncState, RendererCommand,
    RunStep,
};
use qbz::report::ReportBody;
use qbz::sink::{
    apply_session_management_event, on_event, projected_cursor, queue_updated,
    report_active_renderer_ready, report_volume, sync_active_renderer_projection, sync_local_playback_for_renderer_ownership, DaemonEventSink,
    EventWork, ProjectionWork, QconnectAppEvent, SessionApplyOutcome, SessionRenderers,
    SessionWork,
};

fn payload(text: &str) -> serde_json::Value {
    serde_json::from_str(text).expect("valid JSON")
}

/// A sink of a renderer that joined at `at`.
fn joined(at: u64) -> DaemonEventSink {
    let mut sink = DaemonEventSink::new();
    let note = sink.note_command(&RendererCommand::SetActive { active: true });
    let follow_up = sink.command_applied(note, true, at);
    assert!(follow_up.report_ready && follow_up.report_volume && follow_up.latch_ownership);
    sink
}

#[test]
fn a_stale_volume_is_corrected_once() {
    let mut sink = joined(1_000);
    let stale = payload("{\"renderer_id\":3,\"volume\":75}");
    assert!(sink.assert_join_volume(&stale, Some(3), 40, 1_700));
    // A controller that insists wins.
    assert!(!sink.assert_join_volume(&stale, Some(3), 40, 1_800));
    // Until the renderer joins again.
    let note = sink.note_command(&RendererCommand::SetActive { active: true });
    sink.command_applied(note, true, 9_000);
    assert!(sink.assert_join_volume(&stale, Some(3), 40, 9_100));
}

#[test]
fn a_volume_is_left_alone_where_it_is_right_or_not_ours_or_late() {
    let stale = payload("{\"renderer_id\":3,\"volume\":75}");
    assert!(!joined(1_000).assert_join_volume(&stale, Some(3), 75, 1_100), "it agrees");
    assert!(!joined(1_000).assert_join_volume(&stale, Some(4), 40, 1_100), "another's");
    assert!(!joined(1_000).assert_join_volume(&stale, None, 40, 1_100), "who we are is unknown");
    assert!(!joined(1_000).assert_join_volume(&stale, Some(3), 40, 6_000), "too late");
    assert!(joined(1_000).assert_join_volume(&stale, Some(3), 40, 5_999));
    assert!(!DaemonEventSink::new().assert_join_volume(&stale, Some(3), 40, 0), "never joined");
    let mute = payload("{\"renderer_id\":3}");
    assert!(!joined(1_000).assert_join_volume(&mute, Some(3), 40, 1_100));
    let nobody = payload("{\"renderer_id\":\"3\",\"volume\":75}");
    assert!(!joined(1_000).assert_join_volume(&nobody, Some(3), 40, 1_100));
}

#[test]
fn a_volume_that_is_set_needs_no_defence() {
    let mut sink = joined(1_000);
    let note = sink.note_command(&RendererCommand::SetVolume { volume: Some(75) });
    let follow_up = sink.command_applied(note, true, 1_050);
    assert!(!follow_up.report_ready && !follow_up.report_volume && !follow_up.latch_ownership);
    let shown = payload("{\"renderer_id\":3,\"volume\":75}");
    assert!(!sink.assert_join_volume(&shown, Some(3), 40, 1_100));
}

#[test]
fn a_command_that_fails_still_publishes_who_renders() {
    let mut sink = DaemonEventSink::new();
    let note = sink.note_command(&RendererCommand::SetActive { active: true });
    let follow_up = sink.command_applied(note, false, 1_000);
    assert!(!follow_up.report_ready && !follow_up.report_volume && follow_up.latch_ownership);
    assert_eq!(sink.became_active_at, None);
}

#[test]
fn who_renders_falls_back_on_the_last_activation() {
    let mut sink = DaemonEventSink::new();
    let mut sync = QconnectRemoteSyncState::default();
    sink.latch_render_ownership(None, &sync);
    assert!(!sink.is_active);
    sync.local_render_active = Some(true);
    sink.latch_render_ownership(None, &sync);
    assert!(sink.is_active);
    sink.latch_render_ownership(Some(false), &sync);
    assert!(!sink.is_active);
}

#[test]
fn a_peer_is_asked_as_it_takes_over() {
    let mut sink = DaemonEventSink::new();
    assert!(!sink.check_peer(false));
    assert!(sink.check_peer(true));
    assert!(!sink.check_peer(true));
    assert!(!sink.check_peer(false));
    assert!(sink.check_peer(true));
}

#[test]
fn session_work_is_done_in_its_order() {
    let all = SessionApplyOutcome {
        apply_loop_mode: Some(2),
        sync_local_playback: true,
        remote_projection_renderer_id: Some(5),
        disconnected_renderer_id: Some(6),
        watchdog_arm: Some((5, 9)),
    };
    assert_eq!(
        apply_session_management_event(all),
        [
            SessionWork::ApplyLoopMode(2),
            SessionWork::SyncLocalPlayback,
            SessionWork::SyncProjection(5),
            SessionWork::LatchOwnership,
            SessionWork::FreezeProjection(6),
            SessionWork::ArmWatchdog(5, 9),
            SessionWork::CheckPeer,
        ]
    );
    let nothing = SessionApplyOutcome {
        apply_loop_mode: None,
        sync_local_playback: false,
        remote_projection_renderer_id: None,
        disconnected_renderer_id: None,
        watchdog_arm: None,
    };
    assert_eq!(
        apply_session_management_event(nothing),
        [SessionWork::LatchOwnership, SessionWork::CheckPeer]
    );
}

#[test]
fn local_playback_makes_way_for_a_peer() {
    let loaded = PlaybackState { track_id: 9, position: 4 };
    let empty = PlaybackState { track_id: 0, position: 0 };
    assert!(sync_local_playback_for_renderer_ownership(true, &loaded));
    assert!(!sync_local_playback_for_renderer_ownership(true, &empty));
    assert!(!sync_local_playback_for_renderer_ownership(false, &loaded));
}

#[test]
fn the_cursor_follows_another_active_renderer() {
    let session =
        |active, local| SessionRenderers { active_renderer_id: active, local_renderer_id: local };
    let work = sync_active_renderer_projection;
    assert_eq!(work(5, session(Some(5), Some(2)), true, true), ProjectionWork::CacheAndAlign);
    assert_eq!(work(5, session(Some(5), None), true, true), ProjectionWork::CacheAndAlign);
    assert_eq!(work(5, session(Some(5), Some(5)), true, true), ProjectionWork::Cache);
    assert_eq!(work(5, session(Some(6), Some(2)), true, true), ProjectionWork::Ignore);
    assert_eq!(work(5, session(None, Some(2)), true, true), ProjectionWork::Ignore);
    assert_eq!(work(5, session(Some(5), Some(2)), false, true), ProjectionWork::Ignore);
    assert_eq!(work(5, session(Some(5), Some(2)), true, false), ProjectionWork::Ignore);

    let mut snapshot = QConnectRendererState::default();
    assert_eq!(projected_cursor(ProjectionWork::CacheAndAlign, &snapshot), None);
    snapshot.current_track = Some(QueueItem {
        track_context_uuid: "c".to_string(),
        track_id: 44,
        queue_item_id: 1,
    });
    assert_eq!(projected_cursor(ProjectionWork::CacheAndAlign, &snapshot), Some(44));
    assert_eq!(projected_cursor(ProjectionWork::Cache, &snapshot), None);
}

#[test]
fn only_one_message_shows_a_volume() {
    let session = |message_type: &str| {
        on_event(&QconnectAppEvent::SessionManagement { message_type: message_type.to_string() })
    };
    assert_eq!(
        session("MESSAGE_TYPE_SRVR_CTRL_VOLUME_CHANGED"),
        EventWork::ApplySession { check_volume: true }
    );
    assert_eq!(
        session("MESSAGE_TYPE_SRVR_CTRL_LOOP_MODE_SET"),
        EventWork::ApplySession { check_volume: false }
    );
    assert_eq!(on_event(&QconnectAppEvent::RendererUpdated), EventWork::CacheSnapshot);
    assert_eq!(on_event(&QconnectAppEvent::QueueUpdated), EventWork::Materialize);
    assert_eq!(on_event(&QconnectAppEvent::RendererCommandApplied), EventWork::ApplyCommand);
    assert_eq!(on_event(&QconnectAppEvent::Notice), EventWork::Log);
}

#[test]
fn a_new_queue_is_remembered_and_materialized_once() {
    let mut sync = QconnectRemoteSyncState::default();
    let mut queue = QConnectQueueState::default();
    for id in [7u64, 8, 7] {
        queue.queue_items.push(QueueItem {
            track_context_uuid: "c".to_string(),
            track_id: id,
            queue_item_id: 10 + id,
        });
    }
    match queue_updated(&mut sync, &queue).1 {
        RunStep::Call(EngineCall::FetchTracks(ids)) => assert_eq!(ids, [7, 8]),
        other => panic!("the tracks must be fetched: {other:?}"),
    }
    assert_eq!(sync.last_remote_queue_state.as_ref().map(|q| q.queue_items.len()), Some(3));
    // The same queue again asks for nothing.
    assert!(matches!(queue_updated(&mut sync, &queue).1, RunStep::Finished(Ok(()))));
}

#[test]
fn the_active_renderer_announces_itself_and_its_volume() {
    let version = QueueVersion { major: 3, minor: 4 };
    let ready = report_active_renderer_ready(version);
    assert_eq!(ready.queue_version, version);
    assert_eq!(ready.body, ReportBody::Active);
    let real = report_volume(version, VolumeMode::Software, 42);
    assert_eq!(real.body, ReportBody::Volume { percent: 42 });
    let locked = report_volume(version, VolumeMode::Locked, 42);
    assert_eq!(locked.body, ReportBody::Volume { percent: 100 });
}

#[test]
fn a_renderer_that_does_not_know_itself_defends_nothing() {
    let view = payload(r#"{"renderer_id": 9999999999, "volume": 75}"#);
    assert!(!joined(0).assert_join_volume(&view, None, 40, 1_000));
    assert!(!joined(0).assert_join_volume(&view, Some(7), 40, 1_000));
    let of_us = payload(r#"{"renderer_id": 7, "volume": 75}"#);
    assert!(!joined(0).assert_join_volume(&of_us, None, 40, 1_000));
    assert!(joined(0).assert_join_volume(&of_us, Some(7), 40, 1_000));
}
