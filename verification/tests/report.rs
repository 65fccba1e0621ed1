use qbz::engine::BufferingLatch;
use qbz::renderer::{PLAYING_STATE_PAUSED, PLAYING_STATE_PLAYING, PLAYING_STATE_STOPPED};
use qbz::queue::QueueVersion;
use qbz::renderer_model::QconnectRemoteSyncState;
use qbz::report::{
    awaiting_next_track, build_file_audio_quality_snapshot, classify_audio_quality,
    clock_is_at_the_end, report_playback_state, BufferHealth, LiveOutput, NegotiatedRate,
    PlaybackReport, PlayerReading, QueuePlace, RendererReport, ReportBody, ReportScheduler, AUDIO_QUALITY_CD,
    AUDIO_QUALITY_HIRES_L1, AUDIO_QUALITY_HIRES_L2, AUDIO_QUALITY_HIRES_L3, AUDIO_QUALITY_MP3,
    AUDIO_QUALITY_UNKNOWN, IDLE_FLOOR_MS, LOADING_FLOOR_MS,
};

#[test]
fn classify_audio_quality_matches_the_desktop_thresholds() {
    assert_eq!(classify_audio_quality(0, 0), AUDIO_QUALITY_UNKNOWN);
    assert_eq!(classify_audio_quality(44_100, 16), AUDIO_QUALITY_CD);
    assert_eq!(classify_audio_quality(48_000, 16), AUDIO_QUALITY_CD);
    assert_eq!(classify_audio_quality(96_000, 24), AUDIO_QUALITY_HIRES_L1);
    assert_eq!(classify_audio_quality(192_000, 24), AUDIO_QUALITY_HIRES_L2);
    assert_eq!(classify_audio_quality(384_000, 24), AUDIO_QUALITY_HIRES_L3);
    assert_eq!(classify_audio_quality(22_050, 16), AUDIO_QUALITY_MP3);
}

#[test]
fn snapshot_is_none_until_format_known() {
    assert!(build_file_audio_quality_snapshot(0, 0, 2).is_none());
    let snap = build_file_audio_quality_snapshot(96_000, 24, 2).expect("known format");
    assert_eq!(snap.sampling_rate, 96_000);
    assert_eq!(snap.bit_depth, 24);
    assert_eq!(snap.nb_channels, 2);
    assert_eq!(snap.audio_quality, AUDIO_QUALITY_HIRES_L1);
}

#[test]
fn the_clock_is_at_the_end_only_while_playing_a_track_of_known_length() {
    assert!(clock_is_at_the_end(true, 258, 258));
    assert!(clock_is_at_the_end(true, 259, 258), "past the end counts too");
    assert!(!clock_is_at_the_end(true, 257, 258));
    // Paused at the end is not a load, it is a paused track.
    assert!(!clock_is_at_the_end(false, 258, 258));
    // A stream with no duration yet would otherwise read as permanently finished
    // at position 0.
    assert!(!clock_is_at_the_end(true, 0, 0));
}

#[test]
fn a_gapless_handoff_passes_through_without_arming() {
    let mut since = None;
    let grace_ms = 3600 * 1000;
    // A whole grace period has not elapsed on the first observation.
    assert!(!awaiting_next_track(true, &mut since, grace_ms, 10));
    assert!(since.is_some(), "the wait is now being timed");
    // The next track starts: forget it happened.
    assert!(!awaiting_next_track(false, &mut since, grace_ms, 20));
    assert!(since.is_none());
}

#[test]
fn a_wait_that_outlasts_the_grace_arms_and_stays_armed() {
    let mut since = None;
    assert!(awaiting_next_track(true, &mut since, 0, 10));
    let first = since;
    assert!(awaiting_next_track(true, &mut since, 0, 20));
    assert_eq!(since, first, "the timer keeps its original start across ticks");
}

fn playing(track_id: u64, position_secs: u64, duration_secs: u64) -> PlayerReading {
    PlayerReading {
        track_id,
        is_playing: true,
        position_secs,
        duration_secs,
        clock_ms: position_secs * 1000,
    }
}

fn paused(track_id: u64) -> PlayerReading {
    PlayerReading { is_playing: false, ..playing(track_id, 5, 100) }
}

#[test]
fn a_load_reports_the_track_it_loads() {
    let mut scheduler = ReportScheduler::default();
    let mut latch = BufferingLatch::default();
    latch.begin(12, 139, 254, 0);
    let outcome = scheduler.tick(&mut latch, playing(11, 42, 200), true, 5);
    let report = outcome.report.expect("a load is reported");
    assert_eq!(report.track_id, 12);
    assert_eq!(report.position_ms, 139_000);
    assert_eq!(report.duration_ms, 254_000);
    assert_eq!(report.playing_state, PLAYING_STATE_PLAYING);
    assert_eq!(report.buffer, BufferHealth::Buffering);
    assert_eq!(outcome.sync_cursor_to, None);
    assert_eq!(scheduler.floor_ms, LOADING_FLOOR_MS);
}

#[test]
fn a_load_that_gives_up_is_retracted() {
    let mut scheduler = ReportScheduler::default();
    let mut latch = BufferingLatch::default();
    latch.begin(12, 0, 254, 0);
    scheduler.tick(&mut latch, paused(0), false, 5);
    latch.finish(12);
    let report = scheduler.tick(&mut latch, paused(0), true, 300).report.expect("retracted");
    assert_eq!(report.buffer, BufferHealth::Good);
    assert_eq!(report.playing_state, PLAYING_STATE_STOPPED);
    // Only once.
    assert!(scheduler.tick(&mut latch, paused(0), true, 600).report.is_none());
}

#[test]
fn a_paused_track_is_reported_on_changes_only() {
    let mut scheduler = ReportScheduler::default();
    let mut latch = BufferingLatch::default();
    assert!(scheduler.tick(&mut latch, paused(3), true, 0).report.is_none());
    let report = scheduler.tick(&mut latch, paused(3), false, 0).report.expect("a change");
    assert_eq!(report.playing_state, PLAYING_STATE_PAUSED);
    assert_eq!(report.position_ms, 5_000);
    assert_eq!(scheduler.floor_ms, IDLE_FLOOR_MS);
}

#[test]
fn the_cursor_follows_the_audible_track() {
    let mut scheduler = ReportScheduler::default();
    let mut latch = BufferingLatch::default();
    let outcome = scheduler.tick(&mut latch, playing(7, 10, 100), true, 0);
    assert_eq!(outcome.sync_cursor_to, Some(7));
    // At the end of the track for longer than the grace: the next one loads.
    let outcome = scheduler.tick(&mut latch, playing(7, 100, 100), true, 1_000);
    assert_eq!(outcome.report.map(|r| r.buffer), Some(BufferHealth::Good));
    let outcome = scheduler.tick(&mut latch, playing(7, 100, 100), true, 2_000);
    assert_eq!(outcome.report.map(|r| r.buffer), Some(BufferHealth::Buffering));
    assert_eq!(outcome.sync_cursor_to, None);
}

#[test]
fn a_change_is_followed_up_soon() {
    let mut scheduler = ReportScheduler::default();
    let mut latch = BufferingLatch::default();
    let report = scheduler.tick(&mut latch, playing(7, 10, 100), true, 0).report.unwrap();
    assert!(scheduler.reported(report));
    assert_eq!(scheduler.floor_ms, LOADING_FLOOR_MS);
    let report = scheduler.tick(&mut latch, playing(7, 11, 100), true, 300).report.unwrap();
    assert!(!scheduler.reported(report), "a new position is no change");
    assert_eq!(scheduler.floor_ms, IDLE_FLOOR_MS);
}

fn report(position_ms: i64, duration_ms: i64, buffer: BufferHealth) -> PlaybackReport {
    PlaybackReport {
        playing_state: PLAYING_STATE_PLAYING,
        buffer,
        position_ms,
        duration_ms,
        track_id: 7,
    }
}

const PLACE: QueuePlace = QueuePlace {
    current_queue_item_id: Some(70),
    next_queue_item_id: Some(80),
    next_track_id: Some(8),
};

const VERSION: QueueVersion = QueueVersion { major: 5, minor: 2 };

const OUTPUT: LiveOutput = LiveOutput {
    sample_rate: 96_000,
    bit_depth: 24,
    negotiated: Some(NegotiatedRate { sample_rate: 48_000, channels: 2 }),
};

#[test]
fn a_report_tells_the_file_from_the_device() {
    let mut sync = QconnectRemoteSyncState::default();
    let plan = report_playback_state(
        &mut sync,
        true,
        report(1_500, 9_000, BufferHealth::Good),
        PLACE,
        VERSION,
        OUTPUT,
    )
    .expect("this device renders");
    assert_eq!(plan.report.queue_version, VERSION);
    assert_eq!(
        plan.report.body,
        ReportBody::Playback {
            playing_state: 2,
            buffer: BufferHealth::Good,
            position_ms: 1_500,
            duration_ms: 9_000,
            current_queue_item_id: Some(70),
            next_queue_item_id: Some(80),
        }
    );
    assert_eq!(plan.position_ms, Some(1_500));
    assert_eq!(plan.duration_ms, Some(9_000));
    assert_eq!(plan.file.unwrap().sampling_rate, 96_000);
    let device = plan.device.unwrap();
    assert_eq!((device.sampling_rate, device.bit_depth, device.nb_channels), (48_000, 24, 2));
    assert_eq!(sync.last_renderer_queue_item_id, Some(70));
    assert_eq!(sync.last_renderer_track_id, Some(7));
    assert_eq!(sync.last_renderer_next_track_id, Some(8));
}

#[test]
fn a_device_that_negotiated_nothing_runs_the_files_format() {
    let mut sync = QconnectRemoteSyncState::default();
    let output = LiveOutput { negotiated: None, ..OUTPUT };
    let good = report(0, 0, BufferHealth::Good);
    let plan = report_playback_state(&mut sync, true, good, PLACE, VERSION, output).unwrap();
    assert_eq!(plan.device.unwrap().sampling_rate, 96_000);
    assert_eq!(plan.position_ms, Some(0));
    assert_eq!(plan.duration_ms, None);
    let unknown = LiveOutput { sample_rate: 0, ..OUTPUT };
    let plan = report_playback_state(&mut sync, true, good, PLACE, VERSION, unknown).unwrap();
    assert!(plan.file.is_none() && plan.device.is_none());
}

#[test]
fn a_position_is_not_published_while_buffering() {
    let mut sync = QconnectRemoteSyncState::default();
    let buffering = report(80_000, 200_000, BufferHealth::Buffering);
    let plan = report_playback_state(&mut sync, true, buffering, PLACE, VERSION, OUTPUT).unwrap();
    assert_eq!(plan.position_ms, None);
    assert_eq!(plan.duration_ms, Some(200_000));
}

#[test]
fn a_track_outside_the_queue_has_no_items() {
    let mut sync = QconnectRemoteSyncState::default();
    let nowhere = QueuePlace { current_queue_item_id: None, ..PLACE };
    let good = report(0, 0, BufferHealth::Good);
    let plan = report_playback_state(&mut sync, true, good, nowhere, VERSION, OUTPUT).unwrap();
    let ReportBody::Playback { current_queue_item_id, next_queue_item_id, .. } = plan.report.body
    else {
        panic!("a playback report");
    };
    assert_eq!((current_queue_item_id, next_queue_item_id), (None, None));
    assert_eq!(sync.last_renderer_track_id, None);
}

#[test]
fn only_the_active_renderer_reports() {
    let mut sync = QconnectRemoteSyncState::default();
    let good = report(0, 0, BufferHealth::Good);
    assert!(report_playback_state(&mut sync, false, good, PLACE, VERSION, OUTPUT).is_none());
    assert_eq!(sync.last_renderer_track_id, None);
}

#[test]
fn every_report_has_an_identifier_of_its_own() {
    let first = RendererReport::new(VERSION, ReportBody::Active);
    let second = RendererReport::new(VERSION, ReportBody::Active);
    assert_ne!(first.id, second.id);
    for id in [first.id, second.id] {
        assert_eq!(id.len(), 36);
        for (i, c) in id.chars().enumerate() {
            match i {
                8 | 13 | 18 | 23 => assert_eq!(c, '-'),
                14 => assert_eq!(c, '4'),
                19 => assert!(matches!(c, '8' | '9' | 'a' | 'b')),
                _ => assert!(matches!(c, '0'..='9' | 'a'..='f')),
            }
        }
    }
}
