use qbz::engine::{
    clamp_percent, BufferingLatch, LoadAction, LoadEvent, TrackLoad, VolumeMode, BUFFERING_MAX_MS,
};

#[test]
fn buffering_latch_tracks_one_track_at_a_time() {
    let mut latch = BufferingLatch::default();
    assert!(latch.in_flight(7, 0, 0).is_none(), "nothing is buffering initially");

    latch.begin(7, 0, 200, 0);
    assert_eq!(latch.in_flight(7, 0, 0), Some((7, 0, 200)));

    // A track change supersedes: the old track's late clear must not release the
    // new track's buffering state.
    latch.begin(8, 0, 300, 0);
    latch.finish(7);
    assert_eq!(latch.in_flight(8, 0, 0), Some((8, 0, 300)), "stale clear must be ignored");

    latch.finish(8);
    assert!(latch.in_flight(8, 0, 0).is_none(), "explicit clear releases it");
}

#[test]
fn buffering_latch_reports_the_loading_track_not_the_players() {
    let mut latch = BufferingLatch::default();
    latch.begin(12, 139, 254, 0);
    assert_eq!(
        latch.in_flight(11, 42_000, 0),
        Some((12, 139, 254)),
        "outgoing track playing: still the new track's load"
    );
    assert_eq!(
        latch.in_flight(0, 0, 0),
        Some((12, 139, 254)),
        "player empty after a hand-off: still the new track's load"
    );
}

#[test]
fn buffering_latch_clears_only_once_the_clock_moves() {
    let mut latch = BufferingLatch::default();
    latch.begin(9, 80, 200, 0);
    assert!(latch.in_flight(9, 80_000, 0).is_some(), "still filling at the start offset");
    assert!(latch.in_flight(9, 80_000, 0).is_some(), "repeated ticks stay buffering");
    assert!(latch.in_flight(9, 80_050, 0).is_none(), "clock moved: audio is flowing");
    assert!(latch.in_flight(9, 80_050, 0).is_none(), "and it stays cleared");
}

#[test]
fn buffering_latch_gives_up_on_a_load_that_never_starts() {
    let mut latch = BufferingLatch::default();
    latch.begin(9, 0, 200, 5);
    assert!(latch.in_flight(9, 0, 5 + BUFFERING_MAX_MS).is_some());
    // Past the safety window: a load that never becomes audible must not report
    // buffering forever.
    assert!(latch.in_flight(9, 0, 5 + BUFFERING_MAX_MS + 1_000).is_none());
}

#[test]
fn software_mode_applies_and_reports_real() {
    let mode = VolumeMode::from_kv(Some("software"));
    assert_eq!(mode, VolumeMode::Software);
    assert!(mode.applies_remote_volume());
    assert_eq!(mode.reported_volume_pct(40), 40);
    assert_eq!(mode.reported_volume_pct(100), 100);
}

#[test]
fn locked_mode_ignores_and_reports_100() {
    let mode = VolumeMode::from_kv(Some("locked"));
    assert_eq!(mode, VolumeMode::Locked);
    assert!(!mode.applies_remote_volume());
    // 100 reported regardless of the player's actual level.
    assert_eq!(mode.reported_volume_pct(40), 100);
    assert_eq!(mode.reported_volume_pct(100), 100);
}

#[test]
fn default_mode_is_software_od4() {
    assert_eq!(VolumeMode::default(), VolumeMode::Software);
    assert_eq!(VolumeMode::from_kv(None), VolumeMode::Software);
    assert_eq!(VolumeMode::from_kv(Some("")), VolumeMode::Software);
    assert_eq!(VolumeMode::from_kv(Some("  ")), VolumeMode::Software);
    assert_eq!(VolumeMode::from_kv(Some("garbage")), VolumeMode::Software);
    // Whitespace around the real value is tolerated.
    assert_eq!(VolumeMode::from_kv(Some(" locked ")), VolumeMode::Locked);
}

#[test]
fn a_volume_is_held_within_percent() {
    assert_eq!(clamp_percent(-5), 0);
    assert_eq!(clamp_percent(37), 37);
    assert_eq!(clamp_percent(140), 100);
}

fn load() -> TrackLoad {
    TrackLoad::new(42, 200, 30)
}

#[test]
fn a_load_that_streams_keeps_its_latch() {
    let mut latch = BufferingLatch::default();
    let mut load = load();
    let step = load.step(&mut latch, 1_000, LoadEvent::UrlResolved);
    assert!(matches!(step.action, LoadAction::OpenStream));
    let step = load.step(&mut latch, 1_001, LoadEvent::StreamStarted);
    assert!(matches!(step.action, LoadAction::Finish(Ok(()))));
    assert_eq!(latch.in_flight(0, 0, 1_002), Some((42, 30, 200)));
}

#[test]
fn a_load_without_a_url_fails() {
    let mut latch = BufferingLatch::default();
    let mut load = load();
    let step = load.step(&mut latch, 0, LoadEvent::UrlFailed("no rights".to_string()));
    match step.action {
        LoadAction::Finish(Err(message)) => assert!(message.contains("no rights"), "{message}"),
        _ => panic!("the load must fail"),
    }
    assert!(latch.in_flight(0, 0, 0).is_none());
}

#[test]
fn a_stream_that_cannot_open_is_downloaded_instead() {
    let mut latch = BufferingLatch::default();
    let mut load = load();
    load.step(&mut latch, 0, LoadEvent::UrlResolved);
    let step = load.step(&mut latch, 0, LoadEvent::StreamFailed("probe".to_string()));
    assert!(matches!(step.action, LoadAction::Download));
    let step = load.step(&mut latch, 0, LoadEvent::Downloaded);
    assert!(matches!(step.action, LoadAction::PlayData));
    let step = load.step(&mut latch, 0, LoadEvent::Played);
    assert!(matches!(step.action, LoadAction::Finish(Ok(()))));
}

#[test]
fn a_header_flood_goes_to_the_segmented_stream() {
    let mut latch = BufferingLatch::default();
    let mut load = load();
    load.step(&mut latch, 0, LoadEvent::UrlResolved);
    let step = load.step(
        &mut latch,
        0,
        LoadEvent::StreamFailed("HTTP parse: Message Head is too LARGE".to_string()),
    );
    assert!(matches!(step.action, LoadAction::PlaySegmented));
    let step = load.step(&mut latch, 0, LoadEvent::FallbackFailed("no key".to_string()));
    match step.action {
        LoadAction::Finish(Err(message)) => {
            assert_eq!(message, "CMAF fallback for remote track 42: no key");
        },
        _ => panic!("the load must fail"),
    }
    assert!(step.report, "the controller must not be left waiting");
    assert!(latch.in_flight(0, 0, 0).is_none());
}

#[test]
fn a_failed_download_names_its_cause_and_clears_the_latch() {
    let mut latch = BufferingLatch::default();
    let mut load = load();
    load.step(&mut latch, 0, LoadEvent::UrlResolved);
    load.step(&mut latch, 0, LoadEvent::StreamFailed("probe".to_string()));
    let step = load.step(&mut latch, 0, LoadEvent::DownloadFailed("timed out".to_string()));
    match step.action {
        LoadAction::Finish(Err(message)) => assert_eq!(message, "timed out"),
        _ => panic!("the load must fail"),
    }
    assert!(step.report);
    assert!(latch.in_flight(0, 0, 0).is_none());
}

#[test]
fn a_download_that_cannot_play_names_its_track() {
    let mut latch = BufferingLatch::default();
    let mut load = load();
    load.step(&mut latch, 0, LoadEvent::UrlResolved);
    load.step(&mut latch, 0, LoadEvent::StreamFailed("probe".to_string()));
    load.step(&mut latch, 0, LoadEvent::Downloaded);
    let step = load.step(&mut latch, 0, LoadEvent::PlayFailed("no device".to_string()));
    match step.action {
        LoadAction::Finish(Err(message)) => {
            assert_eq!(message, "play remote track 42: no device");
        },
        _ => panic!("the load must fail"),
    }
}
