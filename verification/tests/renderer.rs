use qbz::materialize::materialize_remote_queue;
use qbz::queue::{QConnectQueueState, QueueItem, QueueVersion};
use qbz::renderer::{
    align_queue_cursor, ensure_remote_track_loaded, frame_position_ms, is_recent_load_attempt,
    model_track_to_core_queue_track, qconnect_repeat_mode_from_loop_mode,
    queue_state_needs_materialization,
    should_reload_remote_track, RemoteLoadStep, LOAD_ATTEMPT_DEDUP_WINDOW_MS,
    PLAYING_STATE_PAUSED, PLAYING_STATE_PLAYING, PLAYING_STATE_STOPPED,
};
use qbz::renderer_command::{apply_remote_loop_mode, apply_renderer_command};
use qbz::renderer_model::{
    EngineCall, EngineReply, LoadAttempt, PlaybackState, QConnectRendererState,
    QconnectRemoteSyncState, QueueTrack, RendererCommand, RepeatMode, RunStep, Track, TrackAlbum,
    TrackPerformer,
};

#[derive(Default)]
struct MockCalls {
    resumes: u32,
    pauses: u32,
    stops: u32,
    seeks: Vec<u64>,
    set_volumes: Vec<i32>,
    set_repeat_modes: Vec<RepeatMode>,
    set_shuffles: Vec<bool>,
    set_shuffle_flags: Vec<bool>,
    set_queue_with_order: Vec<(bool, Option<Vec<usize>>)>,
    queue_lengths: Vec<usize>,
    set_queues: u32,
    clear_queues: u32,
    play_indexes: Vec<usize>,
    get_tracks_batch: u32,
    start_track_streams: Vec<u64>,
    start_positions: Vec<u64>,
}

/// Records every call; serves a canned playback state and queue.
struct MockEngine {
    calls: MockCalls,
    playback: PlaybackState,
    queue_tracks: Vec<QueueTrack>,
    queue_index: Option<usize>,
    loaded_audio: bool,
    /// Tracks that the catalog does not know.
    unknown: Vec<u64>,
    /// What every fallible call fails with.
    failure: Option<String>,
}

impl MockEngine {
    fn new() -> Self {
        MockEngine {
            calls: MockCalls::default(),
            playback: PlaybackState { track_id: 0, position: 0 },
            queue_tracks: Vec::new(),
            queue_index: None,
            loaded_audio: false,
            unknown: Vec::new(),
            failure: None,
        }
    }

    fn done(&self) -> EngineReply {
        EngineReply::Done(match &self.failure {
            Some(why) => Err(why.clone()),
            None => Ok(()),
        })
    }

    fn make(&mut self, call: EngineCall) -> EngineReply {
        match call {
            EngineCall::Resume => {
                self.calls.resumes += 1;
                self.done()
            },
            EngineCall::Pause => {
                self.calls.pauses += 1;
                self.done()
            },
            EngineCall::Stop => {
                self.calls.stops += 1;
                self.done()
            },
            EngineCall::Seek(secs) => {
                self.calls.seeks.push(secs);
                self.done()
            },
            EngineCall::SetVolume(percent) => {
                self.calls.set_volumes.push(percent);
                self.done()
            },
            EngineCall::SetRepeatMode(mode) => {
                self.calls.set_repeat_modes.push(mode);
                EngineReply::Done(Ok(()))
            },
            EngineCall::SetShuffle(enabled) => {
                self.calls.set_shuffles.push(enabled);
                EngineReply::Done(Ok(()))
            },
            EngineCall::SetShuffleFlag(enabled) => {
                self.calls.set_shuffle_flags.push(enabled);
                EngineReply::Done(Ok(()))
            },
            EngineCall::GetPlaybackState => EngineReply::Playback(self.playback),
            EngineCall::HasLoadedAudio => EngineReply::Loaded(self.loaded_audio),
            EngineCall::GetQueueTracks => EngineReply::Queue {
                ids: self.queue_tracks.iter().map(|t| t.id).collect(),
                current: self.queue_index,
            },
            EngineCall::ResolveQueue {
                queue,
                queue_item_id,
                track_id,
                next_queue_item_id,
                next_track_id,
            } => EngineReply::Resolved {
                start: place(&queue, queue_item_id, track_id),
                next_start: place(&queue, next_queue_item_id, next_track_id),
                order: queue.shuffle_order.clone(),
            },
            EngineCall::ReorderQueue { start_index, order } => {
                self.queue_index = Some(start_index);
                self.calls.set_queue_with_order.push((true, Some(order)));
                EngineReply::Done(Ok(()))
            },
            EngineCall::SetQueue(_) => {
                self.calls.set_queues += 1;
                EngineReply::Done(Ok(()))
            },
            EngineCall::SetQueueWithOrder { tracks, start_index: _, shuffle_enabled, order } => {
                self.calls.set_queue_with_order.push((shuffle_enabled, order));
                self.calls.queue_lengths.push(tracks.len());
                EngineReply::Done(Ok(()))
            },
            EngineCall::ClearQueue => {
                self.calls.clear_queues += 1;
                EngineReply::Done(Ok(()))
            },
            EngineCall::PlayIndex(index) => {
                self.calls.play_indexes.push(index);
                EngineReply::Done(Ok(()))
            },
            EngineCall::FetchTrack(id) => EngineReply::Track(match &self.failure {
                Some(why) => Err(why.clone()),
                None => {
                    if self.unknown.contains(&id) {
                        Err("unknown".to_string())
                    } else {
                        Ok(mock_track(id))
                    }
                },
            }),
            EngineCall::FetchTracks(ids) => {
                self.calls.get_tracks_batch += 1;
                EngineReply::Tracks(match &self.failure {
                    Some(why) => Err(why.clone()),
                    None => Ok(ids
                        .iter()
                        .filter(|id| !self.unknown.contains(id))
                        .map(|id| mock_track(*id))
                        .collect()),
                })
            },
            EngineCall::StartStream { track_id, start_position_secs, .. } => {
                self.calls.start_track_streams.push(track_id);
                self.calls.start_positions.push(start_position_secs);
                self.done()
            },
        }
    }
}

/// Where an entry stands in a queue.
fn place(queue: &QConnectQueueState, item: Option<u64>, track: Option<u64>) -> Option<usize> {
    let by_item = item.and_then(|id| {
        queue
            .queue_items
            .iter()
            .position(|entry| entry.queue_item_id == id && Some(entry.track_id) == track)
    });
    by_item.or_else(|| {
        track.and_then(|id| queue.queue_items.iter().position(|entry| entry.track_id == id))
    })
}

const NOW: u64 = 10_000;

fn try_apply(
    engine: &mut MockEngine,
    sync: &mut QconnectRemoteSyncState,
    command: &RendererCommand,
    renderer_state: &QConnectRendererState,
) -> Result<(), String> {
    let (mut run, mut step) = apply_renderer_command(sync, NOW, command, renderer_state);
    loop {
        match step {
            RunStep::Finished(result) => return result,
            RunStep::Call(call) => {
                let reply = engine.make(call);
                step = run.step(sync, NOW, reply);
            },
        }
    }
}

fn apply(
    engine: &mut MockEngine,
    sync: &mut QconnectRemoteSyncState,
    command: &RendererCommand,
    renderer_state: &QConnectRendererState,
) {
    try_apply(engine, sync, command, renderer_state).unwrap();
}

fn try_materialize(
    engine: &mut MockEngine,
    sync: &mut QconnectRemoteSyncState,
    queue: &QConnectQueueState,
) -> Result<(), String> {
    let (mut run, mut step) = materialize_remote_queue(sync, queue);
    loop {
        match step {
            RunStep::Finished(result) => return result,
            RunStep::Call(call) => {
                let reply = engine.make(call);
                step = run.step(sync, NOW, reply);
            },
        }
    }
}

fn materialize(
    engine: &mut MockEngine,
    sync: &mut QconnectRemoteSyncState,
    queue: &QConnectQueueState,
) {
    try_materialize(engine, sync, queue).unwrap();
}

fn load_at(
    engine: &mut MockEngine,
    sync: &mut QconnectRemoteSyncState,
    track_id: u64,
    now_ms: u64,
) -> bool {
    let (mut run, mut step) = ensure_remote_track_loaded(sync, now_ms, track_id, None, 0);
    loop {
        match step {
            RemoteLoadStep::Settled(result) => return result.unwrap(),
            RemoteLoadStep::Call(call) => {
                let reply = engine.make(call);
                step = run.step(sync, now_ms, reply);
            },
        }
    }
}

fn ensure_loaded(engine: &mut MockEngine, sync: &mut QconnectRemoteSyncState, track_id: u64) {
    load_at(engine, sync, track_id, NOW);
}

fn qi(track_id: u64, queue_item_id: u64) -> QueueItem {
    QueueItem { track_context_uuid: "ctx".to_string(), track_id, queue_item_id }
}

fn mock_track(id: u64) -> Track {
    Track {
        id,
        title: "t".to_string(),
        version: None,
        duration: 100,
        album: None,
        performer: None,
        hires: false,
        maximum_bit_depth: None,
        maximum_sampling_rate_hz: None,
        streamable: true,
        parental_warning: false,
    }
}

fn mock_queue_track(id: u64) -> QueueTrack {
    model_track_to_core_queue_track(&mock_track(id))
}

fn queue_state(
    version: QueueVersion,
    items: Vec<QueueItem>,
    shuffle_mode: bool,
    shuffle_order: Option<Vec<usize>>,
) -> QConnectQueueState {
    QConnectQueueState {
        version,
        queue_items: items,
        shuffle_mode,
        shuffle_order,
        ..QConnectQueueState::default()
    }
}

/// A queue the controller pushed with a selection.
fn pushed_queue_state(
    version: QueueVersion,
    items: Vec<QueueItem>,
    selected_queue_position: u64,
) -> QConnectQueueState {
    QConnectQueueState {
        selected_queue_position: Some(selected_queue_position),
        ..queue_state(version, items, false, None)
    }
}

#[test]
fn ensure_remote_track_loaded_dedups_within_window() {
    let mut engine = MockEngine::new(); // playback track_id 0 != 42 → would reload
    let mut sync = QconnectRemoteSyncState::default();
    ensure_loaded(&mut engine, &mut sync, 42);
    ensure_loaded(&mut engine, &mut sync, 42);
    assert_eq!(engine.calls.start_track_streams, vec![42]);
}

#[test]
fn ensure_remote_track_loaded_skips_when_track_unchanged() {
    let mut engine = MockEngine::new();
    engine.playback = PlaybackState { track_id: 42, position: 0 };
    let mut sync = QconnectRemoteSyncState::default();
    ensure_loaded(&mut engine, &mut sync, 42);
    assert!(engine.calls.start_track_streams.is_empty());
}

#[test]
fn apply_renderer_command_rejects_echo_seek() {
    let mut engine = MockEngine::new();
    engine.playback = PlaybackState { track_id: 7, position: 30 };
    engine.queue_tracks = vec![mock_queue_track(7)];
    engine.queue_index = Some(0);
    let mut sync = QconnectRemoteSyncState::default();
    let cmd = RendererCommand::SetState {
        playing_state: None,
        current_position_ms: Some(0),
        current_track: Some(qi(7, 0)),
        next_track: None,
    };
    apply(&mut engine, &mut sync, &cmd, &QConnectRendererState::default());
    assert!(
        engine.calls.seeks.is_empty(),
        "echo seek must be rejected"
    );
}

#[test]
fn apply_renderer_command_ignores_a_position_meant_for_another_track() {
    let mut engine = MockEngine::new();
    engine.playback = PlaybackState { track_id: 62589635, position: 62 };
    // Already loaded and playing, so the load path short-circuits and
    // leaves `stream_started_at` unset — exactly as observed.
    engine.queue_tracks = vec![mock_queue_track(350617010)];
    engine.queue_index = Some(0);
    let mut sync = QconnectRemoteSyncState::default();
    let cmd = RendererCommand::SetState {
        playing_state: None,
        current_position_ms: Some(0),
        current_track: Some(qi(350617010, 0)),
        next_track: None,
    };
    apply(&mut engine, &mut sync, &cmd, &QConnectRendererState::default());
    assert!(
        engine.calls.seeks.is_empty(),
        "a position for track 350617010 must not seek an engine on 62589635"
    );
}

#[test]
fn apply_renderer_command_still_honors_a_trackless_seek() {
    let mut engine = MockEngine::new();
    engine.playback = PlaybackState { track_id: 7, position: 10 };
    engine.queue_tracks = vec![mock_queue_track(7)];
    engine.queue_index = Some(0);
    let mut sync = QconnectRemoteSyncState::default();
    let cmd = RendererCommand::SetState {
        playing_state: None,
        current_position_ms: Some(90_000),
        current_track: None,
        next_track: None,
    };
    apply(&mut engine, &mut sync, &cmd, &QConnectRendererState::default());
    assert_eq!(engine.calls.seeks, vec![90]);
}

#[test]
fn apply_renderer_command_honors_genuine_seek() {
    let mut engine = MockEngine::new();
    engine.playback = PlaybackState { track_id: 7, position: 10 };
    engine.queue_tracks = vec![mock_queue_track(7)];
    engine.queue_index = Some(0);
    let mut sync = QconnectRemoteSyncState::default();
    let cmd = RendererCommand::SetState {
        playing_state: None,
        current_position_ms: Some(40_000),
        current_track: Some(qi(7, 0)),
        next_track: None,
    };
    apply(&mut engine, &mut sync, &cmd, &QConnectRendererState::default());
    assert_eq!(engine.calls.seeks, vec![40]);
}

#[test]
fn apply_renderer_command_cold_resume_loads_current_track() {
    let mut engine = MockEngine::new();
    // Cursor reports the restored track, but nothing is loaded: the plain
    // track-id guard would skip, which is why the force path is used.
    engine.playback = PlaybackState { track_id: 7, position: 0 };
    engine.queue_tracks = vec![mock_queue_track(7)];
    engine.queue_index = Some(0);
    engine.loaded_audio = false;
    let mut sync = QconnectRemoteSyncState::default();
    let cmd = RendererCommand::SetState {
        playing_state: Some(PLAYING_STATE_PLAYING),
        current_position_ms: None,
        current_track: None,
        next_track: None,
    };
    // The cloud's view carries the session's current track + position.
    let renderer_state = QConnectRendererState {
        current_track: Some(qi(7, 2)),
        current_position_ms: Some(242_491),
        ..Default::default()
    };
    apply(&mut engine, &mut sync, &cmd, &renderer_state);
    let calls = &engine.calls;
    assert_eq!(
        calls.start_track_streams,
        vec![7],
        "cold resume must load the session's current track"
    );
    assert_eq!(
        calls.start_positions,
        vec![242],
        "load must resume at the handed-off position"
    );
    assert_eq!(calls.resumes, 0, "no bare resume on a cold engine");
    assert!(
        calls.seeks.is_empty(),
        "the load already starts at the position; a seek here is dropped for \
         being past the buffered watermark, or rebuilds the engine and \
         re-runs a multi-second sample pre-skip"
    );
}

#[test]
fn apply_renderer_command_track_change_does_not_seek_after_load() {
    let mut engine = MockEngine::new();
    engine.playback = PlaybackState { track_id: 7, position: 84 };
    engine.queue_tracks = vec![mock_queue_track(7), mock_queue_track(8)];
    engine.queue_index = Some(0);
    engine.loaded_audio = true;
    let mut sync = QconnectRemoteSyncState::default();
    let cmd = RendererCommand::SetState {
        playing_state: Some(PLAYING_STATE_PLAYING),
        current_position_ms: Some(0),
        current_track: Some(qi(8, 1)),
        next_track: None,
    };
    apply(&mut engine, &mut sync, &cmd, &QConnectRendererState::default());
    let calls = &engine.calls;
    assert_eq!(calls.start_track_streams, vec![8], "loads the new track");
    assert_eq!(calls.start_positions, vec![0]);
    assert!(calls.seeks.is_empty(), "no redundant seek after the load");
}

#[test]
fn apply_renderer_command_track_change_ignores_the_outgoing_position() {
    let mut engine = MockEngine::new();
    engine.playback = PlaybackState { track_id: 7, position: 20 };
    engine.queue_tracks = vec![mock_queue_track(7), mock_queue_track(8)];
    engine.queue_index = Some(0);
    engine.loaded_audio = true;
    let mut sync = QconnectRemoteSyncState::default();
    let cmd = RendererCommand::SetState {
        playing_state: Some(PLAYING_STATE_PLAYING),
        current_position_ms: None, // a track change carries no position
        current_track: Some(qi(8, 1)),
        next_track: None,
    };
    // What the reducer leaves behind: the new track, the OLD position.
    let renderer_state = QConnectRendererState {
        current_position_ms: Some(20_000),
        current_track: Some(qi(8, 1)),
        ..Default::default()
    };
    apply(&mut engine, &mut sync, &cmd, &renderer_state);
    let calls = &engine.calls;
    assert_eq!(calls.start_track_streams, vec![8], "loads the new track");
    assert_eq!(
        calls.start_positions,
        vec![0],
        "a track change with no position of its own starts from the beginning"
    );
    assert!(
        calls.seeks.is_empty(),
        "and nothing drags it to the outgoing track's position afterwards"
    );
}

#[test]
fn apply_renderer_command_state_only_resume_uses_the_retained_position() {
    let mut engine = MockEngine::new(); // cold: no loaded audio
    let mut sync = QconnectRemoteSyncState::default();
    let cmd = RendererCommand::SetState {
        playing_state: Some(PLAYING_STATE_PLAYING),
        current_position_ms: None,
        current_track: None,
        next_track: None,
    };
    let renderer_state = QConnectRendererState {
        current_position_ms: Some(106_000),
        current_track: Some(qi(9, 0)),
        ..Default::default()
    };
    apply(&mut engine, &mut sync, &cmd, &renderer_state);
    let calls = &engine.calls;
    assert_eq!(calls.start_track_streams, vec![9]);
    assert_eq!(
        calls.start_positions,
        vec![106],
        "resume the peer's position rather than restarting the track"
    );
}

#[test]
fn apply_renderer_command_ignores_the_handoff_stop_echo() {
    let mut engine = MockEngine::new();
    let mut sync = QconnectRemoteSyncState::default();
    // Play the track: records the load attempt the echo check keys on.
    let play = RendererCommand::SetState {
        playing_state: Some(PLAYING_STATE_PLAYING),
        current_position_ms: Some(60_000),
        current_track: Some(qi(9, 0)),
        next_track: None,
    };
    apply(&mut engine, &mut sync, &play, &QConnectRendererState::default());
    // The peer's stop lands milliseconds later: same track, position 0.
    let echo = RendererCommand::SetState {
        playing_state: Some(PLAYING_STATE_STOPPED),
        current_position_ms: Some(0),
        current_track: Some(qi(9, 0)),
        next_track: None,
    };
    apply(&mut engine, &mut sync, &echo, &QConnectRendererState::default());
    let calls = &engine.calls;
    assert_eq!(calls.start_track_streams, vec![9], "the play still loads");
    assert_eq!(calls.stops, 0, "the handoff stop echo must not stop us");
}

#[test]
fn apply_renderer_command_setactive_does_not_load_from_stale_state() {
    let mut engine = MockEngine::new();
    let mut sync = QconnectRemoteSyncState::default();
    let cmd = RendererCommand::SetActive { active: true };
    // Stale: our previous track and the position we handed off at.
    let renderer_state = QConnectRendererState {
        current_track: Some(qi(410251974, 4)),
        current_position_ms: Some(30_000),
        ..Default::default()
    };
    apply(&mut engine, &mut sync, &cmd, &renderer_state);
    let calls = &engine.calls;
    assert!(
        calls.start_track_streams.is_empty(),
        "must wait for the session's own SetState instead of guessing"
    );
    assert_eq!(calls.stops, 0, "and must not stop anything either");
}

#[test]
fn apply_renderer_command_setstate_after_setactive_loads_the_peer_track() {
    let mut engine = MockEngine::new();
    let mut sync = QconnectRemoteSyncState::default();
    let activate = RendererCommand::SetActive { active: true };
    let stale = QConnectRendererState {
        current_track: Some(qi(410251974, 4)),
        current_position_ms: Some(30_000),
        ..Default::default()
    };
    apply(&mut engine, &mut sync, &activate, &stale);
    // The cloud's SetState: the session is on track …969 at 1:19.
    let set_state = RendererCommand::SetState {
        playing_state: Some(PLAYING_STATE_PLAYING),
        current_position_ms: Some(79_818),
        current_track: Some(qi(410251969, 0)),
        next_track: None,
    };
    // The core reducer has already folded the command in by this point.
    let reduced = QConnectRendererState {
        current_track: Some(qi(410251969, 0)),
        current_position_ms: Some(79_818),
        ..Default::default()
    };
    apply(&mut engine, &mut sync, &set_state, &reduced);
    let calls = &engine.calls;
    assert_eq!(
        calls.start_track_streams,
        vec![410251969],
        "the peer's track"
    );
    assert_eq!(calls.start_positions, vec![79], "at the peer's position");
}

#[test]
fn apply_renderer_command_ignores_a_handoff_stop_naming_another_track() {
    let mut engine = MockEngine::new();
    let mut sync = QconnectRemoteSyncState::default();
    let play = RendererCommand::SetState {
        playing_state: Some(PLAYING_STATE_PLAYING),
        current_position_ms: Some(168_000),
        current_track: Some(qi(442682701, 4)),
        next_track: None,
    };
    apply(&mut engine, &mut sync, &play, &QConnectRendererState::default());
    // The peer stops, reporting the queue head rather than our track.
    let echo = RendererCommand::SetState {
        playing_state: Some(PLAYING_STATE_STOPPED),
        current_position_ms: Some(0),
        current_track: Some(qi(442682697, 0)),
        next_track: None,
    };
    apply(&mut engine, &mut sync, &echo, &QConnectRendererState::default());
    let calls = &engine.calls;
    assert_eq!(calls.start_track_streams, vec![442682701]);
    assert_eq!(
        calls.stops, 0,
        "a stop naming a track we are not playing must not stop us mid-handoff"
    );
}

#[test]
fn apply_renderer_command_ignores_a_state_only_pause_echo() {
    let mut engine = MockEngine::new();
    let mut sync = QconnectRemoteSyncState::default();
    let play = RendererCommand::SetState {
        playing_state: Some(PLAYING_STATE_PLAYING),
        current_position_ms: Some(139_691),
        current_track: Some(qi(9, 0)),
        next_track: None,
    };
    apply(&mut engine, &mut sync, &play, &QConnectRendererState::default());
    let echo = RendererCommand::SetState {
        playing_state: Some(PLAYING_STATE_PAUSED),
        current_position_ms: None,
        current_track: None,
        next_track: None,
    };
    // The cloud's view still carries the handed-off position; the echo check
    // must not read it as "hold here".
    let renderer_state = QConnectRendererState {
        current_position_ms: Some(139_691),
        ..Default::default()
    };
    apply(&mut engine, &mut sync, &echo, &renderer_state);
    assert_eq!(
        engine.calls.pauses,
        0,
        "the state-only pause echo must not pause the stream we just started"
    );
}

#[test]
fn apply_renderer_command_honors_a_genuine_pause() {
    let mut engine = MockEngine::new();
    engine.playback = PlaybackState { track_id: 9, position: 45 };
    engine.loaded_audio = true;
    let mut sync = QconnectRemoteSyncState::default();
    let cmd = RendererCommand::SetState {
        playing_state: Some(PLAYING_STATE_PAUSED),
        current_position_ms: None,
        current_track: None,
        next_track: None,
    };
    apply(&mut engine, &mut sync, &cmd, &QConnectRendererState::default());
    assert_eq!(
        engine.calls.pauses,
        1,
        "a real pause must reach the engine"
    );
}

#[test]
fn apply_renderer_command_honors_a_genuine_stop() {
    let mut engine = MockEngine::new();
    engine.playback = PlaybackState { track_id: 9, position: 45 };
    engine.loaded_audio = true;
    let mut sync = QconnectRemoteSyncState::default();
    let cmd = RendererCommand::SetState {
        playing_state: Some(PLAYING_STATE_STOPPED),
        current_position_ms: Some(0),
        current_track: Some(qi(9, 0)),
        next_track: None,
    };
    apply(&mut engine, &mut sync, &cmd, &QConnectRendererState::default());
    assert_eq!(engine.calls.stops, 1, "a real stop must reach the engine");
}

#[test]
fn apply_renderer_command_real_seek_still_applies() {
    let mut engine = MockEngine::new();
    engine.playback = PlaybackState { track_id: 7, position: 10 };
    engine.queue_tracks = vec![mock_queue_track(7)];
    engine.queue_index = Some(0);
    engine.loaded_audio = true;
    let mut sync = QconnectRemoteSyncState::default();
    let cmd = RendererCommand::SetState {
        playing_state: None,
        current_position_ms: Some(90_000),
        current_track: None,
        next_track: None,
    };
    apply(&mut engine, &mut sync, &cmd, &QConnectRendererState::default());
    let calls = &engine.calls;
    assert!(
        calls.start_track_streams.is_empty(),
        "no load: the track is already playing"
    );
    assert_eq!(calls.seeks, vec![90], "a real seek must still be honored");
}

#[test]
fn apply_renderer_command_warm_resume_stays_plain() {
    let mut engine = MockEngine::new();
    engine.playback = PlaybackState { track_id: 7, position: 30 };
    engine.queue_tracks = vec![mock_queue_track(7)];
    engine.queue_index = Some(0);
    engine.loaded_audio = true;
    let mut sync = QconnectRemoteSyncState::default();
    let cmd = RendererCommand::SetState {
        playing_state: Some(PLAYING_STATE_PLAYING),
        current_position_ms: None,
        current_track: None,
        next_track: None,
    };
    let renderer_state = QConnectRendererState {
        current_track: Some(qi(7, 2)),
        ..Default::default()
    };
    apply(&mut engine, &mut sync, &cmd, &renderer_state);
    let calls = &engine.calls;
    assert!(
        calls.start_track_streams.is_empty(),
        "no re-stream while audio is loaded"
    );
    assert_eq!(calls.resumes, 1, "plain resume on a warm engine");
}

#[test]
fn apply_renderer_command_setshufflemode_is_flag_only() {
    let mut engine = MockEngine::new();
    engine.queue_tracks = vec![
        mock_queue_track(1),
        mock_queue_track(2),
        mock_queue_track(3),
    ];
    engine.queue_index = Some(0);
    let mut sync = QconnectRemoteSyncState::default();
    let cmd = RendererCommand::SetShuffleMode { shuffle_mode: true };
    apply(&mut engine, &mut sync, &cmd, &QConnectRendererState::default());
    let calls = &engine.calls;
    assert_eq!(
        calls.set_shuffle_flags,
        vec![true],
        "SetShuffleMode must take the flag-only path"
    );
    assert!(
        calls.set_shuffles.is_empty(),
        "SetShuffleMode must NEVER call the order-generating set_shuffle (WS-authoritative rule)"
    );
    assert!(
        calls.set_queue_with_order.is_empty(),
        "SetShuffleMode must not apply any local order; the cloud's order arrives separately"
    );
}

#[test]
fn apply_renderer_command_skips_track_ops_on_state_only_update() {
    let mut engine = MockEngine::new();
    engine.playback = PlaybackState { track_id: 7, position: 5 };
    let mut sync = QconnectRemoteSyncState::default();
    let cmd = RendererCommand::SetState {
        playing_state: Some(PLAYING_STATE_PAUSED),
        current_position_ms: None,
        current_track: None,
        next_track: None,
    };
    // renderer_state carries a STALE current_track the projection would fall
    // back to — it must not drive a load/align.
    let renderer_state = QConnectRendererState {
        current_track: Some(qi(99, 0)),
        ..Default::default()
    };
    apply(&mut engine, &mut sync, &cmd, &renderer_state);
    let calls = &engine.calls;
    assert!(
        calls.start_track_streams.is_empty(),
        "no load on state-only update"
    );
    assert!(
        calls.play_indexes.is_empty(),
        "no cursor align on state-only update"
    );
    assert_eq!(calls.pauses, 1, "pause still applied");
}

#[test]
fn materialize_defers_shuffle_until_authoritative_order() {
    let mut engine = MockEngine::new();
    let mut sync = QconnectRemoteSyncState::default();
    let items = vec![qi(10, 0), qi(11, 1)];

    let q1 = queue_state(QueueVersion::new(1, 0), items.clone(), true, None);
    materialize(&mut engine, &mut sync, &q1);
    {
        let calls = &engine.calls;
        assert_eq!(calls.set_queue_with_order.len(), 1);
        assert!(
            !calls.set_queue_with_order[0].0,
            "shuffle deferred while order absent"
        );
    }

    let q2 = queue_state(QueueVersion::new(1, 1), items, true, Some(vec![1, 0]));
    materialize(&mut engine, &mut sync, &q2);
    {
        let calls = &engine.calls;
        assert_eq!(calls.set_queue_with_order.len(), 2);
        assert!(
            calls.set_queue_with_order[1].0,
            "shuffle enabled once authoritative order present"
        );
    }
}

#[test]
fn materialize_starts_the_pushed_selection_when_no_setstate_names_it() {
    let mut engine = MockEngine::new();
    engine.playback = PlaybackState { track_id: 410609158, position: 0 };
    let mut sync = QconnectRemoteSyncState::default();
    sync.last_renderer_queue_item_id = Some(1);
    sync.last_renderer_track_id = Some(410609158);
    sync.last_renderer_playing_state = Some(PLAYING_STATE_PLAYING);
    let items: Vec<QueueItem> = (0..13).map(|i| qi(410609157 + i, i)).collect();
    let pushed = pushed_queue_state(QueueVersion::new(4, 1), items, 12);

    materialize(&mut engine, &mut sync, &pushed);

    assert_eq!(
        sync.last_materialized_start_index,
        Some(12),
        "the selection outranks the outgoing track's projection"
    );
    assert_eq!(
        engine.calls.start_track_streams,
        vec![410609169],
        "the selected track is started, since no SetState will name it"
    );
}

#[test]
fn materialize_stages_a_pushed_selection_without_playing_it() {
    let mut engine = MockEngine::new();
    engine.playback = PlaybackState { track_id: 410609158, position: 0 };
    let mut sync = QconnectRemoteSyncState::default();
    sync.last_renderer_queue_item_id = Some(1);
    sync.last_renderer_track_id = Some(410609158);
    sync.last_renderer_playing_state = Some(PLAYING_STATE_PAUSED);
    let items: Vec<QueueItem> = (0..13).map(|i| qi(410609157 + i, i)).collect();
    let pushed = pushed_queue_state(QueueVersion::new(4, 1), items, 12);

    materialize(&mut engine, &mut sync, &pushed);

    assert_eq!(sync.last_materialized_start_index, Some(12));
    assert!(
        engine.calls.start_track_streams.is_empty(),
        "a paused session gets no unrequested audio"
    );
}

#[test]
fn materialize_starts_the_head_when_a_replacement_names_no_track() {
    let mut engine = MockEngine::new();
    engine.playback = PlaybackState { track_id: 29450960, position: 0 };
    let mut sync = QconnectRemoteSyncState::default();
    sync.last_renderer_queue_item_id = Some(6);
    sync.last_renderer_track_id = Some(29450960);
    sync.last_renderer_playing_state = Some(PLAYING_STATE_PLAYING);
    let replacement = queue_state(
        QueueVersion::new(14, 1),
        vec![qi(3001, 0), qi(3002, 1), qi(3003, 2)],
        false,
        None,
    );

    materialize(&mut engine, &mut sync, &replacement);

    assert_eq!(
        engine.calls.start_track_streams,
        vec![3001],
        "the new queue's head is played, not just pointed at"
    );
}

#[test]
fn materialize_leaves_a_handoff_queue_to_the_following_setstate() {
    let mut engine = MockEngine::new(); // nothing playing locally yet
    let mut sync = QconnectRemoteSyncState::default();
    sync.last_renderer_queue_item_id = Some(1);
    sync.last_renderer_track_id = Some(3002);
    sync.last_renderer_playing_state = Some(PLAYING_STATE_PLAYING);
    let handoff = queue_state(
        QueueVersion::new(2, 0),
        vec![qi(3001, 0), qi(3002, 1), qi(3003, 2)],
        false,
        None,
    );

    materialize(&mut engine, &mut sync, &handoff);

    assert!(
        engine.calls.start_track_streams.is_empty(),
        "the peer's track is in this queue; SetState resumes it at its position"
    );
}

#[test]
fn materialize_leaves_a_selection_the_cloud_already_names_to_setstate() {
    let mut engine = MockEngine::new();
    let mut sync = QconnectRemoteSyncState::default();
    sync.last_renderer_queue_item_id = Some(1);
    sync.last_renderer_track_id = Some(3002);
    sync.last_renderer_playing_state = Some(PLAYING_STATE_PLAYING);
    let cast = pushed_queue_state(
        QueueVersion::new(2, 0),
        vec![qi(3001, 0), qi(3002, 1), qi(3003, 2)],
        1, // the position the peer was playing
    );

    materialize(&mut engine, &mut sync, &cast);

    assert!(
        engine.calls.start_track_streams.is_empty(),
        "SetState owns this load; it knows the handed-off position"
    );
}

#[test]
fn materialize_without_a_selection_keeps_the_projection_start_index() {
    let mut engine = MockEngine::new();
    engine.playback = PlaybackState { track_id: 410609158, position: 0 };
    let mut sync = QconnectRemoteSyncState::default();
    sync.last_renderer_queue_item_id = Some(1);
    sync.last_renderer_track_id = Some(410609158);
    sync.last_renderer_playing_state = Some(PLAYING_STATE_PLAYING);
    let items: Vec<QueueItem> = (0..13).map(|i| qi(410609157 + i, i)).collect();
    let plain = queue_state(QueueVersion::new(4, 1), items, false, None);

    materialize(&mut engine, &mut sync, &plain);

    assert_eq!(sync.last_materialized_start_index, Some(1));
    assert!(engine.calls.start_track_streams.is_empty());
}

#[test]
fn takeback_reloads_torn_down_audio_on_the_following_resume() {
    let mut engine = MockEngine::new();
    engine.playback = PlaybackState { track_id: 7, position: 0 };
    engine.loaded_audio = false;
    let mut sync = QconnectRemoteSyncState::default();
    let renderer_state = QConnectRendererState {
        current_track: Some(qi(7, 0)),
        current_position_ms: Some(45_000),
        ..Default::default()
    };
    apply(&mut engine, &mut sync,
        &RendererCommand::SetActive { active: true },
        &renderer_state,
    );
    assert!(
        engine.calls.start_track_streams.is_empty(),
        "SetActive alone must not guess a track to load"
    );
    // The cloud's resume for this session lands next.
    apply(&mut engine, &mut sync,
        &RendererCommand::SetState {
            playing_state: Some(PLAYING_STATE_PLAYING),
            current_position_ms: None,
            current_track: None,
            next_track: None,
        },
        &renderer_state,
    );
    let calls = &engine.calls;
    assert_eq!(
        calls.start_track_streams,
        vec![7],
        "the cold engine must be reloaded rather than bare-resumed"
    );
    assert_eq!(
        calls.start_positions,
        vec![45],
        "and resume at the handed-off position, not 0"
    );
    assert_eq!(calls.resumes, 0, "no bare resume onto an empty buffer");
}

#[test]
fn set_active_does_not_restart_when_already_streaming() {
    let mut engine = MockEngine::new();
    engine.playback = PlaybackState { track_id: 7, position: 0 };
    engine.loaded_audio = true; // live playback in progress
    let mut sync = QconnectRemoteSyncState::default();
    let cmd = RendererCommand::SetActive { active: true };
    let renderer_state = QConnectRendererState {
        current_track: Some(qi(7, 0)),
        current_position_ms: Some(45_000),
        ..Default::default()
    };
    apply(&mut engine, &mut sync, &cmd, &renderer_state);
    assert!(
        engine.calls.start_track_streams.is_empty(),
        "must not restart an already-streaming track on a spurious SetActive"
    );
}

#[test]
fn apply_renderer_command_setstate_streams_at_reported_position() {
    let mut engine = MockEngine::new(); // playback track_id 0 → fresh load
    let mut sync = QconnectRemoteSyncState::default();
    let cmd = RendererCommand::SetState {
        playing_state: Some(PLAYING_STATE_PLAYING),
        current_position_ms: Some(118_000),
        current_track: Some(qi(7, 1)),
        next_track: None,
    };
    apply(&mut engine, &mut sync, &cmd, &QConnectRendererState::default());
    let calls = &engine.calls;
    assert_eq!(calls.start_track_streams, vec![7], "fresh takeback load");
    assert_eq!(
        calls.start_positions,
        vec![118],
        "takeback load must resume at the cloud position (118s), not 0"
    );
}

#[test]
fn a_failed_call_ends_the_command() {
    let mut engine = MockEngine::new();
    engine.failure = Some("no device".to_string());
    engine.playback = PlaybackState { track_id: 9, position: 45 };
    engine.loaded_audio = true;
    let mut sync = QconnectRemoteSyncState::default();
    let pause = RendererCommand::SetState {
        playing_state: Some(PLAYING_STATE_PAUSED),
        current_position_ms: None,
        current_track: None,
        next_track: None,
    };
    let none = QConnectRendererState::default();
    assert!(try_apply(&mut engine, &mut sync, &pause, &none).is_err());
}

#[test]
fn a_volume_command_sets_a_percentage() {
    let mut engine = MockEngine::new();
    let mut sync = QconnectRemoteSyncState::default();
    let none = QConnectRendererState::default();
    apply(&mut engine, &mut sync, &RendererCommand::SetVolume { volume: Some(140) }, &none);
    apply(&mut engine, &mut sync, &RendererCommand::SetVolume { volume: Some(35) }, &none);
    assert_eq!(engine.calls.set_volumes, vec![100, 35]);
}

#[test]
fn losing_the_render_stops_and_is_remembered() {
    let mut engine = MockEngine::new();
    let mut sync = QconnectRemoteSyncState::default();
    let none = QConnectRendererState::default();
    apply(&mut engine, &mut sync, &RendererCommand::SetActive { active: true }, &none);
    assert_eq!(sync.local_render_active, Some(true));
    assert_eq!(engine.calls.stops, 0);
    apply(&mut engine, &mut sync, &RendererCommand::SetActive { active: false }, &none);
    assert_eq!(sync.local_render_active, Some(false));
    assert_eq!(engine.calls.stops, 1);
}

#[test]
fn loop_modes_map_to_repeat_modes() {
    assert_eq!(qconnect_repeat_mode_from_loop_mode(1), Some(RepeatMode::Off));
    assert_eq!(qconnect_repeat_mode_from_loop_mode(2), Some(RepeatMode::One));
    assert_eq!(qconnect_repeat_mode_from_loop_mode(3), Some(RepeatMode::All));
    assert_eq!(qconnect_repeat_mode_from_loop_mode(4), None);
    match apply_remote_loop_mode(-7) {
        Err(why) => assert_eq!(why, "unsupported qconnect loop mode: -7"),
        Ok(_) => panic!("no such mode"),
    }
    let mut engine = MockEngine::new();
    let mut sync = QconnectRemoteSyncState::default();
    let none = QConnectRendererState::default();
    apply(&mut engine, &mut sync, &RendererCommand::SetLoopMode { loop_mode: 3 }, &none);
    assert_eq!(engine.calls.set_repeat_modes, vec![RepeatMode::All]);
    let bad = RendererCommand::SetLoopMode { loop_mode: 9 };
    assert!(try_apply(&mut engine, &mut sync, &bad, &none).is_err());
}

#[test]
fn a_load_is_repeated_once_its_window_is_over() {
    let mut engine = MockEngine::new();
    let mut sync = QconnectRemoteSyncState::default();
    assert!(load_at(&mut engine, &mut sync, 42, 1_000));
    assert_eq!(sync.last_load_attempt, Some(LoadAttempt { track_id: 42, at_ms: 1_000 }));
    assert!(!load_at(&mut engine, &mut sync, 42, 999 + LOAD_ATTEMPT_DEDUP_WINDOW_MS));
    assert!(load_at(&mut engine, &mut sync, 42, 1_000 + LOAD_ATTEMPT_DEDUP_WINDOW_MS));
    assert_eq!(engine.calls.start_track_streams, vec![42, 42]);
}

#[test]
fn only_a_changed_track_is_reloaded() {
    let playback = PlaybackState { track_id: 7, position: 3 };
    assert!(!should_reload_remote_track(&playback, 7));
    assert!(should_reload_remote_track(&playback, 8));
}

#[test]
fn a_catalog_track_becomes_a_queue_track() {
    let bare = mock_queue_track(5);
    assert_eq!(bare.artist, "Unknown Artist");
    assert_eq!(bare.album, "Unknown Album");
    assert_eq!(bare.album_id, None);
    assert_eq!(bare.duration_secs, 100);
    assert_eq!(bare.source.as_deref(), Some("qobuz_connect_remote"));
    let full = model_track_to_core_queue_track(&Track {
        album: Some(TrackAlbum {
            id: " a1 ".to_string(),
            title: "Album".to_string(),
            artwork_url: Some("u".to_string()),
        }),
        performer: Some(TrackPerformer { id: 4, name: "Performer".to_string() }),
        maximum_sampling_rate_hz: Some(96_000),
        ..mock_track(6)
    });
    assert_eq!(full.artist, "Performer");
    assert_eq!(full.artist_id, Some(4));
    assert_eq!(full.album_id.as_deref(), Some("a1"));
    assert_eq!(full.source_item_id_hint.as_deref(), Some("a1"));
    assert_eq!(full.artwork_url.as_deref(), Some("u"));
    assert_eq!(full.sample_rate_hz, Some(96_000));
}

#[test]
fn only_what_the_queue_is_built_from_asks_for_a_rebuild() {
    let a = queue_state(QueueVersion::new(1, 0), vec![qi(1, 0)], false, None);
    assert!(queue_state_needs_materialization(None, &a));
    assert!(!queue_state_needs_materialization(Some(&a), &a));
    let hashed = QConnectQueueState {
        updated_at_ms: 9,
        last_server_queue_hash: Some(vec![1]),
        ..a.clone()
    };
    assert!(!queue_state_needs_materialization(Some(&a), &hashed));
    for b in [
        QConnectQueueState { version: QueueVersion::new(1, 1), ..a.clone() },
        QConnectQueueState { queue_items: vec![qi(2, 0)], ..a.clone() },
        QConnectQueueState { shuffle_mode: true, ..a.clone() },
        QConnectQueueState { shuffle_order: Some(vec![0]), ..a.clone() },
        QConnectQueueState { autoplay_mode: true, ..a.clone() },
        QConnectQueueState { autoplay_loading: true, ..a.clone() },
        QConnectQueueState { autoplay_items: vec![qi(3, 1)], ..a.clone() },
    ] {
        assert!(queue_state_needs_materialization(Some(&a), &b));
    }
}

#[test]
fn an_empty_queue_clears_and_unshuffles() {
    let mut engine = MockEngine::new();
    let mut sync = QconnectRemoteSyncState::default();
    sync.last_materialized_start_index = Some(3);
    let empty = queue_state(QueueVersion::new(2, 0), Vec::new(), false, None);
    materialize(&mut engine, &mut sync, &empty);
    assert_eq!(engine.calls.clear_queues, 1);
    assert_eq!(engine.calls.set_shuffles, vec![false]);
    assert_eq!(sync.last_materialized_start_index, None);
}

#[test]
fn a_track_that_cannot_be_had_is_left_out() {
    let mut engine = MockEngine::new();
    engine.unknown = vec![11];
    let mut sync = QconnectRemoteSyncState::default();
    let items = vec![qi(10, 0), qi(11, 1), qi(10, 2)];
    let queue = queue_state(QueueVersion::new(1, 0), items, false, None);
    materialize(&mut engine, &mut sync, &queue);
    assert_eq!(engine.calls.get_tracks_batch, 1);
    assert_eq!(engine.calls.queue_lengths, vec![2]);

    engine.unknown = vec![10, 11];
    let queue = QConnectQueueState { version: QueueVersion::new(1, 1), ..queue };
    assert_eq!(
        try_materialize(&mut engine, &mut sync, &queue),
        Err("remote queue materialization produced zero playable tracks".to_string())
    );

    engine.failure = Some("offline".to_string());
    let queue = QConnectQueueState { version: QueueVersion::new(1, 2), ..queue };
    assert_eq!(
        try_materialize(&mut engine, &mut sync, &queue),
        Err("fetch tracks batch for remote queue: offline".to_string())
    );
}

#[test]
fn a_stale_track_is_stopped_when_the_session_is() {
    let mut engine = MockEngine::new();
    engine.playback = PlaybackState { track_id: 99, position: 5 };
    let mut sync = QconnectRemoteSyncState::default();
    sync.last_renderer_track_id = Some(10);
    sync.last_renderer_playing_state = Some(PLAYING_STATE_STOPPED);
    let queue = queue_state(QueueVersion::new(1, 0), vec![qi(10, 0), qi(11, 1)], false, None);
    materialize(&mut engine, &mut sync, &queue);
    assert_eq!(engine.calls.stops, 1);
    assert_eq!(engine.calls.play_indexes, vec![0]);
    assert!(engine.calls.start_track_streams.is_empty());
}

fn align(engine: &mut MockEngine, track_id: u64) -> Result<(), String> {
    let (mut run, mut step) = align_queue_cursor(track_id);
    loop {
        match step {
            RunStep::Finished(result) => return result,
            RunStep::Call(call) => {
                let reply = engine.make(call);
                step = run.step(reply);
            },
        }
    }
}

#[test]
fn the_cursor_moves_to_a_track_or_gets_a_queue_of_its_own() {
    let mut engine = MockEngine::new();
    engine.queue_tracks = vec![mock_queue_track(1), mock_queue_track(2)];
    engine.queue_index = Some(0);
    assert_eq!(align(&mut engine, 1), Ok(()));
    assert!(engine.calls.play_indexes.is_empty());
    assert_eq!(align(&mut engine, 2), Ok(()));
    assert_eq!(engine.calls.play_indexes, vec![1]);
    assert_eq!(align(&mut engine, 3), Ok(()));
    assert_eq!(engine.calls.set_queues, 1);
    engine.failure = Some("gone".to_string());
    assert_eq!(align(&mut engine, 4), Err("fetch current remote track 4: gone".to_string()));
}

#[test]
fn a_shuffled_projection_reorders_the_queue_once() {
    let mut engine = MockEngine::new();
    engine.playback = PlaybackState { track_id: 11, position: 5 };
    engine.queue_tracks = vec![mock_queue_track(10), mock_queue_track(11)];
    engine.queue_index = Some(1);
    engine.loaded_audio = true;
    let mut sync = QconnectRemoteSyncState::default();
    let items = vec![qi(10, 0), qi(11, 1)];
    let queue = queue_state(QueueVersion::new(1, 0), items, true, Some(vec![1, 0]));
    sync.last_remote_queue_state = Some(queue);
    let command = RendererCommand::SetState {
        playing_state: None,
        current_position_ms: None,
        current_track: Some(qi(11, 1)),
        next_track: Some(qi(10, 0)),
    };
    let view = QConnectRendererState {
        current_track: Some(qi(11, 1)),
        next_track: Some(qi(10, 0)),
        ..Default::default()
    };
    apply(&mut engine, &mut sync, &command, &view);
    assert_eq!(engine.calls.set_queue_with_order, vec![(true, Some(vec![1, 0]))]);
    assert_eq!(sync.last_materialized_start_index, Some(1));
    apply(&mut engine, &mut sync, &command, &view);
    assert_eq!(engine.calls.set_queue_with_order.len(), 1, "the same order is not set again");
}

#[test]
fn versions_count_up_by_their_minor_part() {
    let next = QueueVersion::new(3, 8).next_minor();
    assert_eq!((next.major, next.minor), (3, 9));
}

#[test]
fn a_load_is_recent_for_its_own_track_within_the_window() {
    let sync = QconnectRemoteSyncState {
        last_load_attempt: Some(LoadAttempt { track_id: 7, at_ms: 1_000 }),
        ..QconnectRemoteSyncState::default()
    };
    assert!(is_recent_load_attempt(&sync, 7, 5_999));
    assert!(!is_recent_load_attempt(&sync, 7, 6_000));
    assert!(!is_recent_load_attempt(&sync, 8, 1_000));
    assert!(!is_recent_load_attempt(&QconnectRemoteSyncState::default(), 7, 1_000));
}

#[test]
fn a_frame_takes_the_retained_position_only_when_it_names_nothing() {
    let retained = QConnectRendererState {
        current_position_ms: Some(90_000),
        ..QConnectRendererState::default()
    };
    let named = qi(7, 70);
    assert_eq!(frame_position_ms(Some(5), Some(&named), &retained), Some(5));
    assert_eq!(frame_position_ms(Some(5), None, &retained), Some(5));
    assert_eq!(frame_position_ms(None, Some(&named), &retained), None);
    assert_eq!(frame_position_ms(None, None, &retained), Some(90_000));
}
