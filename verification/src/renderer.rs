//! Renderer-side rules: how a cloud track becomes a queue track, when a load is
//! due, and how a load and a cursor move run against the engine.

use vstd::prelude::*;
use vstd::string::*;

use crate::queue::{same_items, same_order, QConnectQueueState, QueueItem};
use crate::renderer_model::{
    copy_opt_text, EngineCall, EngineReply, LoadAttempt, PlaybackState, QConnectRendererState,
    QconnectRemoteSyncState, QueueTrack, RepeatMode, RunStep, Track,
};
use crate::text::{append_decimal, trim};

verus! {

/// Wire values of the protocol's playing state.
pub const PLAYING_STATE_UNKNOWN: i32 = 0;

pub const PLAYING_STATE_STOPPED: i32 = 1;

pub const PLAYING_STATE_PLAYING: i32 = 2;

pub const PLAYING_STATE_PAUSED: i32 = 3;

/// An echoed command for a track whose load was registered within this window
/// does not load it again.
pub const LOAD_ATTEMPT_DEDUP_WINDOW_MS: u64 = 5_000;

/// A stop or pause landing within this window of our own load is the previous
/// renderer's handoff echo rather than a user intent.
pub const HANDOFF_ECHO_WINDOW_MS: u64 = 1_500;

/// Source tag of tracks that come from the cloud queue.
pub const QCONNECT_REMOTE_QUEUE_SOURCE: &'static str = "qobuz_connect_remote";

/// The repeat mode of a protocol loop mode: 1 is off, 2 repeats one, 3 repeats
/// all.
pub fn qconnect_repeat_mode_from_loop_mode(loop_mode: i32) -> (r: Option<RepeatMode>)
    ensures
        r == repeat_mode_of(loop_mode),
{
    if loop_mode == 0 || loop_mode == 1 {
        Some(RepeatMode::Off)
    } else if loop_mode == 2 {
        Some(RepeatMode::One)
    } else if loop_mode == 3 {
        Some(RepeatMode::All)
    } else {
        None
    }
}

/// The repeat mode that a protocol loop mode names, if it names one.
pub open spec fn repeat_mode_of(loop_mode: i32) -> Option<RepeatMode> {
    match loop_mode {
        0 => Some(RepeatMode::Off),
        1 => Some(RepeatMode::Off),
        2 => Some(RepeatMode::One),
        3 => Some(RepeatMode::All),
        _ => None,
    }
}

/// What is known of a catalog track, as the local queue holds it.
pub open spec fn is_queue_track_of(q: QueueTrack, track: Track) -> bool {
    &&& q.id == track.id
    &&& q.title == track.title
    &&& q.version == track.version
    &&& match track.performer {
        Some(performer) => q.artist@ == performer.name@ && q.artist_id == Some(performer.id),
        None => q.artist@ == "Unknown Artist"@ && q.artist_id is None,
    }
    &&& match track.album {
        Some(album) => {
            &&& q.album@ == album.title@
            &&& q.artwork_url == album.artwork_url
            &&& if crate::text::trimmed(album.id@).len() > 0 {
                q.album_id is Some && q.album_id->0@ == crate::text::trimmed(album.id@)
            } else {
                q.album_id is None
            }
        },
        None => q.album@ == "Unknown Album"@ && q.artwork_url is None && q.album_id is None,
    }
    &&& q.source_item_id_hint == q.album_id
    &&& q.album_version is None
    &&& q.duration_secs == track.duration
    &&& q.hires == track.hires
    &&& q.bit_depth == track.maximum_bit_depth
    &&& q.sample_rate_hz == track.maximum_sampling_rate_hz
    &&& !q.is_local
    &&& q.streamable == track.streamable
    &&& q.source is Some
    &&& q.source->0@ == QCONNECT_REMOTE_QUEUE_SOURCE@
    &&& q.parental_warning == track.parental_warning
    &&& q.context_kind is None
    &&& q.context_id is None
}

/// A catalog track as a track of the local queue.
pub fn model_track_to_core_queue_track(track: &Track) -> (r: QueueTrack)
    ensures
        is_queue_track_of(r, *track),
{
    let (artist, artist_id): (String, Option<u64>) = match &track.performer {
        Some(performer) => (performer.name.clone(), Some(performer.id)),
        None => (String::from_str("Unknown Artist"), None),
    };
    let (album, artwork_url, album_id): (String, Option<String>, Option<String>) =
        match &track.album {
        Some(album) => {
            let trimmed = trim(album.id.as_str());
            let album_id: Option<String> = if trimmed.is_empty() {
                None
            } else {
                Some(String::from_str(trimmed))
            };
            (album.title.clone(), copy_opt_text(&album.artwork_url), album_id)
        },
        None => (String::from_str("Unknown Album"), None, None),
    };
    let source_item_id_hint = copy_opt_text(&album_id);
    QueueTrack {
        id: track.id,
        title: track.title.clone(),
        version: copy_opt_text(&track.version),
        artist,
        album,
        album_version: None,
        duration_secs: track.duration as u64,
        artwork_url,
        hires: track.hires,
        bit_depth: track.maximum_bit_depth,
        sample_rate_hz: track.maximum_sampling_rate_hz,
        is_local: false,
        album_id,
        artist_id,
        streamable: track.streamable,
        source: Some(String::from_str(QCONNECT_REMOTE_QUEUE_SOURCE)),
        parental_warning: track.parental_warning,
        source_item_id_hint,
        context_kind: None,
        context_id: None,
    }
}

/// Two queue snapshots differ in what the local queue is built from.
pub open spec fn queue_differs(
    a: crate::queue::QueueStateView,
    b: crate::queue::QueueStateView,
) -> bool {
    ||| a.version != b.version
    ||| a.queue_items != b.queue_items
    ||| a.shuffle_mode != b.shuffle_mode
    ||| a.shuffle_order != b.shuffle_order
    ||| a.autoplay_mode != b.autoplay_mode
    ||| a.autoplay_loading != b.autoplay_loading
    ||| a.autoplay_items != b.autoplay_items
}

/// Whether `next` has to be built into the local queue.
pub fn queue_state_needs_materialization(
    previous: Option<&QConnectQueueState>,
    next: &QConnectQueueState,
) -> (r: bool)
    ensures
        r == (previous is None || queue_differs(previous->0@, next@)),
{
    let previous = match previous {
        Some(p) => p,
        None => return true,
    };
    previous.version != next.version || !same_items(&previous.queue_items, &next.queue_items)
        || previous.shuffle_mode != next.shuffle_mode || !same_order(
        &previous.shuffle_order,
        &next.shuffle_order,
    ) || previous.autoplay_mode != next.autoplay_mode || previous.autoplay_loading
        != next.autoplay_loading || !same_items(&previous.autoplay_items, &next.autoplay_items)
}

/// Only a changed track is loaded again.
pub fn should_reload_remote_track(playback_state: &PlaybackState, track_id: u64) -> (r: bool)
    ensures
        r == (playback_state.track_id != track_id),
{
    playback_state.track_id != track_id
}

/// A load was registered less than `window_ms` ago.
pub open spec fn attempt_within(
    attempt: Option<LoadAttempt>,
    now_ms: u64,
    window_ms: u64,
) -> bool {
    attempt matches Some(a) && (if now_ms > a.at_ms {
        now_ms - a.at_ms
    } else {
        0
    }) < window_ms
}

/// A load of `track_id` was registered within the dedup window.
pub open spec fn recent_load(
    sync: QconnectRemoteSyncState,
    track_id: u64,
    now_ms: u64,
) -> bool {
    attempt_within(sync.last_load_attempt, now_ms, LOAD_ATTEMPT_DEDUP_WINDOW_MS)
        && sync.last_load_attempt->0.track_id == track_id
}

/// Whether a load was registered less than `window_ms` ago.
pub fn loaded_within(attempt: &Option<LoadAttempt>, now_ms: u64, window_ms: u64) -> (r: bool)
    ensures
        r == attempt_within(*attempt, now_ms, window_ms),
{
    match attempt {
        Some(a) => now_ms.saturating_sub(a.at_ms) < window_ms,
        None => false,
    }
}

/// Whether a load of `track_id` was registered within the dedup window.
pub fn is_recent_load_attempt(
    state: &QconnectRemoteSyncState,
    track_id: u64,
    now_ms: u64,
) -> (r: bool)
    ensures
        r == recent_load(*state, track_id, now_ms),
{
    loaded_within(&state.last_load_attempt, now_ms, LOAD_ATTEMPT_DEDUP_WINDOW_MS)
        && match &state.last_load_attempt {
        Some(a) => a.track_id == track_id,
        None => false,
    }
}

/// The position a frame specifies, in milliseconds. Its own position counts
/// first. A frame that names a track without a position means from the start;
/// the cloud's retained position counts only for a frame that names neither.
pub fn frame_position_ms(
    command_position_ms: Option<u64>,
    command_track: Option<&QueueItem>,
    renderer_state: &QConnectRendererState,
) -> (r: Option<u64>)
    ensures
        r == (if command_position_ms is Some {
            command_position_ms
        } else if command_track is Some {
            None
        } else {
            renderer_state.current_position_ms
        }),
{
    match (command_position_ms, command_track) {
        (Some(ms), _) => Some(ms),
        (None, Some(_)) => None,
        (None, None) => renderer_state.current_position_ms,
    }
}

/// Where the load of a remote track stands.
#[derive(Debug, Clone, Copy, PartialEq, Eq, Structural)]
pub enum RemoteLoadStage {
    /// Waiting for the engine's playback state.
    CheckingPlayback,
    /// Waiting to hear whether the engine holds audio.
    CheckingAudio,
    /// Waiting for the catalog track.
    FetchingTrack,
    /// Waiting for the stream to start.
    Starting,
    Settled,
}

/// The load of a remote track into the engine, deduped against echoes.
#[derive(Debug, Clone, Copy, PartialEq, Eq, Structural)]
pub struct RemoteLoad {
    pub track_id: u64,
    pub max_audio_quality: Option<i32>,
    pub start_position_secs: u64,
    /// Load even when the engine still names this track, if its audio is gone.
    pub force: bool,
    pub stage: RemoteLoadStage,
}

/// The outcome of one step of a remote load.
#[derive(Debug)]
pub enum RemoteLoadStep {
    Call(EngineCall),
    /// The load is over; true when it started a stream.
    Settled(Result<bool, String>),
}

/// Load a remote track, deduped against echoed frames: a load registered
/// within the dedup window is not repeated.
pub fn ensure_remote_track_loaded(
    sync: &QconnectRemoteSyncState,
    now_ms: u64,
    track_id: u64,
    max_audio_quality: Option<i32>,
    start_position_secs: u64,
) -> (r: (RemoteLoad, RemoteLoadStep))
    ensures
        ({
            let recent = recent_load(*sync, track_id, now_ms);
            &&& r.0 == (RemoteLoad {
                track_id,
                max_audio_quality,
                start_position_secs,
                force: false,
                stage: if recent {
                    RemoteLoadStage::Settled
                } else {
                    RemoteLoadStage::CheckingPlayback
                },
            })
            &&& r.1 == (if recent {
                RemoteLoadStep::Settled(Ok(false))
            } else {
                RemoteLoadStep::Call(EngineCall::GetPlaybackState)
            })
        }),
{
    let recent = is_recent_load_attempt(sync, track_id, now_ms);
    let load = RemoteLoad {
        track_id,
        max_audio_quality,
        start_position_secs,
        force: false,
        stage: if recent {
            RemoteLoadStage::Settled
        } else {
            RemoteLoadStage::CheckingPlayback
        },
    };
    if recent {
        (load, RemoteLoadStep::Settled(Ok(false)))
    } else {
        (load, RemoteLoadStep::Call(EngineCall::GetPlaybackState))
    }
}

/// Force a stream of a track when becoming the active renderer. A track id
/// that the engine still names does not stop it: a handoff tears the stream
/// down and leaves the id behind. Audio that is loaded for this very track
/// does, and so does the dedup window.
pub fn force_remote_track_stream(
    track_id: u64,
    max_audio_quality: Option<i32>,
    start_position_secs: u64,
) -> (r: (RemoteLoad, RemoteLoadStep))
    ensures
        r.0 == (RemoteLoad {
            track_id,
            max_audio_quality,
            start_position_secs,
            force: true,
            stage: RemoteLoadStage::CheckingPlayback,
        }),
        r.1 == RemoteLoadStep::Call(EngineCall::GetPlaybackState),
{
    (
        RemoteLoad {
            track_id,
            max_audio_quality,
            start_position_secs,
            force: true,
            stage: RemoteLoadStage::CheckingPlayback,
        },
        RemoteLoadStep::Call(EngineCall::GetPlaybackState),
    )
}

impl RemoteLoad {
    /// Whether `reply` is what the stage waits for.
    pub open spec fn awaits(self, reply: EngineReply) -> bool {
        match self.stage {
            RemoteLoadStage::CheckingPlayback => reply is Playback,
            RemoteLoadStage::CheckingAudio => self.force && reply is Loaded,
            RemoteLoadStage::FetchingTrack => reply is Track,
            RemoteLoadStage::Starting => reply is Done,
            RemoteLoadStage::Settled => false,
        }
    }

    /// How many replies a load can still take in.
    pub open spec fn steps_left(self) -> nat {
        match self.stage {
            RemoteLoadStage::CheckingPlayback => 4,
            RemoteLoadStage::CheckingAudio => 3,
            RemoteLoadStage::FetchingTrack => 2,
            RemoteLoadStage::Starting => 1,
            RemoteLoadStage::Settled => 0,
        }
    }

    /// The reply shows that there is nothing to load.
    pub open spec fn is_moot(self, sync: QconnectRemoteSyncState, now_ms: u64, reply: EngineReply)
        -> bool {
        match reply {
            EngineReply::Playback(p) => if self.force {
                p.track_id != self.track_id && recent_load(sync, self.track_id, now_ms)
            } else {
                p.track_id == self.track_id
            },
            EngineReply::Loaded(loaded) => loaded || recent_load(sync, self.track_id, now_ms),
            _ => false,
        }
    }

    /// Where `reply` takes this load: its next state, the sync state and the
    /// step.
    pub open spec fn steps_to(
        self,
        after: RemoteLoad,
        before_sync: QconnectRemoteSyncState,
        after_sync: QconnectRemoteSyncState,
        now_ms: u64,
        reply: EngineReply,
        step: RemoteLoadStep,
    ) -> bool {
        &&& after == (RemoteLoad { stage: after.stage, ..self })
        &&& step is Settled <==> after.stage == RemoteLoadStage::Settled
        &&& match reply {
            EngineReply::Playback(p) => {
                if self.is_moot(before_sync, now_ms, reply) {
                    &&& step == RemoteLoadStep::Settled(Ok(false))
                    &&& after_sync == before_sync
                } else if self.force && p.track_id == self.track_id {
                    &&& step == RemoteLoadStep::Call(EngineCall::HasLoadedAudio)
                    &&& after.stage == RemoteLoadStage::CheckingAudio
                    &&& after_sync == before_sync
                } else {
                    &&& step == RemoteLoadStep::Call(EngineCall::FetchTrack(self.track_id))
                    &&& after.stage == RemoteLoadStage::FetchingTrack
                    &&& self.registers(before_sync, after_sync, now_ms)
                }
            },
            EngineReply::Loaded(_) => {
                if self.is_moot(before_sync, now_ms, reply) {
                    &&& step == RemoteLoadStep::Settled(Ok(false))
                    &&& after_sync == before_sync
                } else {
                    &&& step == RemoteLoadStep::Call(EngineCall::FetchTrack(self.track_id))
                    &&& after.stage == RemoteLoadStage::FetchingTrack
                    &&& self.registers(before_sync, after_sync, now_ms)
                }
            },
            EngineReply::Track(result) => {
                &&& step == RemoteLoadStep::Call(
                    EngineCall::StartStream {
                        track_id: self.track_id,
                        max_audio_quality: self.max_audio_quality,
                        duration_secs: match result {
                            Ok(track) => track.duration as u64,
                            Err(_) => 0,
                        },
                        start_position_secs: self.start_position_secs,
                    },
                )
                &&& after.stage == RemoteLoadStage::Starting
                &&& after_sync == before_sync
            },
            EngineReply::Done(result) => {
                &&& step == RemoteLoadStep::Settled(
                    match result {
                        Ok(_) => Ok(true),
                        Err(why) => Err(why),
                    },
                )
                &&& after_sync == before_sync
            },
            _ => false,
        }
    }

    /// Take in a reply and decide the next call. The attempt is registered
    /// before the stream is asked for, so an echo that arrives while it starts
    /// finds it.
    pub fn step(
        &mut self,
        sync: &mut QconnectRemoteSyncState,
        now_ms: u64,
        reply: EngineReply,
    ) -> (r: RemoteLoadStep)
        requires
            old(self).awaits(reply),
        ensures
            old(self).steps_to(*final(self), *old(sync), *final(sync), now_ms, reply, r),
            final(self).steps_left() < old(self).steps_left(),
    {
        match reply {
            EngineReply::Playback(p) => {
                if p.track_id == self.track_id {
                    if self.force {
                        self.stage = RemoteLoadStage::CheckingAudio;
                        return RemoteLoadStep::Call(EngineCall::HasLoadedAudio);
                    }
                    self.stage = RemoteLoadStage::Settled;
                    return RemoteLoadStep::Settled(Ok(false));
                }
                if self.force && is_recent_load_attempt(sync, self.track_id, now_ms) {
                    self.stage = RemoteLoadStage::Settled;
                    return RemoteLoadStep::Settled(Ok(false));
                }
                sync.last_load_attempt = Some(
                    LoadAttempt { track_id: self.track_id, at_ms: now_ms },
                );
                self.stage = RemoteLoadStage::FetchingTrack;
                RemoteLoadStep::Call(EngineCall::FetchTrack(self.track_id))
            },
            EngineReply::Loaded(loaded) => {
                if loaded || is_recent_load_attempt(sync, self.track_id, now_ms) {
                    self.stage = RemoteLoadStage::Settled;
                    return RemoteLoadStep::Settled(Ok(false));
                }
                sync.last_load_attempt = Some(
                    LoadAttempt { track_id: self.track_id, at_ms: now_ms },
                );
                self.stage = RemoteLoadStage::FetchingTrack;
                RemoteLoadStep::Call(EngineCall::FetchTrack(self.track_id))
            },
            EngineReply::Track(result) => {
                let duration_secs: u64 = match result {
                    Ok(track) => track.duration as u64,
                    Err(_) => 0,
                };
                self.stage = RemoteLoadStage::Starting;
                RemoteLoadStep::Call(
                    EngineCall::StartStream {
                        track_id: self.track_id,
                        max_audio_quality: self.max_audio_quality,
                        duration_secs,
                        start_position_secs: self.start_position_secs,
                    },
                )
            },
            EngineReply::Done(result) => {
                self.stage = RemoteLoadStage::Settled;
                match result {
                    Ok(_) => RemoteLoadStep::Settled(Ok(true)),
                    Err(why) => RemoteLoadStep::Settled(Err(why)),
                }
            },
            _ => {
                self.stage = RemoteLoadStage::Settled;
                RemoteLoadStep::Settled(Ok(false))
            },
        }
    }

    /// `after` is `before` with this load registered now.
    pub open spec fn registers(
        self,
        before: QconnectRemoteSyncState,
        after: QconnectRemoteSyncState,
        now_ms: u64,
    ) -> bool {
        after == (QconnectRemoteSyncState {
            last_load_attempt: Some(LoadAttempt { track_id: self.track_id, at_ms: now_ms }),
            ..before
        })
    }
}

/// A registered load of a track keeps a second one from starting for the whole
/// dedup window.
pub proof fn law_a_registered_load_is_recent_for_the_window(
    load: RemoteLoad,
    before: QconnectRemoteSyncState,
    after: QconnectRemoteSyncState,
    now_ms: u64,
    later_ms: u64,
)
    requires
        load.registers(before, after, now_ms),
        later_ms < now_ms + LOAD_ATTEMPT_DEDUP_WINDOW_MS,
    ensures
        recent_load(after, load.track_id, later_ms),
{
}

/// Where a cursor move stands.
#[derive(Debug, Clone, Copy, PartialEq, Eq, Structural)]
pub enum AlignStage {
    /// Waiting for the queue's tracks.
    Reading,
    /// Waiting for the catalog track to build a queue from.
    FetchingTrack,
    /// Waiting for the engine to make the change.
    Applying,
    Settled,
}

/// Moves the engine's queue cursor to a track.
#[derive(Debug, Clone, Copy, PartialEq, Eq, Structural)]
pub struct AlignRun {
    pub track_id: u64,
    pub stage: AlignStage,
}

/// Align the engine's queue cursor to a track.
pub fn align_queue_cursor(track_id: u64) -> (r: (AlignRun, RunStep))
    ensures
        r.0 == (AlignRun { track_id, stage: AlignStage::Reading }),
        r.1 == RunStep::Call(EngineCall::GetQueueTracks),
{
    (AlignRun { track_id, stage: AlignStage::Reading }, RunStep::Call(EngineCall::GetQueueTracks))
}

/// The first index at which `id` stands.
pub open spec fn first_index_of(ids: Seq<u64>, id: u64) -> Option<int>
    decreases ids.len(),
{
    if ids.len() == 0 {
        None
    } else if ids[0] == id {
        Some(0)
    } else {
        match first_index_of(ids.drop_first(), id) {
            Some(i) => Some(i + 1),
            None => None,
        }
    }
}

proof fn lemma_first_index_of(ids: Seq<u64>, id: u64)
    ensures
        match first_index_of(ids, id) {
            Some(i) => 0 <= i < ids.len() && ids[i] == id && forall|j: int|
                0 <= j < i ==> ids[j] != id,
            None => forall|j: int| 0 <= j < ids.len() ==> ids[j] != id,
        },
    decreases ids.len(),
{
    if ids.len() > 0 && ids[0] != id {
        let rest = ids.drop_first();
        lemma_first_index_of(rest, id);
        assert forall|j: int| 0 < j < ids.len() implies ids[j] == rest[j - 1] by {}
    }
}

/// The first index at which `id` stands.
pub fn index_of(ids: &Vec<u64>, id: u64) -> (r: Option<usize>)
    ensures
        match r {
            Some(i) => first_index_of(ids@, id) == Some(i as int),
            None => first_index_of(ids@, id) is None,
        },
        r matches Some(i) ==> i < ids@.len(),
{
    proof {
        lemma_first_index_of(ids@, id);
    }
    let mut i: usize = 0;
    while i < ids.len()
        invariant
            i <= ids@.len(),
            forall|j: int| 0 <= j < i ==> ids@[j] != id,
            match first_index_of(ids@, id) {
                Some(k) => 0 <= k < ids@.len() && ids@[k] == id && forall|j: int|
                    0 <= j < k ==> ids@[j] != id,
                None => forall|j: int| 0 <= j < ids@.len() ==> ids@[j] != id,
            },
        decreases ids@.len() - i,
    {
        if ids[i] == id {
            return Some(i);
        }
        i = i + 1;
    }
    None
}

impl AlignRun {
    /// Whether `reply` is what the stage waits for.
    pub open spec fn awaits(self, reply: EngineReply) -> bool {
        match self.stage {
            AlignStage::Reading => reply is Queue,
            AlignStage::FetchingTrack => reply is Track,
            AlignStage::Applying => reply is Done,
            AlignStage::Settled => false,
        }
    }

    /// How many replies a cursor move can still take in.
    pub open spec fn steps_left(self) -> nat {
        match self.stage {
            AlignStage::Reading => 3,
            AlignStage::FetchingTrack => 2,
            AlignStage::Applying => 1,
            AlignStage::Settled => 0,
        }
    }

    /// Where `reply` takes this cursor move: its next state and the step.
    pub open spec fn steps_to(self, after: AlignRun, reply: EngineReply, step: RunStep) -> bool {
        &&& after.track_id == self.track_id
        &&& step is Finished <==> after.stage == AlignStage::Settled
        &&& match reply {
            EngineReply::Queue { ids, current } => match first_index_of(ids@, self.track_id) {
                Some(i) => if current matches Some(c) && c == i {
                    step == RunStep::Finished(Ok(()))
                } else {
                    &&& step == RunStep::Call(EngineCall::PlayIndex(i as usize))
                    &&& after.stage == AlignStage::Applying
                },
                None => {
                    &&& step == RunStep::Call(EngineCall::FetchTrack(self.track_id))
                    &&& after.stage == AlignStage::FetchingTrack
                },
            },
            EngineReply::Track(Ok(track)) => {
                &&& step matches RunStep::Call(EngineCall::SetQueue(q)) && is_queue_track_of(
                    q,
                    track,
                )
                &&& after.stage == AlignStage::Applying
            },
            EngineReply::Track(Err(why)) => step matches RunStep::Finished(Err(message))
                && message@ == "fetch current remote track "@ + crate::text::decimal(
                self.track_id as nat,
            ) + ": "@ + why@,
            EngineReply::Done(_) => step == RunStep::Finished(Ok(())),
            _ => false,
        }
    }

    /// Take in a reply and decide the next call. A track that the queue holds
    /// is moved to; one that it does not hold becomes a queue of its own.
    pub fn step(&mut self, reply: EngineReply) -> (r: RunStep)
        requires
            old(self).awaits(reply),
        ensures
            old(self).steps_to(*final(self), reply, r),
            final(self).steps_left() < old(self).steps_left(),
    {
        match reply {
            EngineReply::Queue { ids, current } => match index_of(&ids, self.track_id) {
                Some(target) => {
                    let there = match current {
                        Some(c) => c == target,
                        None => false,
                    };
                    if there {
                        self.stage = AlignStage::Settled;
                        RunStep::Finished(Ok(()))
                    } else {
                        self.stage = AlignStage::Applying;
                        RunStep::Call(EngineCall::PlayIndex(target))
                    }
                },
                None => {
                    self.stage = AlignStage::FetchingTrack;
                    RunStep::Call(EngineCall::FetchTrack(self.track_id))
                },
            },
            EngineReply::Track(Ok(track)) => {
                self.stage = AlignStage::Applying;
                RunStep::Call(EngineCall::SetQueue(model_track_to_core_queue_track(&track)))
            },
            EngineReply::Track(Err(why)) => {
                self.stage = AlignStage::Settled;
                let mut message = String::from_str("fetch current remote track ");
                append_decimal(&mut message, self.track_id);
                message.append(": ");
                message.append(why.as_str());
                RunStep::Finished(Err(message))
            },
            _ => {
                self.stage = AlignStage::Settled;
                RunStep::Finished(Ok(()))
            },
        }
    }
}

} // verus!
