//! The values that renderer orchestration works on: tracks, the cloud's view of
//! the renderer, the shared sync state, and the calls it asks the host to make.

use vstd::prelude::*;

use crate::queue::{QConnectQueueState, QueueItem};

verus! {

/// How the queue repeats.
#[derive(Debug, Clone, Copy, PartialEq, Eq, Structural)]
pub enum RepeatMode {
    Off,
    One,
    All,
}

/// The album a catalog track belongs to.
#[derive(Debug, Clone)]
pub struct TrackAlbum {
    pub id: String,
    pub title: String,
    /// The best of the album's images.
    pub artwork_url: Option<String>,
}

/// Who performs a catalog track.
#[derive(Debug, Clone)]
pub struct TrackPerformer {
    pub id: u64,
    pub name: String,
}

/// A track as the catalog describes it.
#[derive(Debug, Clone)]
pub struct Track {
    pub id: u64,
    pub title: String,
    pub version: Option<String>,
    pub duration: u32,
    pub album: Option<TrackAlbum>,
    pub performer: Option<TrackPerformer>,
    pub hires: bool,
    pub maximum_bit_depth: Option<u32>,
    pub maximum_sampling_rate_hz: Option<u32>,
    pub streamable: bool,
    pub parental_warning: bool,
}

/// A track as the local queue holds it.
#[derive(Debug, Clone)]
pub struct QueueTrack {
    pub id: u64,
    pub title: String,
    pub version: Option<String>,
    pub artist: String,
    pub album: String,
    pub album_version: Option<String>,
    pub duration_secs: u64,
    pub artwork_url: Option<String>,
    pub hires: bool,
    pub bit_depth: Option<u32>,
    pub sample_rate_hz: Option<u32>,
    pub is_local: bool,
    pub album_id: Option<String>,
    pub artist_id: Option<u64>,
    pub streamable: bool,
    pub source: Option<String>,
    pub parental_warning: bool,
    pub source_item_id_hint: Option<String>,
    pub context_kind: Option<String>,
    pub context_id: Option<String>,
}

/// A copy of an optional text.
pub fn copy_opt_text(text: &Option<String>) -> (r: Option<String>)
    ensures
        r == *text,
{
    match text {
        Some(t) => Some(t.clone()),
        None => None,
    }
}

impl QueueTrack {
    /// A copy holding the same values.
    pub fn copy(&self) -> (r: QueueTrack)
        ensures
            r == *self,
    {
        QueueTrack {
            id: self.id,
            title: self.title.clone(),
            version: copy_opt_text(&self.version),
            artist: self.artist.clone(),
            album: self.album.clone(),
            album_version: copy_opt_text(&self.album_version),
            duration_secs: self.duration_secs,
            artwork_url: copy_opt_text(&self.artwork_url),
            hires: self.hires,
            bit_depth: self.bit_depth,
            sample_rate_hz: self.sample_rate_hz,
            is_local: self.is_local,
            album_id: copy_opt_text(&self.album_id),
            artist_id: self.artist_id,
            streamable: self.streamable,
            source: copy_opt_text(&self.source),
            parental_warning: self.parental_warning,
            source_item_id_hint: copy_opt_text(&self.source_item_id_hint),
            context_kind: copy_opt_text(&self.context_kind),
            context_id: copy_opt_text(&self.context_id),
        }
    }
}

/// What the player is on, as far as renderer decisions read it.
#[derive(Debug, Clone, Copy, PartialEq, Eq, Structural)]
pub struct PlaybackState {
    /// 0 when nothing is loaded.
    pub track_id: u64,
    /// In seconds.
    pub position: u64,
}

/// The cloud's retained view of this renderer.
#[derive(Debug)]
pub struct QConnectRendererState {
    pub playing_state: Option<i32>,
    pub current_position_ms: Option<u64>,
    pub current_track: Option<QueueItem>,
    pub next_track: Option<QueueItem>,
    pub volume: Option<i32>,
    pub loop_mode: Option<i32>,
    pub shuffle_mode: Option<bool>,
    pub max_audio_quality: Option<i32>,
}

impl Default for QConnectRendererState {
    fn default() -> (r: Self)
        ensures
            r.playing_state is None,
            r.current_position_ms is None,
            r.current_track is None,
            r.next_track is None,
            r.volume is None,
            r.loop_mode is None,
            r.shuffle_mode is None,
            r.max_audio_quality is None,
    {
        QConnectRendererState {
            playing_state: None,
            current_position_ms: None,
            current_track: None,
            next_track: None,
            volume: None,
            loop_mode: None,
            shuffle_mode: None,
            max_audio_quality: None,
        }
    }
}

/// A command the cloud sends to this renderer.
#[derive(Debug)]
pub enum RendererCommand {
    SetState {
        playing_state: Option<i32>,
        current_position_ms: Option<u64>,
        current_track: Option<QueueItem>,
        next_track: Option<QueueItem>,
    },
    SetVolume { volume: Option<i32> },
    MuteVolume { value: bool },
    SetLoopMode { loop_mode: i32 },
    SetActive { active: bool },
    SetMaxAudioQuality { max_audio_quality: i32 },
    SetShuffleMode { shuffle_mode: bool },
}

/// A load this renderer started, on the caller's millisecond clock.
#[derive(Debug, Clone, Copy, PartialEq, Eq, Structural)]
pub struct LoadAttempt {
    pub track_id: u64,
    pub at_ms: u64,
}

/// What the renderer remembers of the cloud between two messages.
#[derive(Debug)]
pub struct QconnectRemoteSyncState {
    pub last_load_attempt: Option<LoadAttempt>,
    pub last_remote_queue_state: Option<QConnectQueueState>,
    pub last_applied_queue_state: Option<QConnectQueueState>,
    pub last_renderer_queue_item_id: Option<u64>,
    pub last_renderer_track_id: Option<u64>,
    pub last_renderer_next_queue_item_id: Option<u64>,
    pub last_renderer_next_track_id: Option<u64>,
    pub last_renderer_playing_state: Option<i32>,
    pub last_renderer_max_audio_quality: Option<i32>,
    pub last_materialized_start_index: Option<usize>,
    pub last_materialized_core_shuffle_order: Option<Vec<usize>>,
    /// The last activation this renderer honoured.
    pub local_render_active: Option<bool>,
}

impl Default for QconnectRemoteSyncState {
    fn default() -> (r: Self)
        ensures
            r.last_load_attempt is None,
            r.last_remote_queue_state is None,
            r.last_applied_queue_state is None,
            r.last_renderer_queue_item_id is None,
            r.last_renderer_track_id is None,
            r.last_renderer_next_queue_item_id is None,
            r.last_renderer_next_track_id is None,
            r.last_renderer_playing_state is None,
            r.last_renderer_max_audio_quality is None,
            r.last_materialized_start_index is None,
            r.last_materialized_core_shuffle_order is None,
            r.local_render_active is None,
    {
        QconnectRemoteSyncState {
            last_load_attempt: None,
            last_remote_queue_state: None,
            last_applied_queue_state: None,
            last_renderer_queue_item_id: None,
            last_renderer_track_id: None,
            last_renderer_next_queue_item_id: None,
            last_renderer_next_track_id: None,
            last_renderer_playing_state: None,
            last_renderer_max_audio_quality: None,
            last_materialized_start_index: None,
            last_materialized_core_shuffle_order: None,
            local_render_active: None,
        }
    }
}

/// A call that renderer orchestration asks the host to make.
#[allow(inconsistent_fields)]
#[derive(Debug)]
pub enum EngineCall {
    Resume,
    Pause,
    Stop,
    /// To this second of the track.
    Seek(u64),
    /// To this percentage.
    SetVolume(i32),
    SetRepeatMode(RepeatMode),
    /// Shuffle, with an order of the engine's own.
    SetShuffle(bool),
    /// The shuffle flag alone; the order is the cloud's.
    SetShuffleFlag(bool),
    GetPlaybackState,
    HasLoadedAudio,
    GetQueueTracks,
    /// Find where these entries stand in this queue, and its play order.
    ResolveQueue {
        queue: QConnectQueueState,
        queue_item_id: Option<u64>,
        track_id: Option<u64>,
        next_queue_item_id: Option<u64>,
        next_track_id: Option<u64>,
    },
    /// Keep the queue's tracks, shuffled in this order from this index.
    ReorderQueue { start_index: usize, order: Vec<usize> },
    /// A queue of this one track, at its start.
    SetQueue(QueueTrack),
    SetQueueWithOrder {
        tracks: Vec<QueueTrack>,
        start_index: Option<usize>,
        shuffle_enabled: bool,
        order: Option<Vec<usize>>,
    },
    /// Clear the queue but for the current track.
    ClearQueue,
    PlayIndex(usize),
    FetchTrack(u64),
    FetchTracks(Vec<u64>),
    StartStream {
        track_id: u64,
        max_audio_quality: Option<i32>,
        duration_secs: u64,
        start_position_secs: u64,
    },
}

/// What an [`EngineCall`] came to.
#[derive(Debug)]
pub enum EngineReply {
    /// The call was made; one that cannot fail reports `Ok`.
    Done(Result<(), String>),
    Playback(PlaybackState),
    Loaded(bool),
    /// The ids of the queue's tracks, and the index it stands at.
    Queue { ids: Vec<u64>, current: Option<usize> },
    /// Where the current and the next entry stand, and the play order.
    Resolved { start: Option<usize>, next_start: Option<usize>, order: Option<Vec<usize>> },
    Track(Result<Track, String>),
    Tracks(Result<Vec<Track>, String>),
}

/// The outcome of one step of an orchestration.
#[derive(Debug)]
pub enum RunStep {
    /// Make this call and step on with its reply.
    Call(EngineCall),
    Finished(Result<(), String>),
}

} // verus!
