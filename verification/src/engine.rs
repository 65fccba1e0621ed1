//! The daemon's renderer engine: volume policy, the buffering latch and the
//! ladder of ways to get a remote track playing.

use vstd::prelude::*;
use vstd::string::*;

use crate::remote_stream::is_header_flood_error;
use crate::text::{append_decimal, same_text, trim};

verus! {

/// How the daemon treats a controller's remote volume command.
#[derive(Debug, Clone, Copy, PartialEq, Eq, Structural)]
pub enum VolumeMode {
    /// Remote volume is applied to the player, and the player's real volume is
    /// reported back.
    Software,
    /// The player stays at 100 %; remote volume is acknowledged and ignored,
    /// and 100 is reported.
    Locked,
}

impl Default for VolumeMode {
    fn default() -> (r: Self)
        ensures
            r == VolumeMode::Software,
    {
        VolumeMode::Software
    }
}

/// `volume` held within 0 and 100.
pub open spec fn clamped_percent(volume: int) -> int {
    if volume < 0 {
        0
    } else if volume > 100 {
        100
    } else {
        volume
    }
}

/// Hold a volume within 0 and 100 percent.
pub fn clamp_percent(volume: i32) -> (r: i32)
    ensures
        r == clamped_percent(volume as int),
{
    if volume < 0 {
        0
    } else if volume > 100 {
        100
    } else {
        volume
    }
}

impl VolumeMode {
    /// Parse the stored volume mode. Anything but `locked` falls back to
    /// `Software`.
    pub fn from_kv(value: Option<&str>) -> (r: Self)
        ensures
            r == (match value {
                Some(text) => if crate::text::trimmed(text@) == "locked"@ {
                    VolumeMode::Locked
                } else {
                    VolumeMode::Software
                },
                None => VolumeMode::Software,
            }),
    {
        match value {
            Some(text) => {
                if same_text(trim(text), "locked") {
                    VolumeMode::Locked
                } else {
                    VolumeMode::Software
                }
            },
            None => VolumeMode::Software,
        }
    }

    /// Whether a controller's remote volume should reach the player.
    pub fn applies_remote_volume(self) -> (r: bool)
        ensures
            r == (self == VolumeMode::Software),
    {
        matches!(self, VolumeMode::Software)
    }

    /// The percentage to report, given the player's real one.
    pub fn reported_volume_pct(self, real_pct: i32) -> (r: i32)
        ensures
            r == (match self {
                VolumeMode::Software => clamped_percent(real_pct as int),
                VolumeMode::Locked => 100,
            }),
    {
        match self {
            VolumeMode::Software => clamp_percent(real_pct),
            VolumeMode::Locked => 100,
        }
    }
}

/// A stream that has been opened and is not audible yet.
#[derive(Debug, Clone, Copy, PartialEq, Eq, Structural)]
pub struct Buffering {
    pub track_id: u64,
    /// Where the stream was opened. The playback clock sits here until audio
    /// flows, so a position past it is the audible edge.
    pub start_position_secs: u64,
    /// The loading track's duration.
    pub duration_secs: u64,
    /// When the stream was opened, on the caller's millisecond clock.
    pub since_ms: u64,
}

/// A load that never becomes audible stops counting as buffering after this.
pub const BUFFERING_MAX_MS: u64 = 90_000;

impl Buffering {
    /// The player has arrived on this track and its clock has moved past where
    /// the stream opened.
    pub open spec fn audible(self, player_track_id: u64, position_ms: u64) -> bool {
        player_track_id == self.track_id && position_ms > self.start_position_secs * 1000
    }

    /// The load has been going on for too long.
    pub open spec fn expired(self, now_ms: u64) -> bool {
        now_ms - self.since_ms > BUFFERING_MAX_MS
    }
}

/// Which track is filling its buffer, from the moment its feeder opens until
/// the player produces its audio.
#[derive(Debug)]
pub struct BufferingLatch {
    pub load: Option<Buffering>,
}

impl Default for BufferingLatch {
    fn default() -> (r: Self)
        ensures
            r.load is None,
    {
        BufferingLatch { load: None }
    }
}

impl BufferingLatch {
    /// Mark `track_id` as buffering from `start_position_secs`, replacing any
    /// previous track.
    pub fn begin(
        &mut self,
        track_id: u64,
        start_position_secs: u64,
        duration_secs: u64,
        now_ms: u64,
    )
        ensures
            final(self).load == Some(
                Buffering { track_id, start_position_secs, duration_secs, since_ms: now_ms },
            ),
    {
        self.load = Some(
            Buffering { track_id, start_position_secs, duration_secs, since_ms: now_ms },
        );
    }

    /// Clear the latch for `track_id`; a stale clear for a track that has been
    /// superseded is ignored.
    pub fn finish(&mut self, track_id: u64)
        ensures
            final(self).load == (match old(self).load {
                Some(load) => if load.track_id == track_id {
                    None
                } else {
                    Some(load)
                },
                None => None,
            }),
    {
        if let Some(load) = self.load {
            if load.track_id == track_id {
                self.load = None;
            }
        }
    }

    /// The load in flight, as track, start position and duration, or `None`
    /// once its audio flows or it took too long. Clears itself then.
    ///
    /// Not keyed on the player's track alone: the player keeps reporting the
    /// outgoing track until the new stream produces audio.
    pub fn in_flight(&mut self, player_track_id: u64, position_ms: u64, now_ms: u64) -> (r: Option<
        (u64, u64, u64),
    >)
        ensures
            match old(self).load {
                Some(load) => if load.audible(player_track_id, position_ms) || load.expired(
                    now_ms,
                ) {
                    r is None && final(self).load is None
                } else {
                    r == Some((load.track_id, load.start_position_secs, load.duration_secs))
                        && final(self).load == old(self).load
                },
                None => r is None && final(self).load is None,
            },
    {
        match self.load {
            Some(load) => {
                let past_start = (position_ms as u128) > (load.start_position_secs as u128) * 1000;
                let audible = player_track_id == load.track_id && past_start;
                if audible || now_ms.saturating_sub(load.since_ms) > BUFFERING_MAX_MS {
                    self.load = None;
                    None
                } else {
                    Some((load.track_id, load.start_position_secs, load.duration_secs))
                }
            },
            None => None,
        }
    }
}

/// Where the load of a remote track stands.
#[derive(Debug, Clone, Copy, PartialEq, Eq, Structural)]
pub enum LoadStage {
    /// The stream URL is being resolved.
    Resolving,
    /// The progressive stream is being opened.
    Streaming,
    /// The whole file is being downloaded.
    Downloading,
    /// The downloaded file is being handed to the player.
    Playing,
    /// The segmented stream is the last resort.
    FallingBack,
    Finished,
}

impl LoadStage {
    /// How many steps a load can still take.
    pub open spec fn steps_left(self) -> nat {
        match self {
            LoadStage::Resolving => 4,
            LoadStage::Streaming => 3,
            LoadStage::Downloading => 2,
            LoadStage::Playing => 1,
            LoadStage::FallingBack => 1,
            LoadStage::Finished => 0,
        }
    }
}

/// What came of the last action of a load.
pub enum LoadEvent {
    UrlResolved,
    UrlFailed(String),
    StreamStarted,
    StreamFailed(String),
    Downloaded,
    DownloadFailed(String),
    Played,
    PlayFailed(String),
    FallbackStarted,
    FallbackFailed(String),
}

/// What a load does next.
pub enum LoadAction {
    /// Stop the previous track's feeder and open the progressive stream.
    OpenStream,
    /// Download the whole file.
    Download,
    /// Hand the downloaded file to the player.
    PlayData,
    /// Play through the segmented stream.
    PlaySegmented,
    Finish(Result<(), String>),
}

/// The outcome of one step of a load.
pub struct LoadStep {
    pub action: LoadAction,
    /// The controller is to be told at once.
    pub report: bool,
}

/// The load of a remote track: the progressive stream first, the whole file if
/// that cannot be opened, the segmented stream where the server's header flood
/// defeats every plain request.
pub struct TrackLoad {
    pub track_id: u64,
    pub duration_secs: u64,
    pub start_position_secs: u64,
    pub stage: LoadStage,
}

impl LoadEvent {
    /// Whether this is an answer to what the stage is waiting for.
    pub open spec fn answers(self, stage: LoadStage) -> bool {
        match stage {
            LoadStage::Resolving => self is UrlResolved || self is UrlFailed,
            LoadStage::Streaming => self is StreamStarted || self is StreamFailed,
            LoadStage::Downloading => self is Downloaded || self is DownloadFailed,
            LoadStage::Playing => self is Played || self is PlayFailed,
            LoadStage::FallingBack => self is FallbackStarted || self is FallbackFailed,
            LoadStage::Finished => false,
        }
    }
}

/// `what`, the track it happened to, and why.
pub open spec fn track_failure(what: Seq<char>, track_id: u64, why: Seq<char>) -> Seq<char> {
    what + crate::text::decimal(track_id as nat) + ": "@ + why
}

fn describe_track_failure(what: &str, track_id: u64, why: &String) -> (r: String)
    ensures
        r@ == track_failure(what@, track_id, why@),
{
    let mut out = String::from_str(what);
    append_decimal(&mut out, track_id);
    out.append(": ");
    out.append(why.as_str());
    out
}

/// The latch after a clear for `track_id`.
pub open spec fn cleared_for(load: Option<Buffering>, track_id: u64) -> Option<Buffering> {
    match load {
        Some(b) => if b.track_id == track_id {
            None
        } else {
            Some(b)
        },
        None => None,
    }
}

impl TrackLoad {
    /// A load about to have its stream URL resolved. The host is told that a
    /// track is loading before anything touches the audio device.
    pub fn new(track_id: u64, duration_secs: u64, start_position_secs: u64) -> (r: Self)
        ensures
            r == (TrackLoad {
                track_id,
                duration_secs,
                start_position_secs,
                stage: LoadStage::Resolving,
            }),
    {
        TrackLoad { track_id, duration_secs, start_position_secs, stage: LoadStage::Resolving }
    }

    /// Take in what came of the last action and decide the next one.
    pub fn step(&mut self, latch: &mut BufferingLatch, now_ms: u64, event: LoadEvent) -> (r:
        LoadStep)
        requires
            event.answers(old(self).stage),
        ensures
            final(self).track_id == old(self).track_id,
            final(self).duration_secs == old(self).duration_secs,
            final(self).start_position_secs == old(self).start_position_secs,
            match event {
                LoadEvent::UrlResolved => {
                    &&& r.action is OpenStream
                    &&& r.report
                    &&& final(self).stage == LoadStage::Streaming
                    &&& final(latch).load == Some(
                        Buffering {
                            track_id: old(self).track_id,
                            start_position_secs: old(self).start_position_secs,
                            duration_secs: old(self).duration_secs,
                            since_ms: now_ms,
                        },
                    )
                },
                LoadEvent::UrlFailed(why) => {
                    &&& r.action matches LoadAction::Finish(Err(message)) && message@
                        == track_failure(
                        "resolve stream url for remote track "@,
                        old(self).track_id,
                        why@,
                    )
                    &&& !r.report
                    &&& final(self).stage == LoadStage::Finished
                    &&& final(latch).load == old(latch).load
                },
                LoadEvent::StreamStarted => {
                    &&& r.action matches LoadAction::Finish(Ok(_))
                    &&& !r.report
                    &&& final(self).stage == LoadStage::Finished
                    &&& final(latch).load == old(latch).load
                },
                LoadEvent::StreamFailed(why) => {
                    &&& if crate::remote_stream::names_header_flood(why@) {
                        r.action is PlaySegmented && final(self).stage == LoadStage::FallingBack
                    } else {
                        r.action is Download && final(self).stage == LoadStage::Downloading
                    }
                    &&& !r.report
                    &&& final(latch).load == old(latch).load
                },
                LoadEvent::Downloaded => {
                    &&& r.action is PlayData
                    &&& !r.report
                    &&& final(self).stage == LoadStage::Playing
                    &&& final(latch).load == old(latch).load
                },
                LoadEvent::DownloadFailed(why) => {
                    if crate::remote_stream::names_header_flood(why@) {
                        &&& r.action is PlaySegmented
                        &&& !r.report
                        &&& final(self).stage == LoadStage::FallingBack
                        &&& final(latch).load == old(latch).load
                    } else {
                        &&& r.action matches LoadAction::Finish(Err(message)) && message@ == why@
                        &&& r.report
                        &&& final(self).stage == LoadStage::Finished
                        &&& final(latch).load == cleared_for(
                            old(latch).load,
                            old(self).track_id,
                        )
                    }
                },
                LoadEvent::Played => {
                    &&& r.action matches LoadAction::Finish(Ok(_))
                    &&& r.report
                    &&& final(self).stage == LoadStage::Finished
                    &&& final(latch).load == cleared_for(old(latch).load, old(self).track_id)
                },
                LoadEvent::PlayFailed(why) => {
                    &&& r.action matches LoadAction::Finish(Err(message)) && message@
                        == track_failure("play remote track "@, old(self).track_id, why@)
                    &&& r.report
                    &&& final(self).stage == LoadStage::Finished
                    &&& final(latch).load == cleared_for(old(latch).load, old(self).track_id)
                },
                LoadEvent::FallbackStarted => {
                    &&& r.action matches LoadAction::Finish(Ok(_))
                    &&& !r.report
                    &&& final(self).stage == LoadStage::Finished
                    &&& final(latch).load == old(latch).load
                },
                LoadEvent::FallbackFailed(why) => {
                    &&& r.action matches LoadAction::Finish(Err(message)) && message@
                        == track_failure(
                        "CMAF fallback for remote track "@,
                        old(self).track_id,
                        why@,
                    )
                    &&& r.report
                    &&& final(self).stage == LoadStage::Finished
                    &&& final(latch).load == cleared_for(old(latch).load, old(self).track_id)
                },
            },
            r.action is Finish <==> final(self).stage == LoadStage::Finished,
            final(self).stage.steps_left() < old(self).stage.steps_left(),
            r.action matches LoadAction::Finish(Err(_)) ==> old(self).stage == LoadStage::Resolving
                || (final(latch).load matches Some(load) ==> load.track_id != old(self).track_id),
    {
        match event {
            LoadEvent::UrlResolved => {
                latch.begin(self.track_id, self.start_position_secs, self.duration_secs, now_ms);
                self.stage = LoadStage::Streaming;
                LoadStep { action: LoadAction::OpenStream, report: true }
            },
            LoadEvent::UrlFailed(why) => {
                self.stage = LoadStage::Finished;
                let message = describe_track_failure(
                    "resolve stream url for remote track ",
                    self.track_id,
                    &why,
                );
                LoadStep { action: LoadAction::Finish(Err(message)), report: false }
            },
            LoadEvent::StreamStarted => {
                self.stage = LoadStage::Finished;
                LoadStep { action: LoadAction::Finish(Ok(())), report: false }
            },
            LoadEvent::StreamFailed(why) => {
                if is_header_flood_error(why.as_str()) {
                    self.stage = LoadStage::FallingBack;
                    LoadStep { action: LoadAction::PlaySegmented, report: false }
                } else {
                    self.stage = LoadStage::Downloading;
                    LoadStep { action: LoadAction::Download, report: false }
                }
            },
            LoadEvent::Downloaded => {
                self.stage = LoadStage::Playing;
                LoadStep { action: LoadAction::PlayData, report: false }
            },
            LoadEvent::DownloadFailed(why) => {
                if is_header_flood_error(why.as_str()) {
                    self.stage = LoadStage::FallingBack;
                    LoadStep { action: LoadAction::PlaySegmented, report: false }
                } else {
                    latch.finish(self.track_id);
                    self.stage = LoadStage::Finished;
                    LoadStep { action: LoadAction::Finish(Err(why)), report: true }
                }
            },
            LoadEvent::Played => {
                latch.finish(self.track_id);
                self.stage = LoadStage::Finished;
                LoadStep { action: LoadAction::Finish(Ok(())), report: true }
            },
            LoadEvent::PlayFailed(why) => {
                latch.finish(self.track_id);
                self.stage = LoadStage::Finished;
                let message = describe_track_failure("play remote track ", self.track_id, &why);
                LoadStep { action: LoadAction::Finish(Err(message)), report: true }
            },
            LoadEvent::FallbackStarted => {
                self.stage = LoadStage::Finished;
                LoadStep { action: LoadAction::Finish(Ok(())), report: false }
            },
            LoadEvent::FallbackFailed(why) => {
                latch.finish(self.track_id);
                self.stage = LoadStage::Finished;
                let message = describe_track_failure(
                    "CMAF fallback for remote track ",
                    self.track_id,
                    &why,
                );
                LoadStep { action: LoadAction::Finish(Err(message)), report: true }
            },
        }
    }
}

} // verus!
