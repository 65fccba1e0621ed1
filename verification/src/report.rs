//! What this renderer reports to the cloud, and when: the playback state, the
//! output format, and the schedule that paces the reports.

use vstd::prelude::*;

use crate::engine::BufferingLatch;
use crate::queue::QueueVersion;
use crate::renderer::{PLAYING_STATE_PAUSED, PLAYING_STATE_PLAYING, PLAYING_STATE_STOPPED};
use crate::renderer_model::QconnectRemoteSyncState;

verus! {

pub const QCONNECT_RENDERER_CHANNELS: i32 = 2;

pub const AUDIO_QUALITY_UNKNOWN: i32 = 0;

pub const AUDIO_QUALITY_MP3: i32 = 1;

pub const AUDIO_QUALITY_CD: i32 = 2;

pub const AUDIO_QUALITY_HIRES_L1: i32 = 3;

pub const AUDIO_QUALITY_HIRES_L2: i32 = 4;

pub const AUDIO_QUALITY_HIRES_L3: i32 = 5;

/// The clock is at the end of a track that is playing.
pub open spec fn is_at_the_end(is_playing: bool, position_secs: u64, duration_secs: u64) -> bool {
    is_playing && duration_secs > 0 && position_secs >= duration_secs
}

/// Whether the player's clock has reached the end of the track it is playing:
/// the next track has not started yet.
pub fn clock_is_at_the_end(is_playing: bool, position_secs: u64, duration_secs: u64) -> (r: bool)
    ensures
        r == is_at_the_end(is_playing, position_secs, duration_secs),
{
    is_playing && duration_secs > 0 && position_secs >= duration_secs
}

/// When the clock arrived at the end: what was remembered, or now.
pub open spec fn arrival(at_end: bool, at_end_since: Option<u64>, now_ms: u64) -> Option<u64> {
    if !at_end {
        None
    } else {
        match at_end_since {
            Some(since) => Some(since),
            None => Some(now_ms),
        }
    }
}

/// The clock has been at the end for as long as the grace.
pub open spec fn awaits_next(
    at_end: bool,
    at_end_since: Option<u64>,
    grace_ms: u64,
    now_ms: u64,
) -> bool {
    match arrival(at_end, at_end_since, now_ms) {
        Some(since) => {
            let waited: int = if now_ms > since {
                now_ms - since
            } else {
                0
            };
            waited >= grace_ms
        },
        None => false,
    }
}

/// Debounce [`clock_is_at_the_end`] into "a load is in progress".
///
/// `at_end_since` is the caller's memory of when the clock first arrived there,
/// cleared as soon as it moves again, so that an ordinary gapless hand-off
/// passes through unnoticed.
pub fn awaiting_next_track(
    at_end: bool,
    at_end_since: &mut Option<u64>,
    grace_ms: u64,
    now_ms: u64,
) -> (r: bool)
    ensures
        r == awaits_next(at_end, *old(at_end_since), grace_ms, now_ms),
        *final(at_end_since) == arrival(at_end, *old(at_end_since), now_ms),
{
    if !at_end {
        *at_end_since = None;
        return false;
    }
    let since: u64 = match *at_end_since {
        Some(since) => since,
        None => now_ms,
    };
    *at_end_since = Some(since);
    now_ms.saturating_sub(since) >= grace_ms
}

/// The quality level of an output format.
pub open spec fn audio_quality(sample_rate: u32, bit_depth: u32) -> i32 {
    if sample_rate == 0 || bit_depth == 0 {
        AUDIO_QUALITY_UNKNOWN
    } else if sample_rate >= 384_000 {
        AUDIO_QUALITY_HIRES_L3
    } else if sample_rate >= 192_000 {
        AUDIO_QUALITY_HIRES_L2
    } else if bit_depth > 16 || sample_rate > 48_000 {
        AUDIO_QUALITY_HIRES_L1
    } else if sample_rate >= 44_100 {
        AUDIO_QUALITY_CD
    } else {
        AUDIO_QUALITY_MP3
    }
}

/// Classify an output format into the protocol's quality level.
pub fn classify_audio_quality(sample_rate: u32, bit_depth: u32) -> (r: i32)
    ensures
        r == audio_quality(sample_rate, bit_depth),
{
    if sample_rate == 0 || bit_depth == 0 {
        AUDIO_QUALITY_UNKNOWN
    } else if sample_rate >= 384_000 {
        AUDIO_QUALITY_HIRES_L3
    } else if sample_rate >= 192_000 {
        AUDIO_QUALITY_HIRES_L2
    } else if bit_depth > 16 || sample_rate > 48_000 {
        AUDIO_QUALITY_HIRES_L1
    } else if sample_rate >= 44_100 {
        AUDIO_QUALITY_CD
    } else {
        AUDIO_QUALITY_MP3
    }
}

/// A better format is never classed below a lesser one.
pub proof fn law_quality_grows_with_the_format(
    sample_rate: u32,
    bit_depth: u32,
    better_rate: u32,
    better_depth: u32,
)
    requires
        sample_rate <= better_rate,
        bit_depth <= better_depth,
    ensures
        audio_quality(sample_rate, bit_depth) <= audio_quality(better_rate, better_depth),
{
}

/// The format of the file being played.
#[derive(Debug, Clone, Copy, PartialEq, Eq, Structural)]
pub struct QconnectFileAudioQualitySnapshot {
    pub sampling_rate: i32,
    pub bit_depth: i32,
    pub nb_channels: i32,
    pub audio_quality: i32,
}

/// The snapshot of an output format, or `None` while the format is not known.
pub open spec fn file_quality(sample_rate: u32, bit_depth: u32, nb_channels: i32) -> Option<
    QconnectFileAudioQualitySnapshot,
> {
    if sample_rate == 0 || bit_depth == 0 {
        None
    } else {
        Some(
            QconnectFileAudioQualitySnapshot {
                sampling_rate: sample_rate as i32,
                bit_depth: bit_depth as i32,
                nb_channels,
                audio_quality: audio_quality(sample_rate, bit_depth),
            },
        )
    }
}

/// Describe the live output format, or `None` while it is not known yet.
pub fn build_file_audio_quality_snapshot(
    sample_rate: u32,
    bit_depth: u32,
    nb_channels: i32,
) -> (r: Option<QconnectFileAudioQualitySnapshot>)
    ensures
        r == file_quality(sample_rate, bit_depth, nb_channels),
{
    if sample_rate == 0 || bit_depth == 0 {
        return None;
    }
    Some(
        QconnectFileAudioQualitySnapshot {
            sampling_rate: #[verifier::truncate]
            (sample_rate as i32),
            bit_depth: #[verifier::truncate]
            (bit_depth as i32),
            nb_channels,
            audio_quality: classify_audio_quality(sample_rate, bit_depth),
        },
    )
}

/// What the output hardware negotiated.
#[derive(Debug, Clone, Copy, PartialEq, Eq, Structural)]
pub struct NegotiatedRate {
    pub sample_rate: u32,
    pub channels: u32,
}

/// The format the output device receives.
#[derive(Debug, Clone, Copy, PartialEq, Eq, Structural)]
pub struct DeviceAudioQuality {
    pub sampling_rate: i32,
    pub bit_depth: i32,
    pub nb_channels: i32,
}

/// The device's own rate and channels where the hardware has negotiated them,
/// the file's otherwise; always the file's bit depth, for the hardware's is that
/// of its container.
pub open spec fn device_quality(
    file: QconnectFileAudioQualitySnapshot,
    negotiated: Option<NegotiatedRate>,
) -> DeviceAudioQuality {
    match negotiated {
        Some(rate) => DeviceAudioQuality {
            sampling_rate: rate.sample_rate as i32,
            bit_depth: file.bit_depth,
            nb_channels: rate.channels as i32,
        },
        None => DeviceAudioQuality {
            sampling_rate: file.sampling_rate,
            bit_depth: file.bit_depth,
            nb_channels: file.nb_channels,
        },
    }
}

/// Describe what the output device receives.
pub fn build_device_audio_quality(
    file: QconnectFileAudioQualitySnapshot,
    negotiated: Option<NegotiatedRate>,
) -> (r: DeviceAudioQuality)
    ensures
        r == device_quality(file, negotiated),
{
    match negotiated {
        Some(rate) => DeviceAudioQuality {
            sampling_rate: #[verifier::truncate]
            (rate.sample_rate as i32),
            bit_depth: file.bit_depth,
            nb_channels: #[verifier::truncate]
            (rate.channels as i32),
        },
        None => DeviceAudioQuality {
            sampling_rate: file.sampling_rate,
            bit_depth: file.bit_depth,
            nb_channels: file.nb_channels,
        },
    }
}

/// Whether the stream of the reported track is filling.
#[derive(Debug, Clone, Copy, PartialEq, Eq, Structural)]
pub enum BufferHealth {
    Good,
    Buffering,
}

/// A playback state to report. Positions are in milliseconds.
#[derive(Debug, Clone, Copy, PartialEq, Eq, Structural)]
pub struct PlaybackReport {
    pub playing_state: i32,
    pub buffer: BufferHealth,
    pub position_ms: i64,
    pub duration_ms: i64,
    pub track_id: u64,
}

/// `text` is that of a random UUID: lower-case digits in five groups, with its
/// version and its variant where they belong.
pub open spec fn is_random_uuid(text: Seq<char>) -> bool {
    &&& text.len() == 36
    &&& forall|i: int|
        0 <= i < 36 ==> if i == 8 || i == 13 || i == 18 || i == 23 {
            #[trigger] text[i] == '-'
        } else {
            ('0' <= text[i] && text[i] <= '9') || ('a' <= text[i] && text[i] <= 'f')
        }
    &&& text[14] == '4'
    &&& text[19] == '8' || text[19] == '9' || text[19] == 'a' || text[19] == 'b'
}

/// A fresh identifier, by `uuid::Uuid::new_v4` and its `to_string`: a random UUID
/// in its hyphenated form. That no two are the same rests on chance and is not
/// claimed. It fails only where the system has no random bytes to give.
#[verifier::external_body]
fn random_uuid() -> (r: String)
    ensures
        is_random_uuid(r@),
{
    uuid::Uuid::new_v4().to_string()
}

/// What a report says.
#[derive(Debug, Clone, Copy, PartialEq, Eq, Structural)]
pub enum ReportBody {
    /// The playback state. Positions are in milliseconds.
    Playback {
        playing_state: i32,
        buffer: BufferHealth,
        position_ms: i64,
        duration_ms: i64,
        current_queue_item_id: Option<u64>,
        next_queue_item_id: Option<u64>,
    },
    /// This renderer is the active one. It says nothing of the buffer, of which
    /// the playback reports alone speak.
    Active,
    /// The volume, in percent.
    Volume { percent: i32 },
}

/// A report to the cloud, under the version of the queue it speaks of.
#[derive(Debug)]
pub struct RendererReport {
    pub id: String,
    pub queue_version: QueueVersion,
    pub body: ReportBody,
}

impl RendererReport {
    /// A report of `body` under `queue_version`, with an identifier of its own.
    pub open spec fn says(self, queue_version: QueueVersion, body: ReportBody) -> bool {
        is_random_uuid(self.id@) && self.queue_version == queue_version && self.body == body
    }

    pub fn new(queue_version: QueueVersion, body: ReportBody) -> (r: Self)
        ensures
            r.says(queue_version, body),
    {
        RendererReport { id: random_uuid(), queue_version, body }
    }
}

/// Where a playing track stands in the cloud queue.
#[derive(Debug, Clone, Copy, PartialEq, Eq, Structural)]
pub struct QueuePlace {
    pub current_queue_item_id: Option<u64>,
    pub next_queue_item_id: Option<u64>,
    pub next_track_id: Option<u64>,
}

/// The sync state after a track was found at `place`; unchanged where the queue
/// does not hold it.
pub open spec fn remembers_place(
    before: QconnectRemoteSyncState,
    after: QconnectRemoteSyncState,
    track_id: u64,
    place: QueuePlace,
) -> bool {
    if place.current_queue_item_id is Some {
        after == (QconnectRemoteSyncState {
            last_renderer_queue_item_id: place.current_queue_item_id,
            last_renderer_next_queue_item_id: place.next_queue_item_id,
            last_renderer_track_id: Some(track_id),
            last_renderer_next_track_id: place.next_track_id,
            ..before
        })
    } else {
        after == before
    }
}

/// The queue items to report for a place: none at all for a track that the
/// queue does not hold.
pub open spec fn reported_items(place: QueuePlace) -> (Option<u64>, Option<u64>) {
    if place.current_queue_item_id is Some {
        (place.current_queue_item_id, place.next_queue_item_id)
    } else {
        (None, None)
    }
}

/// Take in where the playing track stands in the cloud queue, and give the
/// current and the next queue item to report.
pub fn resolve_queue_item_ids_by_track_id(
    sync: &mut QconnectRemoteSyncState,
    track_id: u64,
    place: QueuePlace,
) -> (r: (Option<u64>, Option<u64>))
    ensures
        r == reported_items(place),
        remembers_place(*old(sync), *final(sync), track_id, place),
{
    if place.current_queue_item_id.is_some() {
        sync.last_renderer_queue_item_id = place.current_queue_item_id;
        sync.last_renderer_next_queue_item_id = place.next_queue_item_id;
        sync.last_renderer_track_id = Some(track_id);
        sync.last_renderer_next_track_id = place.next_track_id;
        (place.current_queue_item_id, place.next_queue_item_id)
    } else {
        (None, None)
    }
}

/// The live output, as the player and the hardware describe it.
#[derive(Debug, Clone, Copy, PartialEq, Eq, Structural)]
pub struct LiveOutput {
    pub sample_rate: u32,
    pub bit_depth: u32,
    pub negotiated: Option<NegotiatedRate>,
}

/// What goes out for one playback report, in this order.
#[derive(Debug)]
pub struct ReportPlan {
    pub report: RendererReport,
    /// The position to publish as the renderer's own.
    pub position_ms: Option<u64>,
    /// The duration to publish as the renderer's own.
    pub duration_ms: Option<u64>,
    pub file: Option<QconnectFileAudioQualitySnapshot>,
    pub device: Option<DeviceAudioQuality>,
}

/// The position that a report publishes. None while buffering: it would read as
/// a place to seek to in a track that is not playing yet.
pub open spec fn published_position(report: PlaybackReport) -> Option<u64> {
    if report.position_ms >= 0 && report.buffer != BufferHealth::Buffering {
        Some(report.position_ms as u64)
    } else {
        None
    }
}

/// The duration that a report publishes, buffering or not.
pub open spec fn published_duration(report: PlaybackReport) -> Option<u64> {
    if report.duration_ms > 0 {
        Some(report.duration_ms as u64)
    } else {
        None
    }
}

/// What the report of a playback state says, for a track that stands at `place`.
pub open spec fn report_body(report: PlaybackReport, place: QueuePlace) -> ReportBody {
    ReportBody::Playback {
        playing_state: report.playing_state,
        buffer: report.buffer,
        position_ms: report.position_ms,
        duration_ms: report.duration_ms,
        current_queue_item_id: reported_items(place).0,
        next_queue_item_id: reported_items(place).1,
    }
}

/// Plan the report of a playback state. Nothing is reported, and nothing
/// remembered, unless this device is the active renderer.
pub fn report_playback_state(
    sync: &mut QconnectRemoteSyncState,
    local_renderer_active: bool,
    report: PlaybackReport,
    place: QueuePlace,
    queue_version: QueueVersion,
    output: LiveOutput,
) -> (r: Option<ReportPlan>)
    ensures
        if local_renderer_active {
            let file = file_quality(
                output.sample_rate,
                output.bit_depth,
                QCONNECT_RENDERER_CHANNELS,
            );
            &&& remembers_place(*old(sync), *final(sync), report.track_id, place)
            &&& r matches Some(plan) && plan.report.says(
                queue_version,
                report_body(report, place),
            ) && plan == (ReportPlan {
                report: plan.report,
                position_ms: published_position(report),
                duration_ms: published_duration(report),
                file,
                device: match file {
                    Some(snapshot) => Some(device_quality(snapshot, output.negotiated)),
                    None => None,
                },
            })
        } else {
            r is None && *final(sync) == *old(sync)
        },
{
    if !local_renderer_active {
        return None;
    }
    let (current, next) = resolve_queue_item_ids_by_track_id(sync, report.track_id, place);
    let buffering = matches!(report.buffer, BufferHealth::Buffering);
    let position_ms: Option<u64> = if report.position_ms >= 0 && !buffering {
        Some(report.position_ms as u64)
    } else {
        None
    };
    let duration_ms: Option<u64> = if report.duration_ms > 0 {
        Some(report.duration_ms as u64)
    } else {
        None
    };
    let file = build_file_audio_quality_snapshot(
        output.sample_rate,
        output.bit_depth,
        QCONNECT_RENDERER_CHANNELS,
    );
    let device = match file {
        Some(snapshot) => Some(build_device_audio_quality(snapshot, output.negotiated)),
        None => None,
    };
    let body = ReportBody::Playback {
        playing_state: report.playing_state,
        buffer: report.buffer,
        position_ms: report.position_ms,
        duration_ms: report.duration_ms,
        current_queue_item_id: current,
        next_queue_item_id: next,
    };
    Some(
        ReportPlan {
            report: RendererReport::new(queue_version, body),
            position_ms,
            duration_ms,
            file,
            device,
        },
    )
}

/// The period of reports while nothing loads.
pub const IDLE_FLOOR_MS: u64 = 2_000;

/// The period of reports while a stream fills, or just after a change.
pub const LOADING_FLOOR_MS: u64 = 300;

/// How long the clock must sit at the end of a track to count as a load.
pub const AWAITING_NEXT_GRACE_MS: u64 = 1_000;

/// What the player says of itself, in seconds.
#[derive(Debug, Clone, Copy, PartialEq, Eq, Structural)]
pub struct PlayerReading {
    /// 0 when nothing is loaded.
    pub track_id: u64,
    pub is_playing: bool,
    pub position_secs: u64,
    pub duration_secs: u64,
    /// The same clock as `position_secs`, in milliseconds.
    pub clock_ms: u64,
}

/// The longest time in seconds that can be told in milliseconds.
pub const MAX_REPORT_SECS: u64 = 9_223_372_036_854_775;

/// What tells a change of state from a new position.
#[derive(Debug, Clone, Copy, PartialEq, Eq, Structural)]
pub struct ReportSignature {
    pub playing_state: i32,
    pub buffer: BufferHealth,
    pub track_id: u64,
}

impl PlaybackReport {
    pub open spec fn signature(self) -> ReportSignature {
        ReportSignature {
            playing_state: self.playing_state,
            buffer: self.buffer,
            track_id: self.track_id,
        }
    }
}

/// What one wake of the schedule comes to.
#[derive(Debug, Clone, Copy, PartialEq, Eq, Structural)]
pub struct TickOutcome {
    /// The queue cursor is to be moved to this track.
    pub sync_cursor_to: Option<u64>,
    pub report: Option<PlaybackReport>,
}

/// The schedule of playback reports: a period that restarts with every wake, and
/// wakes for every change in between.
#[derive(Debug)]
pub struct ReportScheduler {
    /// The current period.
    pub floor_ms: u64,
    /// The last wake found a load in progress.
    pub was_buffering: bool,
    /// When the clock reached the end of the current track.
    pub at_end_since: Option<u64>,
    /// The last state that was reported.
    pub last_signature: Option<ReportSignature>,
}

impl Default for ReportScheduler {
    fn default() -> (r: Self)
        ensures
            r.floor_ms == IDLE_FLOOR_MS,
            !r.was_buffering,
            r.at_end_since is None,
            r.last_signature is None,
    {
        ReportScheduler {
            floor_ms: IDLE_FLOOR_MS,
            was_buffering: false,
            at_end_since: None,
            last_signature: None,
        }
    }
}

/// Whether a wake reports. A load that ended is always reported, or the
/// controller would go on waiting for it; the period alone reports only what
/// plays or loads.
pub open spec fn is_report_due(
    reading: PlayerReading,
    via_interval: bool,
    was_buffering: bool,
    buffering: bool,
) -> bool {
    let ended = was_buffering && !buffering;
    &&& reading.track_id != 0 || buffering || ended
    &&& !via_interval || reading.is_playing || buffering || ended
}

/// The state to report: of the load in flight where there is one, for the player
/// still stands on the outgoing track.
pub open spec fn state_to_report(
    reading: PlayerReading,
    in_flight: Option<(u64, u64, u64)>,
    buffering: bool,
) -> PlaybackReport {
    let (track_id, position_secs, duration_secs) = match in_flight {
        Some(load) => load,
        None => (reading.track_id, reading.position_secs, reading.duration_secs),
    };
    PlaybackReport {
        playing_state: if reading.is_playing || buffering {
            PLAYING_STATE_PLAYING
        } else if reading.track_id == 0 {
            PLAYING_STATE_STOPPED
        } else {
            PLAYING_STATE_PAUSED
        },
        buffer: if buffering {
            BufferHealth::Buffering
        } else {
            BufferHealth::Good
        },
        position_ms: (position_secs * 1000) as i64,
        duration_ms: (duration_secs * 1000) as i64,
        track_id,
    }
}

/// The load that the latch still holds, after the player's reading.
pub open spec fn load_in_flight(
    latch: BufferingLatch,
    reading: PlayerReading,
    now_ms: u64,
) -> Option<(u64, u64, u64)> {
    match latch.load {
        Some(load) => if load.audible(reading.track_id, reading.clock_ms) || load.expired(now_ms) {
            None
        } else {
            Some((load.track_id, load.start_position_secs, load.duration_secs))
        },
        None => None,
    }
}

impl ReportScheduler {
    /// A load is in progress: one that the latch holds, or the next track of a
    /// gapless hand-off that is overdue.
    pub open spec fn buffering(self, latch: BufferingLatch, reading: PlayerReading, now_ms: u64)
        -> bool {
        load_in_flight(latch, reading, now_ms) is Some || awaits_next(
            is_at_the_end(reading.is_playing, reading.position_secs, reading.duration_secs),
            self.at_end_since,
            AWAITING_NEXT_GRACE_MS,
            now_ms,
        )
    }

    /// Times that can be told in milliseconds.
    pub open spec fn can_tell(latch: BufferingLatch, reading: PlayerReading) -> bool {
        &&& reading.position_secs <= MAX_REPORT_SECS
        &&& reading.duration_secs <= MAX_REPORT_SECS
        &&& latch.load matches Some(load) ==> load.start_position_secs <= MAX_REPORT_SECS
            && load.duration_secs <= MAX_REPORT_SECS
    }

    /// Take a wake, by the period or by a change. The period restarts, at
    /// `floor_ms`, in any case.
    pub fn tick(
        &mut self,
        latch: &mut BufferingLatch,
        reading: PlayerReading,
        via_interval: bool,
        now_ms: u64,
    ) -> (r: TickOutcome)
        requires
            Self::can_tell(*old(latch), reading),
        ensures
            ({
                let buffering = old(self).buffering(*old(latch), reading, now_ms);
                let due = is_report_due(reading, via_interval, old(self).was_buffering, buffering);
                &&& *final(self) == (ReportScheduler {
                    floor_ms: if buffering {
                        LOADING_FLOOR_MS
                    } else {
                        IDLE_FLOOR_MS
                    },
                    was_buffering: buffering,
                    at_end_since: arrival(
                        is_at_the_end(
                            reading.is_playing,
                            reading.position_secs,
                            reading.duration_secs,
                        ),
                        old(self).at_end_since,
                        now_ms,
                    ),
                    last_signature: old(self).last_signature,
                })
                &&& final(latch).load == (if load_in_flight(*old(latch), reading, now_ms) is Some {
                    old(latch).load
                } else {
                    None
                })
                &&& r.sync_cursor_to == (if due && reading.is_playing && reading.track_id != 0
                    && !buffering {
                    Some(reading.track_id)
                } else {
                    None
                })
                &&& r.report == (if due {
                    Some(
                        state_to_report(
                            reading,
                            load_in_flight(*old(latch), reading, now_ms),
                            buffering,
                        ),
                    )
                } else {
                    None
                })
            }),
    {
        let in_flight = latch.in_flight(reading.track_id, reading.clock_ms, now_ms);
        let at_end = clock_is_at_the_end(
            reading.is_playing,
            reading.position_secs,
            reading.duration_secs,
        );
        let mut at_end_since = self.at_end_since;
        let awaiting_next = awaiting_next_track(
            at_end,
            &mut at_end_since,
            AWAITING_NEXT_GRACE_MS,
            now_ms,
        );
        self.at_end_since = at_end_since;
        let buffering = in_flight.is_some() || awaiting_next;
        self.floor_ms = if buffering {
            LOADING_FLOOR_MS
        } else {
            IDLE_FLOOR_MS
        };
        let ended = self.was_buffering && !buffering;
        self.was_buffering = buffering;
        if reading.track_id == 0 && !buffering && !ended {
            return TickOutcome { sync_cursor_to: None, report: None };
        }
        if via_interval && !reading.is_playing && !buffering && !ended {
            return TickOutcome { sync_cursor_to: None, report: None };
        }
        let sync_cursor_to: Option<u64> = if reading.is_playing && reading.track_id != 0
            && !buffering {
            Some(reading.track_id)
        } else {
            None
        };
        let playing_state: i32 = if reading.is_playing || buffering {
            PLAYING_STATE_PLAYING
        } else if reading.track_id == 0 {
            PLAYING_STATE_STOPPED
        } else {
            PLAYING_STATE_PAUSED
        };
        let (track_id, position_secs, duration_secs): (u64, u64, u64) = match in_flight {
            Some(load) => load,
            None => (reading.track_id, reading.position_secs, reading.duration_secs),
        };
        let report = PlaybackReport {
            playing_state,
            buffer: if buffering {
                BufferHealth::Buffering
            } else {
                BufferHealth::Good
            },
            position_ms: (position_secs as i64) * 1000,
            duration_ms: (duration_secs as i64) * 1000,
            track_id,
        };
        TickOutcome { sync_cursor_to, report: Some(report) }
    }

    /// A report went out. After a change of state the next one follows soon, for
    /// the echo of the controller's command wipes what this one said: the result
    /// tells to restart the period, at `floor_ms`.
    pub fn reported(&mut self, report: PlaybackReport) -> (r: bool)
        ensures
            r == (old(self).last_signature != Some(report.signature())),
            *final(self) == (if r {
                ReportScheduler {
                    last_signature: Some(report.signature()),
                    floor_ms: LOADING_FLOOR_MS,
                    ..*old(self)
                }
            } else {
                *old(self)
            }),
    {
        let same = match self.last_signature {
            Some(last) => last.playing_state == report.playing_state && last.buffer
                == report.buffer && last.track_id == report.track_id,
            None => false,
        };
        if same {
            return false;
        }
        self.last_signature = Some(
            ReportSignature {
                playing_state: report.playing_state,
                buffer: report.buffer,
                track_id: report.track_id,
            },
        );
        self.floor_ms = LOADING_FLOOR_MS;
        true
    }
}

/// A load that ends is retracted: whatever the wake came by and whatever the
/// player does, the next report says that nothing is filling.
pub proof fn law_the_end_of_a_load_is_reported(
    scheduler: ReportScheduler,
    latch: BufferingLatch,
    reading: PlayerReading,
    via_interval: bool,
    now_ms: u64,
)
    requires
        scheduler.was_buffering,
        !scheduler.buffering(latch, reading, now_ms),
    ensures
        is_report_due(reading, via_interval, scheduler.was_buffering, false),
        state_to_report(reading, load_in_flight(latch, reading, now_ms), false).buffer
            == BufferHealth::Good,
{
}

/// A track that is paused, with nothing loading, is not reported by the period.
pub proof fn law_a_paused_track_is_silent(
    scheduler: ReportScheduler,
    latch: BufferingLatch,
    reading: PlayerReading,
    now_ms: u64,
)
    requires
        !reading.is_playing,
        !scheduler.was_buffering,
        latch.load is None,
    ensures
        !is_report_due(
            reading,
            true,
            scheduler.was_buffering,
            scheduler.buffering(latch, reading, now_ms),
        ),
{
}

/// While a load is in flight the report is of the track being loaded, never of
/// the one still heard, and it publishes no position.
pub proof fn law_a_load_is_reported_as_the_track_it_loads(
    scheduler: ReportScheduler,
    latch: BufferingLatch,
    reading: PlayerReading,
    now_ms: u64,
)
    requires
        load_in_flight(latch, reading, now_ms) is Some,
    ensures
        ({
            let report = state_to_report(
                reading,
                load_in_flight(latch, reading, now_ms),
                scheduler.buffering(latch, reading, now_ms),
            );
            &&& report.track_id == latch.load->0.track_id
            &&& report.playing_state == PLAYING_STATE_PLAYING
            &&& report.buffer == BufferHealth::Buffering
            &&& published_position(report) is None
        }),
{
}

} // verus!
