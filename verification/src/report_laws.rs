//! What holds of loads in flight and of the reports about them, call by call.

use vstd::prelude::*;

use crate::engine::{
    clamp_percent, Buffering, BufferingLatch, LoadAction, LoadEvent, LoadStage, LoadStep,
    TrackLoad, VolumeMode,
};
use crate::queue::QueueVersion;
use crate::remote_stream::is_header_flood_error;
use crate::renderer_model::QconnectRemoteSyncState;
use crate::report::{
    awaiting_next_track, build_device_audio_quality, build_file_audio_quality_snapshot,
    classify_audio_quality, clock_is_at_the_end, report_playback_state,
    resolve_queue_item_ids_by_track_id, BufferHealth, DeviceAudioQuality, LiveOutput,
    NegotiatedRate, PlaybackReport, PlayerReading, QconnectFileAudioQualitySnapshot, QueuePlace,
    ReportBody, ReportPlan, ReportScheduler, TickOutcome,
};

verus! {

/// A time that can be told in milliseconds.
pub open spec fn can_be_told(secs: u64) -> bool {
    secs * 1000 <= i64::MAX
}

/// What a report says is what the player does. While it plays, or a stream fills, the
/// state is playing; paused is said only of a loaded track that neither plays nor
/// loads, stopped only where nothing is loaded. The track, its position and its
/// length are those of the load in flight where there is one, and else the player's
/// own, in milliseconds.
pub proof fn law_a_report_says_what_the_player_does(
    scheduler: &mut ReportScheduler,
    latch: &mut BufferingLatch,
    reading: PlayerReading,
    via_interval: bool,
    now_ms: u64,
    r: TickOutcome,
)
    requires
        call_ensures(
            ReportScheduler::tick,
            (scheduler, latch, reading, via_interval, now_ms),
            r,
        ),
        can_be_told(reading.position_secs),
        can_be_told(reading.duration_secs),
        old(latch).load matches Some(load) ==> can_be_told(load.start_position_secs)
            && can_be_told(load.duration_secs),
        r.report is Some,
    ensures
        ({
            let report = r.report->0;
            let filling = report.buffer == BufferHealth::Buffering;
            &&& reading.is_playing || filling ==> report.playing_state == 2
            &&& report.playing_state == 2 ==> reading.is_playing || filling
            &&& report.playing_state == 3 ==> reading.track_id != 0
            &&& report.playing_state == 1 ==> reading.track_id == 0
            &&& report.playing_state == 1 || report.playing_state == 2 || report.playing_state == 3
            &&& filling == final(scheduler).was_buffering
            &&& match final(latch).load {
                Some(load) => {
                    &&& filling
                    &&& report.track_id == load.track_id
                    &&& report.position_ms == load.start_position_secs * 1000
                    &&& report.duration_ms == load.duration_secs * 1000
                },
                None => {
                    &&& report.track_id == reading.track_id
                    &&& report.position_ms == reading.position_secs * 1000
                    &&& report.duration_ms == reading.duration_secs * 1000
                },
            }
        }),
{
}

/// When a wake reports: a load that ended or that goes on is always told, and so is
/// every change of a loaded track; the period alone tells what plays, and is silent
/// about a paused track. The queue follows the track that is heard, but never while
/// something loads.
pub proof fn law_a_wake_reports_what_matters(
    scheduler: &mut ReportScheduler,
    latch: &mut BufferingLatch,
    reading: PlayerReading,
    via_interval: bool,
    now_ms: u64,
    r: TickOutcome,
)
    requires
        call_ensures(
            ReportScheduler::tick,
            (scheduler, latch, reading, via_interval, now_ms),
            r,
        ),
    ensures
        old(scheduler).was_buffering ==> r.report is Some,
        final(scheduler).was_buffering ==> r.report is Some,
        reading.track_id != 0 && (reading.is_playing || !via_interval) ==> r.report is Some,
        !old(scheduler).was_buffering && !final(scheduler).was_buffering && reading.track_id == 0
            ==> r.report is None,
        !old(scheduler).was_buffering && !final(scheduler).was_buffering && via_interval
            && !reading.is_playing ==> r.report is None,
        r.sync_cursor_to matches Some(id) ==> id == reading.track_id && reading.is_playing && !final(scheduler).was_buffering,
        reading.is_playing && reading.track_id != 0 && !final(scheduler).was_buffering
            ==> r.sync_cursor_to == Some(reading.track_id),
        final(scheduler).floor_ms == (if final(scheduler).was_buffering {
            300u64
        } else {
            2_000
        }),
        final(scheduler).last_signature == old(scheduler).last_signature,
{
}

/// What counts as filling: a load that the latch still holds, or a clock that has
/// stood at the end of a playing track for a second. The latch lets go once the
/// player is past where the load started, or after a minute and a half, and of
/// nothing else.
pub proof fn law_a_load_fills_until_it_is_heard(
    scheduler: &mut ReportScheduler,
    latch: &mut BufferingLatch,
    reading: PlayerReading,
    via_interval: bool,
    now_ms: u64,
    r: TickOutcome,
)
    requires
        call_ensures(
            ReportScheduler::tick,
            (scheduler, latch, reading, via_interval, now_ms),
            r,
        ),
    ensures
        final(latch).load is Some ==> final(latch).load == old(latch).load,
        old(latch).load matches Some(load) ==> (final(latch).load is None <==> (reading.track_id
            == load.track_id && reading.clock_ms > load.start_position_secs * 1000) || now_ms
            - load.since_ms > 90_000),
        final(scheduler).was_buffering <==> final(latch).load is Some || (final(scheduler).at_end_since matches Some(since) && now_ms >= since + 1_000),
        final(scheduler).at_end_since is Some <==> reading.is_playing && reading.duration_secs > 0
            && reading.position_secs >= reading.duration_secs,
        final(scheduler).at_end_since matches Some(since) ==> since == (match old(scheduler).at_end_since {
            Some(earlier) => earlier,
            None => now_ms,
        }),
{
}

/// A change of state or of the track is followed up soon, a mere new position is not:
/// the same report twice in a row asks for a follow-up at most once.
pub proof fn law_only_a_change_is_followed_up(
    scheduler: &mut ReportScheduler,
    again: &mut ReportScheduler,
    report: PlaybackReport,
    moved: PlaybackReport,
    r: bool,
    later: bool,
)
    requires
        call_ensures(ReportScheduler::reported, (scheduler, report), r),
        call_ensures(ReportScheduler::reported, (again, moved), later),
        *old(again) == *final(scheduler),
    ensures
        later <==> moved.playing_state != report.playing_state || moved.buffer != report.buffer
            || moved.track_id != report.track_id,
        r ==> final(scheduler).floor_ms == 300,
        !r ==> *final(scheduler) == *old(scheduler),
        old(scheduler).last_signature is None ==> r,
        final(scheduler).was_buffering == old(scheduler).was_buffering,
        final(scheduler).at_end_since == old(scheduler).at_end_since,
{
}

/// The clock waits at the end only of a playing track of known length; the wait is
/// measured from the first look, and any look elsewhere starts it over.
pub proof fn law_a_wait_for_the_next_track_is_measured(
    is_playing: bool,
    position_secs: u64,
    duration_secs: u64,
    at_end: bool,
    since: &mut Option<u64>,
    again: &mut Option<u64>,
    grace_ms: u64,
    now_ms: u64,
    later_ms: u64,
    r: bool,
    later: bool,
)
    requires
        call_ensures(clock_is_at_the_end, (is_playing, position_secs, duration_secs), at_end),
        call_ensures(awaiting_next_track, (at_end, since, grace_ms, now_ms), r),
        call_ensures(awaiting_next_track, (at_end, again, grace_ms, later_ms), later),
        *old(again) == *final(since),
        now_ms <= later_ms,
    ensures
        at_end <==> is_playing && 0 < duration_secs <= position_secs,
        !at_end ==> !r && !later && *final(since) is None && *final(again) is None,
        at_end && *old(since) is None ==> *final(since) == Some(now_ms) && (r <==> grace_ms == 0)
            && (later <==> later_ms - now_ms >= grace_ms),
        at_end && *old(since) is Some ==> *final(since) == *old(since),
        at_end && (*old(since) matches Some(at) && at <= now_ms) ==> (r <==> now_ms - (*old(since))->0 >= grace_ms),
        r ==> later,
        *final(again) == *final(since),
{
}

/// The quality levels, by what each takes: a format is high resolution from 24 bits
/// or above 48 kHz, of the second level from 192 kHz, of the third from 384 kHz; it
/// is CD from 44.1 kHz; and without a rate or a depth it is unknown.
pub proof fn law_a_quality_level_takes_its_format(sample_rate: u32, bit_depth: u32, r: i32)
    requires
        call_ensures(classify_audio_quality, (sample_rate, bit_depth), r),
    ensures
        0 <= r <= 5,
        r == 0 <==> sample_rate == 0 || bit_depth == 0,
        r >= 5 <==> sample_rate >= 384_000 && bit_depth > 0,
        r >= 4 <==> sample_rate >= 192_000 && bit_depth > 0,
        r >= 3 <==> bit_depth > 0 && (sample_rate > 48_000 || sample_rate > 0 && bit_depth > 16),
        bit_depth <= 16 ==> (r >= 2 <==> sample_rate >= 44_100 && bit_depth > 0),
{
}

/// A snapshot tells the rate, the depth, the channels and the level of the file; the
/// device is told the rate and the channels it negotiated, and always the file's
/// depth.
pub proof fn law_a_snapshot_tells_the_file_from_the_device(
    sample_rate: u32,
    bit_depth: u32,
    nb_channels: i32,
    level: i32,
    r: Option<QconnectFileAudioQualitySnapshot>,
    file: QconnectFileAudioQualitySnapshot,
    negotiated: Option<NegotiatedRate>,
    device: DeviceAudioQuality,
)
    requires
        call_ensures(classify_audio_quality, (sample_rate, bit_depth), level),
        call_ensures(
            build_file_audio_quality_snapshot,
            (sample_rate, bit_depth, nb_channels),
            r,
        ),
        call_ensures(build_device_audio_quality, (file, negotiated), device),
    ensures
        r is None <==> sample_rate == 0 || bit_depth == 0,
        r matches Some(told) ==> told.nb_channels == nb_channels && told.audio_quality == level,
        (r matches Some(told) && sample_rate <= i32::MAX) ==> r->0.sampling_rate == sample_rate,
        (r matches Some(told) && bit_depth <= i32::MAX) ==> r->0.bit_depth == bit_depth,
        device.bit_depth == file.bit_depth,
        negotiated is None ==> device.sampling_rate == file.sampling_rate && device.nb_channels
            == file.nb_channels,
        (negotiated matches Some(rate) && rate.sample_rate <= i32::MAX) ==> device.sampling_rate
            == negotiated->0.sample_rate,
        (negotiated matches Some(rate) && rate.channels <= i32::MAX) ==> device.nb_channels
            == negotiated->0.channels,
{
}

/// A renderer that is not the active one reports nothing and remembers nothing. The
/// active one says what the player did, under the queue it was found in, and
/// publishes no position while it fills.
pub proof fn law_only_the_active_renderer_reports(
    sync: &mut QconnectRemoteSyncState,
    active: bool,
    report: PlaybackReport,
    place: QueuePlace,
    version: QueueVersion,
    output: LiveOutput,
    r: Option<ReportPlan>,
    level: i32,
)
    requires
        call_ensures(classify_audio_quality, (output.sample_rate, output.bit_depth), level),
        call_ensures(
            report_playback_state,
            (sync, active, report, place, version, output),
            r,
        ),
    ensures
        r is Some <==> active,
        !active ==> *final(sync) == *old(sync),
        r matches Some(plan) ==> {
            &&& plan.report.queue_version == version
            &&& plan.report.body matches ReportBody::Playback {
                playing_state,
                buffer,
                position_ms,
                duration_ms,
                current_queue_item_id,
                next_queue_item_id,
            } && {
                &&& playing_state == report.playing_state
                &&& buffer == report.buffer
                &&& position_ms == report.position_ms
                &&& duration_ms == report.duration_ms
                &&& current_queue_item_id == place.current_queue_item_id
                &&& place.current_queue_item_id is Some ==> next_queue_item_id
                    == place.next_queue_item_id
                &&& place.current_queue_item_id is None ==> next_queue_item_id is None
            }
            &&& plan.position_ms is Some <==> report.buffer == BufferHealth::Good
                && report.position_ms >= 0
            &&& plan.position_ms matches Some(ms) ==> ms == report.position_ms
            &&& plan.duration_ms is Some <==> report.duration_ms > 0
            &&& plan.duration_ms matches Some(ms) ==> ms == report.duration_ms
            &&& plan.file is Some <==> output.sample_rate > 0 && output.bit_depth > 0
            &&& plan.device is Some <==> plan.file is Some
            &&& (plan.file matches Some(file) && output.sample_rate <= i32::MAX && output.bit_depth
                <= i32::MAX) ==> plan.file->0.sampling_rate == output.sample_rate
                && plan.file->0.bit_depth == output.bit_depth && plan.file->0.nb_channels == 2
            &&& (plan.device is Some && output.negotiated is Some && output.negotiated->0.sample_rate
                <= i32::MAX) ==> plan.device->0.sampling_rate == output.negotiated->0.sample_rate
            &&& plan.device is Some ==> plan.device->0.bit_depth == plan.file->0.bit_depth
            &&& plan.file is Some ==> plan.file->0.audio_quality == level
            &&& plan.device is Some && output.negotiated is None ==> plan.device->0.sampling_rate
                == plan.file->0.sampling_rate && plan.device->0.nb_channels
                == plan.file->0.nb_channels
            &&& (plan.device is Some && output.negotiated is Some && output.negotiated->0.channels
                <= i32::MAX) ==> plan.device->0.nb_channels == output.negotiated->0.channels
        },
        active && place.current_queue_item_id is Some ==> final(sync).last_renderer_queue_item_id
            == place.current_queue_item_id && final(sync).last_renderer_next_queue_item_id
            == place.next_queue_item_id && final(sync).last_renderer_track_id == Some(
            report.track_id,
        ) && final(sync).last_renderer_next_track_id == place.next_track_id,
        place.current_queue_item_id is None ==> *final(sync) == *old(sync),
        final(sync).last_load_attempt == old(sync).last_load_attempt,
        final(sync).last_remote_queue_state == old(sync).last_remote_queue_state,
{
}

/// A track that the queue holds is remembered where it stands; one that it does not
/// hold has no items and changes nothing.
pub proof fn law_a_place_is_remembered(
    sync: &mut QconnectRemoteSyncState,
    track_id: u64,
    place: QueuePlace,
    r: (Option<u64>, Option<u64>),
)
    requires
        call_ensures(resolve_queue_item_ids_by_track_id, (sync, track_id, place), r),
    ensures
        r.0 == place.current_queue_item_id,
        r.0 is Some ==> r.1 == place.next_queue_item_id && final(sync).last_renderer_track_id
            == Some(track_id) && final(sync).last_renderer_queue_item_id == r.0 && final(sync).last_renderer_next_queue_item_id == r.1 && final(sync).last_renderer_next_track_id
            == place.next_track_id,
        r.0 is None ==> r.1 is None && *final(sync) == *old(sync),
{
}

/// A percentage within 0 and 100 stays, and any other goes to the nearer of the two.
pub proof fn law_a_percentage_stays_within_its_bounds(volume: i32, r: i32)
    requires
        call_ensures(clamp_percent, (volume,), r),
    ensures
        0 <= r <= 100,
        0 <= volume <= 100 ==> r == volume,
        volume < 0 ==> r == 0,
        volume > 100 ==> r == 100,
{
}

/// A locked volume is not set from outside and is reported as full; any other is set
/// and reported as it is.
pub proof fn law_a_locked_volume_is_full(
    mode: VolumeMode,
    real_pct: i32,
    applies: bool,
    reported: i32,
)
    requires
        call_ensures(VolumeMode::applies_remote_volume, (mode,), applies),
        call_ensures(VolumeMode::reported_volume_pct, (mode, real_pct), reported),
    ensures
        applies <==> mode != VolumeMode::Locked,
        !applies ==> reported == 100,
        applies && 0 <= real_pct <= 100 ==> reported == real_pct,
        applies && real_pct < 0 ==> reported == 0,
        applies && real_pct > 100 ==> reported == 100,
        0 <= reported <= 100,
{
}

/// A load that begins is in flight, with the track, the start and the length it began
/// with, until the player is past its start on that very track, or ninety seconds are
/// over, or it is finished; and then it stays gone.
pub proof fn law_a_load_is_in_flight_until_it_is_heard(
    latch: &mut BufferingLatch,
    asked: &mut BufferingLatch,
    again: &mut BufferingLatch,
    track_id: u64,
    start_secs: u64,
    duration_secs: u64,
    began_ms: u64,
    player_track: u64,
    position_ms: u64,
    now_ms: u64,
    r: Option<(u64, u64, u64)>,
    other_track: u64,
    other_position: u64,
    later_ms: u64,
    later: Option<(u64, u64, u64)>,
)
    requires
        call_ensures(
            BufferingLatch::begin,
            (latch, track_id, start_secs, duration_secs, began_ms),
            (),
        ),
        call_ensures(BufferingLatch::in_flight, (asked, player_track, position_ms, now_ms), r),
        *old(asked) == *final(latch),
        call_ensures(BufferingLatch::in_flight, (again, other_track, other_position, later_ms), later),
        *old(again) == *final(asked),
    ensures
        r is None <==> player_track == track_id && position_ms > 1000 * start_secs || now_ms
            > began_ms + 90_000,
        r matches Some(load) ==> load.0 == track_id && load.1 == start_secs && load.2
            == duration_secs,
        r is None ==> later is None,
{
}

/// To finish a load takes that load away and leaves any other.
pub proof fn law_a_finish_is_for_its_own_track(latch: &mut BufferingLatch, track_id: u64)
    requires
        call_ensures(BufferingLatch::finish, (latch, track_id), ()),
    ensures
        final(latch).load matches Some(load) ==> load.track_id != track_id && old(latch).load
            == Some(load),
        (old(latch).load matches Some(load) && load.track_id != track_id) ==> final(latch).load
            == old(latch).load,
{
}

/// A load goes on step by step: the stream first, the whole file where that failed,
/// the segmented stream where a flood of headers defeats plain requests, and no
/// further. The controller is told when it begins and when it ends for good, and a
/// load that failed after it began leaves no trace in the latch.
pub proof fn law_a_load_falls_back_in_order(
    load: &mut TrackLoad,
    latch: &mut BufferingLatch,
    now_ms: u64,
    event: LoadEvent,
    r: LoadStep,
)
    requires
        call_ensures(TrackLoad::step, (load, latch, now_ms, event), r),
    ensures
        r.action is OpenStream <==> event is UrlResolved,
        r.action is PlayData <==> event is Downloaded,
        r.action is Download ==> event is StreamFailed,
        r.action is PlaySegmented ==> event is StreamFailed || event is DownloadFailed,
        event is StreamFailed ==> r.action is Download || r.action is PlaySegmented,
        event is StreamStarted || event is Played || event is FallbackStarted ==> (
        r.action matches LoadAction::Finish(Ok(_))),
        event is UrlFailed || event is PlayFailed || event is FallbackFailed ==> (
        r.action matches LoadAction::Finish(Err(_))),
        event is DownloadFailed ==> r.action is PlaySegmented || (r.action matches LoadAction::Finish(
            Err(_),
        )),
        event is UrlResolved ==> r.report && final(latch).load == Some(
            Buffering {
                track_id: old(load).track_id,
                start_position_secs: old(load).start_position_secs,
                duration_secs: old(load).duration_secs,
                since_ms: now_ms,
            },
        ),
        event is PlayFailed || event is FallbackFailed || event is Played ==> r.report && (final(latch).load matches Some(held) ==> held.track_id != old(load).track_id),
        (r.action matches LoadAction::Finish(Err(_))) && !(event is UrlFailed) ==> (final(latch).load matches Some(held) ==> held.track_id != old(load).track_id),
        event is StreamStarted || event is FallbackStarted || event is StreamFailed || event
            is UrlFailed || event is Downloaded ==> final(latch).load == old(latch).load
            && !r.report,
        final(load).track_id == old(load).track_id,
        final(load).start_position_secs == old(load).start_position_secs,
        final(load).duration_secs == old(load).duration_secs,
{
}

/// A failed stream or download goes to the segmented stream where its words tell of a
/// flood of headers, and only there; a stream that failed otherwise is downloaded, and a
/// download that failed otherwise ends the load with its own words.
pub proof fn law_a_flood_of_headers_goes_to_the_segments(
    load: &mut TrackLoad,
    latch: &mut BufferingLatch,
    now_ms: u64,
    event: LoadEvent,
    r: LoadStep,
    words: &str,
    why: String,
    flood: bool,
)
    requires
        call_ensures(TrackLoad::step, (load, latch, now_ms, event), r),
        words@ == why@,
        call_ensures(is_header_flood_error, (words,), flood),
    ensures
        event == LoadEvent::StreamFailed(why) ==> (if flood {
            r.action is PlaySegmented && final(load).stage == LoadStage::FallingBack
        } else {
            r.action is Download && final(load).stage == LoadStage::Downloading
        }),
        event == LoadEvent::DownloadFailed(why) && flood ==> r.action is PlaySegmented && final(load).stage == LoadStage::FallingBack && !r.report && final(latch).load == old(latch).load,
        event == LoadEvent::DownloadFailed(why) && !flood ==> (r.action matches LoadAction::Finish(
            Err(message),
        ) && message@ == why@) && r.report,
        event == LoadEvent::UrlFailed(why) ==> (r.action matches LoadAction::Finish(Err(message))
            && message@ == "resolve stream url for remote track "@ + crate::text::decimal(
            old(load).track_id as nat,
        ) + ": "@ + why@),
        event == LoadEvent::PlayFailed(why) ==> (r.action matches LoadAction::Finish(Err(message))
            && message@ == "play remote track "@ + crate::text::decimal(old(load).track_id as nat)
            + ": "@ + why@),
        event == LoadEvent::FallbackFailed(why) ==> (r.action matches LoadAction::Finish(
            Err(message),
        ) && message@ == "CMAF fallback for remote track "@ + crate::text::decimal(
            old(load).track_id as nat,
        ) + ": "@ + why@),
        event is UrlResolved ==> final(load).stage == LoadStage::Streaming,
        event is Downloaded ==> final(load).stage == LoadStage::Playing,
        r.action is Finish <==> final(load).stage == LoadStage::Finished,
        event is Played || event is PlayFailed || event is FallbackFailed || (event
            is DownloadFailed && r.action is Finish) ==> ((old(latch).load matches Some(held)
            && held.track_id != old(load).track_id) ==> final(latch).load == old(latch).load),
{
}

} // verus!
