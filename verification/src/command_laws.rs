//! What holds of renderer commands and of the loads and moves they make, call by
//! call.

use vstd::prelude::*;

use crate::queue::{QConnectQueueState, QueueItem};
use crate::renderer::{
    align_queue_cursor, ensure_remote_track_loaded, force_remote_track_stream, frame_position_ms,
    index_of, is_recent_load_attempt, loaded_within, model_track_to_core_queue_track,
    qconnect_repeat_mode_from_loop_mode, queue_state_needs_materialization,
    should_reload_remote_track, AlignRun, AlignStage, RemoteLoad, RemoteLoadStage, RemoteLoadStep,
};
use crate::renderer_command::{
    apply_remote_loop_mode, apply_renderer_command, CommandRun, CommandStage, Frame,
};
use crate::renderer_model::{
    EngineCall, EngineReply, LoadAttempt, PlaybackState, QConnectRendererState,
    QconnectRemoteSyncState, QueueTrack, RendererCommand, RepeatMode, RunStep, Track,
};

verus! {

/// More than two seconds lie between two positions, whichever comes first.
pub open spec fn far_apart(a: int, b: int) -> bool {
    a > b + 2 || b > a + 2
}

/// A seek to `target` is what a position of `position_ms` asks for: it is a real move,
/// on the track that the engine is on, that no stream has made yet and that is no
/// echo of the start of the track.
pub open spec fn is_a_real_seek(
    command_track: Option<u64>,
    position_ms: Option<u64>,
    started_at: Option<u64>,
    playback: PlaybackState,
    target: int,
) -> bool {
    &&& position_ms matches Some(ms) && 1000 * target <= ms < 1000 * (target + 1)
    &&& far_apart(playback.position as int, target)
    &&& started_at matches Some(at) ==> far_apart(at as int, target)
    &&& command_track matches Some(track) ==> track == playback.track_id
    &&& command_track is Some && target <= 1 ==> playback.position <= 2
}

/// A frame seeks exactly where it asks for a real move, forward or backward, and to
/// exactly the second it names; everything else leaves the engine where it is.
pub proof fn law_a_frame_seeks_where_it_means_to(
    frame: Frame,
    started_at: Option<u64>,
    playback: PlaybackState,
    r: Option<u64>,
)
    requires
        call_ensures(Frame::seek_target, (&frame, started_at, &playback), r),
    ensures
        r matches Some(target) ==> is_a_real_seek(
            frame.command_track,
            frame.position_ms,
            started_at,
            playback,
            target as int,
        ),
        forall|target: int|
            #[trigger] is_a_real_seek(
                frame.command_track,
                frame.position_ms,
                started_at,
                playback,
                target,
            ) ==> r is Some && r->0 == target,
{
}

/// The same of the command on its way: asked where the engine is, it seeks where a
/// real move is asked for, and otherwise it is done.
pub proof fn law_a_command_seeks_where_it_means_to(
    run: &mut CommandRun,
    sync: &mut QconnectRemoteSyncState,
    now_ms: u64,
    playback: PlaybackState,
    r: RunStep,
)
    requires
        old(run).stage == CommandStage::CheckingSeek,
        call_ensures(CommandRun::step, (run, sync, now_ms, EngineReply::Playback(playback)), r),
    ensures
        *final(sync) == *old(sync),
        (r matches RunStep::Finished(Ok(_))) || (r matches RunStep::Call(EngineCall::Seek(_))),
        r matches RunStep::Call(EngineCall::Seek(target)) ==> final(run).stage
            == CommandStage::Seeking && is_a_real_seek(
            old(run).frame.command_track,
            old(run).frame.position_ms,
            old(run).stream_started_at,
            playback,
            target as int,
        ),
        forall|target: int|
            #[trigger] is_a_real_seek(
                old(run).frame.command_track,
                old(run).frame.position_ms,
                old(run).stream_started_at,
                playback,
                target,
            ) ==> r is Call,
{
}

/// A load for a frame starts at the whole second of the position it specifies, and
/// at 0 where it specifies none.
pub proof fn law_a_frame_starts_at_its_position(frame: Frame, r: u64)
    requires
        call_ensures(Frame::start_position_secs, (&frame,), r),
    ensures
        frame.position_ms matches Some(ms) ==> 1000 * r <= ms < 1000 * (r + 1),
        frame.position_ms is None ==> r == 0,
{
}

/// A load was registered at most `window_ms` ago, to the millisecond.
pub open spec fn registered_within(
    attempt: Option<LoadAttempt>,
    now_ms: u64,
    window_ms: int,
) -> bool {
    attempt is Some && now_ms < attempt->0.at_ms + window_ms && window_ms > 0
}

/// A stop or a pause is an echo of the handoff within a second and a half of a load
/// of our own, unless the command names a position past the first second.
pub proof fn law_a_handoff_echo_is_brief(
    frame: Frame,
    sync: QconnectRemoteSyncState,
    now_ms: u64,
    r: bool,
)
    requires
        call_ensures(Frame::is_handoff_echo, (&frame, &sync, now_ms), r),
    ensures
        r <==> registered_within(sync.last_load_attempt, now_ms, 1_500) && (
        frame.command_position_ms is None || frame.command_position_ms->0 <= 1_000),
{
}

/// A load is recent for its own track, for five seconds.
pub proof fn law_a_load_is_recent_for_five_seconds(
    sync: QconnectRemoteSyncState,
    track_id: u64,
    now_ms: u64,
    r: bool,
    attempt: Option<LoadAttempt>,
    window_ms: u64,
    within: bool,
)
    requires
        call_ensures(is_recent_load_attempt, (&sync, track_id, now_ms), r),
        call_ensures(loaded_within, (&attempt, now_ms, window_ms), within),
    ensures
        r <==> registered_within(sync.last_load_attempt, now_ms, 5_000)
            && sync.last_load_attempt->0.track_id == track_id,
        within <==> registered_within(attempt, now_ms, window_ms as int),
{
}

/// What the cloud retains counts for a frame's state and tracks before what the
/// command says; of the positions it counts last, and only for a frame that names
/// neither a position nor a track.
pub proof fn law_a_frame_joins_the_command_and_the_cloud(
    playing_state: Option<i32>,
    position_ms: Option<u64>,
    current: Option<QueueItem>,
    next: Option<QueueItem>,
    retained: QConnectRendererState,
    r: Frame,
    position: Option<u64>,
)
    requires
        call_ensures(
            Frame::resolve,
            (playing_state, position_ms, &current, &next, &retained),
            r,
        ),
        call_ensures(
            frame_position_ms,
            (position_ms, (match current {
                Some(item) => Some(&item),
                None => None,
            }), &retained),
            position,
        ),
    ensures
        retained.playing_state is Some ==> r.playing_state == retained.playing_state,
        retained.playing_state is None ==> r.playing_state == playing_state,
        r.position_ms == position,
        position_ms is Some ==> r.position_ms == position_ms,
        position_ms is None && current is Some ==> r.position_ms is None,
        position_ms is None && current is None ==> r.position_ms == retained.current_position_ms,
        r.command_position_ms == position_ms,
        current matches Some(item) ==> r.command_track == Some(item.track_id),
        current is None ==> r.command_track is None,
        retained.current_track matches Some(item) ==> r.session_track == Some(item.track_id)
            && r.session_queue_item == Some(item.queue_item_id),
        retained.current_track is None ==> r.session_track == r.command_track,
        (retained.current_track is None && current is Some) ==> r.session_queue_item == Some(
            current->0.queue_item_id,
        ),
        retained.next_track matches Some(item) ==> r.next_track == Some(item.track_id)
            && r.next_queue_item == Some(item.queue_item_id),
        (retained.next_track is None && next is Some) ==> r.next_track == Some(next->0.track_id)
            && r.next_queue_item == Some(next->0.queue_item_id),
        (retained.next_track is None && next is None) ==> r.next_track is None
            && r.next_queue_item is None,
        r.max_audio_quality == retained.max_audio_quality,
{
}

/// The step that a transport change begins with: a resume first asks for audio, a
/// pause and a stop are made at once unless they echo the handoff, and any other
/// state goes straight to the position, where there is one.
pub open spec fn begins_transport(
    state: Option<i32>,
    echo: bool,
    has_position: bool,
    stage: CommandStage,
    step: RunStep,
) -> bool {
    &&& state == Some(2i32) ==> step == RunStep::Call(EngineCall::HasLoadedAudio) && stage
        == CommandStage::CheckingAudio
    &&& state == Some(3i32) && !echo ==> step == RunStep::Call(EngineCall::Pause) && stage
        == CommandStage::Transport
    &&& state == Some(1i32) && !echo ==> step == RunStep::Call(EngineCall::Stop) && stage
        == CommandStage::Transport
    &&& state != Some(2i32) && (echo || state != Some(3i32) && state != Some(1i32))
        ==> begins_seek(has_position, stage, step)
}

/// The step that a seek begins with: where the engine is, or the end where the frame
/// has no position.
pub open spec fn begins_seek(has_position: bool, stage: CommandStage, step: RunStep) -> bool {
    &&& has_position ==> step == RunStep::Call(EngineCall::GetPlaybackState) && stage
        == CommandStage::CheckingSeek
    &&& !has_position ==> (step matches RunStep::Finished(Ok(_))) && stage
        == CommandStage::Finished
}

/// A state frame: a shuffled queue that holds the session's track is looked up first;
/// otherwise a frame that names a track moves the queue to it, and one that names
/// none leaves the queue alone and goes to the transport at once.
pub proof fn law_a_state_frame_begins_with_the_queue(
    sync: &mut QconnectRemoteSyncState,
    now_ms: u64,
    playing_state: Option<i32>,
    position_ms: Option<u64>,
    current: Option<QueueItem>,
    next: Option<QueueItem>,
    retained: QConnectRendererState,
    command: RendererCommand,
    r: (CommandRun, RunStep),
    frame: Frame,
    echo: bool,
)
    requires
        command == (RendererCommand::SetState {
            playing_state,
            current_position_ms: position_ms,
            current_track: current,
            next_track: next,
        }),
        call_ensures(apply_renderer_command, (sync, now_ms, &command, &retained), r),
        call_ensures(
            Frame::resolve,
            (playing_state, position_ms, &current, &next, &retained),
            frame,
        ),
        call_ensures(Frame::is_handoff_echo, (&frame, &*old(sync), now_ms), echo),
    ensures
        *final(sync) == *old(sync),
        r.0.frame == frame,
        r.0.stream_started_at is None,
        ({
            let shuffled = frame.session_track is Some && (old(sync).last_remote_queue_state matches Some(queue) && queue.shuffle_mode
                && queue.queue_items@.len() > 0);
            &&& shuffled ==> {
                &&& r.0.stage == CommandStage::Resolving
                &&& r.0.queue_len == old(sync).last_remote_queue_state->0.queue_items@.len()
                &&& r.1 matches RunStep::Call(
                    EngineCall::ResolveQueue {
                        queue,
                        queue_item_id,
                        track_id,
                        next_queue_item_id,
                        next_track_id,
                    },
                ) && queue@ == old(sync).last_remote_queue_state->0@ && queue_item_id
                    == frame.session_queue_item && track_id == frame.session_track
                    && next_queue_item_id == frame.next_queue_item && next_track_id
                    == frame.next_track
            }
            &&& !shuffled && current is Some ==> r.0.stage == CommandStage::Aligning && r.1
                == RunStep::Call(EngineCall::GetQueueTracks) && r.0.align.track_id
                == current->0.track_id
            &&& !shuffled && current is None ==> begins_transport(
                frame.playing_state,
                echo,
                frame.position_ms is Some,
                r.0.stage,
                r.1,
            )
        }),
{
}

/// A command that sets one thing makes one call and hands back its result: a volume
/// within its bounds, a mute as silence, a repeat mode that the protocol knows, the
/// shuffle flag alone. What the cloud retains counts first. A quality cap makes none.
pub proof fn law_a_simple_command_is_one_call(
    sync: &mut QconnectRemoteSyncState,
    now_ms: u64,
    command: RendererCommand,
    retained: QConnectRendererState,
    r: (CommandRun, RunStep),
)
    requires
        call_ensures(apply_renderer_command, (sync, now_ms, &command, &retained), r),
        !(command is SetState),
        !(command is SetActive),
    ensures
        *final(sync) == *old(sync),
        r.1 is Call ==> r.0.stage == CommandStage::Acknowledging,
        r.1 is Finished ==> r.0.stage == CommandStage::Finished,
        command matches RendererCommand::SetVolume { volume } ==> {
            let asked = if retained.volume is Some {
                retained.volume
            } else {
                volume
            };
            &&& asked is None ==> (r.1 matches RunStep::Finished(Ok(_)))
            &&& asked matches Some(v) ==> (r.1 matches RunStep::Call(EngineCall::SetVolume(p))
                && is_nearest_percent(v, p))
        },
        command matches RendererCommand::MuteVolume { value } ==> {
            &&& value ==> r.1 == RunStep::Call(EngineCall::SetVolume(0))
            &&& !value && retained.volume is None ==> (r.1 matches RunStep::Finished(Ok(_)))
            &&& (!value && retained.volume is Some) ==> (r.1 matches RunStep::Call(
                EngineCall::SetVolume(p),
            ) && is_nearest_percent(retained.volume->0, p))
        },
        command matches RendererCommand::SetLoopMode { loop_mode } ==> {
            let asked = if retained.loop_mode is Some {
                retained.loop_mode->0
            } else {
                loop_mode
            };
            &&& 0 <= asked <= 1 ==> r.1 == RunStep::Call(EngineCall::SetRepeatMode(RepeatMode::Off))
            &&& asked == 2 ==> r.1 == RunStep::Call(EngineCall::SetRepeatMode(RepeatMode::One))
            &&& asked == 3 ==> r.1 == RunStep::Call(EngineCall::SetRepeatMode(RepeatMode::All))
            &&& asked < 0 || asked > 3 ==> (r.1 matches RunStep::Finished(Err(message)) && message@
                == "unsupported qconnect loop mode: "@ + crate::text::signed_decimal(asked as int))
        },
        command matches RendererCommand::SetShuffleMode { shuffle_mode } ==> r.1 == RunStep::Call(
            EngineCall::SetShuffleFlag(
                if retained.shuffle_mode is Some {
                    retained.shuffle_mode->0
                } else {
                    shuffle_mode
                },
            ),
        ),
        command is SetMaxAudioQuality ==> (r.1 matches RunStep::Finished(Ok(_))),
{
}

/// `percent` is the percentage nearest to `volume`.
pub open spec fn is_nearest_percent(volume: i32, percent: i32) -> bool {
    &&& 0 <= percent <= 100
    &&& 0 <= volume <= 100 ==> percent == volume
    &&& volume < 0 ==> percent == 0
    &&& volume > 100 ==> percent == 100
}

/// Becoming active loads nothing and is remembered; standing down stops the engine
/// and is remembered, unless it comes within five seconds of a load, when it is the
/// replay of a join and nothing happens.
pub proof fn law_standing_down_stops_and_standing_up_waits(
    sync: &mut QconnectRemoteSyncState,
    now_ms: u64,
    active: bool,
    command: RendererCommand,
    retained: QConnectRendererState,
    r: (CommandRun, RunStep),
)
    requires
        command == (RendererCommand::SetActive { active }),
        call_ensures(apply_renderer_command, (sync, now_ms, &command, &retained), r),
    ensures
        ({
            let replay = registered_within(old(sync).last_load_attempt, now_ms, 5_000);
            &&& active ==> (r.1 matches RunStep::Finished(Ok(_))) && final(sync).local_render_active
                == Some(true)
            &&& !active && replay ==> (r.1 matches RunStep::Finished(Ok(_))) && *final(sync) == *old(sync)
            &&& !active && !replay ==> r.1 == RunStep::Call(EngineCall::Stop) && final(sync).local_render_active == Some(false)
            &&& *final(sync) == (QconnectRemoteSyncState {
                local_render_active: final(sync).local_render_active,
                ..*old(sync)
            })
        }),
{
}

/// A resume finds out whether there is audio. With audio it resumes; without, the
/// session's track is loaded where the frame says, and only without such a track is
/// the resume made blindly.
pub proof fn law_a_resume_without_audio_loads_the_session(
    run: &mut CommandRun,
    sync: &mut QconnectRemoteSyncState,
    now_ms: u64,
    loaded: bool,
    r: RunStep,
)
    requires
        old(run).stage == CommandStage::CheckingAudio,
        call_ensures(CommandRun::step, (run, sync, now_ms, EngineReply::Loaded(loaded)), r),
    ensures
        *final(sync) == *old(sync),
        loaded || old(run).frame.session_track is None ==> r == RunStep::Call(EngineCall::Resume)
            && final(run).stage == CommandStage::Transport,
        !loaded && old(run).frame.session_track is Some ==> {
            &&& r == RunStep::Call(EngineCall::GetPlaybackState)
            &&& final(run).stage == CommandStage::ColdLoading
            &&& final(run).load.track_id == old(run).frame.session_track->0
            &&& final(run).load.force
            &&& final(run).load.max_audio_quality == old(run).frame.max_audio_quality
            &&& old(run).frame.position_ms is None ==> final(run).load.start_position_secs == 0
            &&& old(run).frame.position_ms matches Some(ms) ==> 1000 * final(run).load.start_position_secs <= ms < 1000 * (final(run).load.start_position_secs + 1)
        },
{
}

/// A transport change that failed ends the command with its own failure; one that
/// was made is followed by the seek. A seek and a single call end it with what came
/// of them.
pub proof fn law_a_failed_call_ends_the_command(
    run: &mut CommandRun,
    sync: &mut QconnectRemoteSyncState,
    now_ms: u64,
    outcome: Result<(), String>,
    r: RunStep,
)
    requires
        old(run).stage == CommandStage::Transport || old(run).stage == CommandStage::Seeking || old(run).stage == CommandStage::Acknowledging,
        call_ensures(CommandRun::step, (run, sync, now_ms, EngineReply::Done(outcome)), r),
    ensures
        *final(sync) == *old(sync),
        outcome matches Err(why) ==> r == RunStep::Finished(Err(why)),
        outcome is Ok && old(run).stage != CommandStage::Transport ==> (
        r matches RunStep::Finished(Ok(_))),
        outcome is Ok && old(run).stage == CommandStage::Transport ==> begins_seek(
            old(run).frame.position_ms is Some,
            final(run).stage,
            r,
        ),
{
}

/// A play order that came back is applied where it is complete and new, to a queue of
/// the same length, from the index it came with; anything else leaves the queue as it
/// is and goes on to the track.
pub proof fn law_a_new_order_is_applied_once(
    run: &mut CommandRun,
    sync: &mut QconnectRemoteSyncState,
    now_ms: u64,
    start: Option<usize>,
    next_start: Option<usize>,
    order: Option<Vec<usize>>,
    r: RunStep,
    reordering: &mut CommandRun,
    later: &mut QconnectRemoteSyncState,
    outcome: Result<(), String>,
    done: RunStep,
)
    requires
        old(run).stage == CommandStage::Resolving,
        call_ensures(
            CommandRun::step,
            (run, sync, now_ms, EngineReply::Resolved { start, next_start, order }),
            r,
        ),
        old(reordering).stage == CommandStage::Reordering,
        call_ensures(
            CommandRun::step,
            (reordering, later, now_ms, EngineReply::Done(outcome)),
            done,
        ),
    ensures
        *final(sync) == *old(sync),
        start is None || order is None ==> final(run).stage != CommandStage::Projecting,
        start is Some && order is Some && (old(sync).last_materialized_start_index != start || old(sync).last_materialized_core_shuffle_order is None) ==> final(run).stage
            == CommandStage::Projecting,
        (start is Some && order is Some && (old(sync).last_materialized_core_shuffle_order matches Some(known) && known@ != order->0@))
            ==> final(run).stage == CommandStage::Projecting,
        (start is Some && order is Some && old(sync).last_materialized_start_index == start && (old(sync).last_materialized_core_shuffle_order matches Some(known) && known@ == order->0@))
            ==> final(run).stage != CommandStage::Projecting,
        final(run).stage == CommandStage::Projecting ==> r == RunStep::Call(
            EngineCall::GetQueueTracks,
        ) && final(run).start_index == start->0 && final(run).order@ == order->0@,
        final(later).last_materialized_start_index == Some(old(reordering).start_index),
        final(later).last_materialized_core_shuffle_order matches Some(known) && known@ == old(reordering).order@,
        final(later).last_load_attempt == old(later).last_load_attempt,
        final(later).last_applied_queue_state == old(later).last_applied_queue_state,
{
}

/// A queue is reordered in the order that came back only where it is as long as the
/// cloud's.
pub proof fn law_a_queue_is_reordered_whole(
    run: &mut CommandRun,
    sync: &mut QconnectRemoteSyncState,
    now_ms: u64,
    ids: Vec<u64>,
    current: Option<usize>,
    r: RunStep,
)
    requires
        old(run).stage == CommandStage::Projecting,
        call_ensures(
            CommandRun::step,
            (run, sync, now_ms, EngineReply::Queue { ids, current }),
            r,
        ),
    ensures
        *final(sync) == *old(sync),
        (r matches RunStep::Call(EngineCall::ReorderQueue { .. })) <==> ids@.len() > 0 && ids@.len()
            == old(run).queue_len,
        r matches RunStep::Call(EngineCall::ReorderQueue { start_index, order }) ==> start_index
            == old(run).start_index && order@ == old(run).order@ && final(run).stage
            == CommandStage::Reordering,
{
}

/// After the queue, a frame that names a track loads it while the session plays or
/// pauses, at its position, unless a load of it is under way; then, or where there is
/// nothing to load, the transport follows.
pub proof fn law_a_moved_queue_is_followed_by_the_load(
    run: &mut CommandRun,
    sync: &mut QconnectRemoteSyncState,
    now_ms: u64,
    outcome: Result<(), String>,
    r: RunStep,
    echo: bool,
    recent: bool,
)
    requires
        old(run).stage == CommandStage::Aligning,
        old(run).align.stage == AlignStage::Applying,
        old(run).frame.command_track is Some,
        call_ensures(CommandRun::step, (run, sync, now_ms, EngineReply::Done(outcome)), r),
        call_ensures(Frame::is_handoff_echo, (&old(run).frame, &*old(sync), now_ms), echo),
        call_ensures(
            is_recent_load_attempt,
            (&*old(sync), old(run).frame.command_track->0, now_ms),
            recent,
        ),
    ensures
        *final(sync) == *old(sync),
        ({
            let frame = old(run).frame;
            let loads = (frame.playing_state == Some(2i32) || frame.playing_state == Some(3i32))
                && !recent;
            &&& loads ==> {
                &&& r == RunStep::Call(EngineCall::GetPlaybackState)
                &&& final(run).stage == CommandStage::Loading
                &&& final(run).load.track_id == frame.command_track->0
                &&& !final(run).load.force
                &&& final(run).load.max_audio_quality == frame.max_audio_quality
                &&& frame.position_ms is None ==> final(run).load.start_position_secs == 0
                &&& frame.position_ms matches Some(ms) ==> 1000 * final(run).load.start_position_secs <= ms < 1000 * (final(run).load.start_position_secs + 1)
            }
            &&& !loads ==> begins_transport(
                frame.playing_state,
                echo,
                frame.position_ms is Some,
                final(run).stage,
                r,
            )
        }),
{
}

/// A stream that a command started is remembered where it starts, so that the seek
/// behind it stands back; a failed start is not, and does not end the command.
pub proof fn law_a_started_stream_is_remembered(
    run: &mut CommandRun,
    sync: &mut QconnectRemoteSyncState,
    now_ms: u64,
    outcome: Result<(), String>,
    r: RunStep,
    echo: bool,
)
    requires
        old(run).stage == CommandStage::Loading || old(run).stage == CommandStage::ColdLoading,
        old(run).load.stage == RemoteLoadStage::Starting,
        call_ensures(CommandRun::step, (run, sync, now_ms, EngineReply::Done(outcome)), r),
        call_ensures(Frame::is_handoff_echo, (&old(run).frame, &*old(sync), now_ms), echo),
    ensures
        *final(sync) == *old(sync),
        outcome is Ok ==> final(run).stream_started_at == Some(old(run).load.start_position_secs),
        outcome is Err ==> final(run).stream_started_at == old(run).stream_started_at,
        !(r matches RunStep::Finished(Err(_))),
        old(run).stage == CommandStage::Loading ==> begins_transport(
            old(run).frame.playing_state,
            echo,
            old(run).frame.position_ms is Some,
            final(run).stage,
            r,
        ),
        old(run).stage == CommandStage::ColdLoading ==> begins_seek(
            old(run).frame.position_ms is Some,
            final(run).stage,
            r,
        ),
{
}

/// A loop mode of the protocol has a repeat mode, any other number none.
pub proof fn law_a_loop_mode_has_its_repeat_mode(
    loop_mode: i32,
    r: Option<RepeatMode>,
    applied: Result<EngineCall, String>,
)
    requires
        call_ensures(qconnect_repeat_mode_from_loop_mode, (loop_mode,), r),
        call_ensures(apply_remote_loop_mode, (loop_mode,), applied),
    ensures
        r is Some <==> 0 <= loop_mode <= 3,
        r == Some(RepeatMode::One) <==> loop_mode == 2,
        r == Some(RepeatMode::All) <==> loop_mode == 3,
        applied is Ok <==> r is Some,
        applied matches Ok(call) ==> call == EngineCall::SetRepeatMode(r->0),
        applied matches Err(message) ==> message@ == "unsupported qconnect loop mode: "@
            + crate::text::signed_decimal(loop_mode as int),
{
}

/// The same track in the same place of the same context.
pub open spec fn is_the_same_item(a: QueueItem, b: QueueItem) -> bool {
    &&& a.track_id == b.track_id
    &&& a.queue_item_id == b.queue_item_id
    &&& a.track_context_uuid@ == b.track_context_uuid@
}

/// The same items, one by one.
pub open spec fn are_the_same_items(a: Seq<QueueItem>, b: Seq<QueueItem>) -> bool {
    a.len() == b.len() && forall|i: int|
        #![trigger a[i]]
        #![trigger b[i]]
        0 <= i < a.len() ==> is_the_same_item(a[i], b[i])
}

pub(crate) proof fn lemma_same_items(a: Seq<QueueItem>, b: Seq<QueueItem>)
    ensures
        crate::queue::items_view(a) == crate::queue::items_view(b) <==> are_the_same_items(a, b),
{
    let va = crate::queue::items_view(a);
    let vb = crate::queue::items_view(b);
    if va == vb {
        assert(va.len() == a.len() && vb.len() == b.len());
        assert forall|i: int|
            #![trigger a[i]]
            #![trigger b[i]]
            0 <= i < a.len() implies is_the_same_item(a[i], b[i]) by {
            assert(va[i] == a[i]@);
            assert(vb[i] == b[i]@);
        }
    }
    if are_the_same_items(a, b) {
        assert forall|i: int| 0 <= i < va.len() implies va[i] == vb[i] by {
            assert(is_the_same_item(a[i], b[i]));
        }
        assert(va =~= vb);
    }
}

/// Two queue snapshots build one queue where they agree in everything that it is
/// built from, and only there.
pub proof fn law_an_equal_queue_is_not_rebuilt(
    previous: QConnectQueueState,
    next: QConnectQueueState,
    r: bool,
    first: bool,
)
    requires
        call_ensures(queue_state_needs_materialization, (Some(&previous), &next), r),
        call_ensures(queue_state_needs_materialization, (None, &next), first),
    ensures
        first,
        !r <==> {
            &&& previous.version.major == next.version.major
            &&& previous.version.minor == next.version.minor
            &&& previous.shuffle_mode == next.shuffle_mode
            &&& previous.autoplay_mode == next.autoplay_mode
            &&& previous.autoplay_loading == next.autoplay_loading
            &&& are_the_same_items(previous.queue_items@, next.queue_items@)
            &&& are_the_same_items(previous.autoplay_items@, next.autoplay_items@)
            &&& previous.shuffle_order is Some <==> next.shuffle_order is Some
            &&& previous.shuffle_order is Some ==> previous.shuffle_order->0@
                == next.shuffle_order->0@
        },
{
    lemma_same_items(previous.queue_items@, next.queue_items@);
    lemma_same_items(previous.autoplay_items@, next.autoplay_items@);
}

/// A load of a track looks at what plays first, unless one was registered in the last
/// five seconds; a forced one always looks. Either way it is for the track, the cap
/// and the second that were asked for.
pub proof fn law_a_load_begins_with_a_look(
    sync: QconnectRemoteSyncState,
    now_ms: u64,
    track_id: u64,
    cap: Option<i32>,
    start_secs: u64,
    r: (RemoteLoad, RemoteLoadStep),
    forced: (RemoteLoad, RemoteLoadStep),
    playback: PlaybackState,
    reload: bool,
)
    requires
        call_ensures(ensure_remote_track_loaded, (&sync, now_ms, track_id, cap, start_secs), r),
        call_ensures(force_remote_track_stream, (track_id, cap, start_secs), forced),
        call_ensures(should_reload_remote_track, (&playback, track_id), reload),
    ensures
        reload <==> playback.track_id != track_id,
        r.1 == RemoteLoadStep::Settled(Ok(false)) <==> registered_within(
            sync.last_load_attempt,
            now_ms,
            5_000,
        ) && sync.last_load_attempt->0.track_id == track_id,
        r.1 is Call ==> r.1 == RemoteLoadStep::Call(EngineCall::GetPlaybackState) && r.0.stage
            == RemoteLoadStage::CheckingPlayback,
        r.0.track_id == track_id && r.0.max_audio_quality == cap && r.0.start_position_secs
            == start_secs && !r.0.force,
        forced.1 == RemoteLoadStep::Call(EngineCall::GetPlaybackState),
        forced.0.track_id == track_id && forced.0.max_audio_quality == cap
            && forced.0.start_position_secs == start_secs && forced.0.force && forced.0.stage
            == RemoteLoadStage::CheckingPlayback,
{
}

/// A load goes by what it hears: of the very track that plays there is nothing to
/// load, unless it is forced and the audio is gone. The attempt is registered before
/// the track is looked up, and the stream is asked for at the second, the cap and the
/// length of the track; what came of it settles the load.
pub proof fn law_a_load_goes_by_what_it_hears(
    load: &mut RemoteLoad,
    sync: &mut QconnectRemoteSyncState,
    now_ms: u64,
    reply: EngineReply,
    r: RemoteLoadStep,
)
    requires
        call_ensures(RemoteLoad::step, (load, sync, now_ms, reply), r),
        reply is Playback || reply is Loaded || reply is Track || reply is Done,
    ensures
        final(load).track_id == old(load).track_id,
        final(load).force == old(load).force,
        final(load).start_position_secs == old(load).start_position_secs,
        final(load).max_audio_quality == old(load).max_audio_quality,
        reply matches EngineReply::Playback(p) ==> {
            &&& !old(load).force && p.track_id == old(load).track_id ==> r
                == RemoteLoadStep::Settled(Ok(false)) && *final(sync) == *old(sync)
            &&& !old(load).force && p.track_id != old(load).track_id ==> looks_up(
                *old(load),
                *old(sync),
                *final(sync),
                now_ms,
                r,
            )
            &&& old(load).force && p.track_id == old(load).track_id ==> r == RemoteLoadStep::Call(
                EngineCall::HasLoadedAudio,
            ) && *final(sync) == *old(sync)
            &&& old(load).force && p.track_id != old(load).track_id && is_loading(
                *old(sync),
                old(load).track_id,
                now_ms,
            ) ==> r == RemoteLoadStep::Settled(Ok(false)) && *final(sync) == *old(sync)
            &&& old(load).force && p.track_id != old(load).track_id && !is_loading(
                *old(sync),
                old(load).track_id,
                now_ms,
            ) ==> looks_up(*old(load), *old(sync), *final(sync), now_ms, r)
        },
        reply matches EngineReply::Loaded(loaded) ==> {
            &&& loaded ==> r == RemoteLoadStep::Settled(Ok(false)) && *final(sync) == *old(sync)
            &&& !loaded && !is_loading(*old(sync), old(load).track_id, now_ms) ==> looks_up(
                *old(load),
                *old(sync),
                *final(sync),
                now_ms,
                r,
            )
            &&& !loaded && is_loading(*old(sync), old(load).track_id, now_ms) ==> r
                == RemoteLoadStep::Settled(Ok(false)) && *final(sync) == *old(sync)
        },
        reply matches EngineReply::Track(found) ==> {
            &&& *final(sync) == *old(sync)
            &&& r matches RemoteLoadStep::Call(
                EngineCall::StartStream {
                    track_id,
                    max_audio_quality,
                    duration_secs,
                    start_position_secs,
                },
            ) && track_id == old(load).track_id && max_audio_quality == old(load).max_audio_quality
                && start_position_secs == old(load).start_position_secs && (found matches Ok(track)
                ==> duration_secs == track.duration) && (found is Err ==> duration_secs == 0)
        },
        reply matches EngineReply::Done(outcome) ==> {
            &&& *final(sync) == *old(sync)
            &&& outcome is Ok ==> r == RemoteLoadStep::Settled(Ok(true))
            &&& outcome matches Err(why) ==> r == RemoteLoadStep::Settled(Err(why))
        },
{
}

/// A load of this track was registered in the last five seconds.
pub open spec fn is_loading(sync: QconnectRemoteSyncState, track_id: u64, now_ms: u64) -> bool {
    registered_within(sync.last_load_attempt, now_ms, 5_000)
        && sync.last_load_attempt->0.track_id == track_id
}

/// The load is registered now, and nothing else changes, before its track is looked
/// up.
pub open spec fn looks_up(
    load: RemoteLoad,
    before: QconnectRemoteSyncState,
    after: QconnectRemoteSyncState,
    now_ms: u64,
    step: RemoteLoadStep,
) -> bool {
    &&& step == RemoteLoadStep::Call(EngineCall::FetchTrack(load.track_id))
    &&& after.last_load_attempt == Some(LoadAttempt { track_id: load.track_id, at_ms: now_ms })
    &&& after == (QconnectRemoteSyncState { last_load_attempt: after.last_load_attempt, ..before })
}

/// An index names the first place of an id, and none names an id that is nowhere.
pub proof fn law_an_index_is_the_first_place(ids: Vec<u64>, id: u64, r: Option<usize>)
    requires
        call_ensures(index_of, (&ids, id), r),
    ensures
        r matches Some(i) ==> i < ids@.len() && ids@[i as int] == id && forall|j: int|
            0 <= j < i ==> ids@[j] != id,
        r is None ==> !ids@.contains(id),
{
    lemma_first_place(ids@, id);
}

proof fn lemma_first_place(ids: Seq<u64>, id: u64)
    ensures
        match crate::renderer::first_index_of(ids, id) {
            Some(i) => 0 <= i < ids.len() && ids[i] == id && forall|j: int|
                0 <= j < i ==> ids[j] != id,
            None => !ids.contains(id),
        },
    decreases ids.len(),
{
    if ids.len() > 0 && ids[0] != id {
        let rest = ids.drop_first();
        lemma_first_place(rest, id);
        assert forall|j: int| 0 < j < ids.len() implies ids[j] == rest[j - 1] by {}
        match crate::renderer::first_index_of(rest, id) {
            Some(i) => {
                assert(ids[i + 1] == rest[i]);
            },
            None => {
                assert forall|j: int| 0 <= j < ids.len() implies ids[j] != id by {
                    if j > 0 {
                        assert(rest.contains(rest[j - 1]));
                    }
                }
            },
        }
    }
}

/// Moving the queue to a track: it reads the queue first; a track that stands there
/// is moved to at its first place, unless the queue is there already; any other
/// becomes a queue of its own.
pub proof fn law_a_queue_moves_to_the_track(
    track_id: u64,
    begun: (AlignRun, RunStep),
    run: &mut AlignRun,
    ids: Vec<u64>,
    current: Option<usize>,
    r: RunStep,
)
    requires
        call_ensures(align_queue_cursor, (track_id,), begun),
        *old(run) == begun.0,
        call_ensures(AlignRun::step, (run, EngineReply::Queue { ids, current }), r),
    ensures
        begun.1 == RunStep::Call(EngineCall::GetQueueTracks),
        !ids@.contains(track_id) ==> r == RunStep::Call(EngineCall::FetchTrack(track_id)),
        r matches RunStep::Call(EngineCall::PlayIndex(i)) ==> i < ids@.len() && ids@[i as int]
            == track_id && current != Some(i) && forall|j: int| 0 <= j < i ==> ids@[j] != track_id,
        (r matches RunStep::Finished(_)) ==> (current matches Some(i) && i < ids@.len()
            && ids@[i as int] == track_id),
        ids@.contains(track_id) ==> (r matches RunStep::Call(EngineCall::PlayIndex(_))) || (
        r matches RunStep::Finished(Ok(_))),
{
    lemma_first_place(ids@, track_id);
    assert(ids@.len() == ids.len());
}

/// A track that the queue did not hold becomes a queue of its own, as the track it
/// is; where it cannot be had the move fails.
pub proof fn law_a_missing_track_gets_its_own_queue(
    run: &mut AlignRun,
    found: Result<Track, String>,
    r: RunStep,
)
    requires
        call_ensures(AlignRun::step, (run, EngineReply::Track(found)), r),
    ensures
        found is Ok <==> (r matches RunStep::Call(EngineCall::SetQueue(_))),
        (found matches Ok(track) && r matches RunStep::Call(EngineCall::SetQueue(q))) ==> {
            let q = r->Call_0->SetQueue_0;
            q.id == found->Ok_0.id && q.duration_secs == found->Ok_0.duration
        },
        found matches Err(why) ==> (r matches RunStep::Finished(Err(message)) && message@
            == "fetch current remote track "@ + crate::text::decimal(old(run).track_id as nat)
            + ": "@ + why@),
{
}

/// A catalog track keeps what is known of it when it joins the queue; what it lacks
/// is said to be unknown, and it always counts as a remote one.
pub proof fn law_a_track_keeps_what_is_known_of_it(track: Track, r: QueueTrack)
    requires
        call_ensures(model_track_to_core_queue_track, (&track,), r),
    ensures
        r.id == track.id,
        r.title@ == track.title@,
        r.duration_secs == track.duration,
        r.hires == track.hires,
        r.bit_depth == track.maximum_bit_depth,
        r.sample_rate_hz == track.maximum_sampling_rate_hz,
        r.streamable == track.streamable,
        r.parental_warning == track.parental_warning,
        !r.is_local,
        r.source matches Some(source) && source@ == "qobuz_connect_remote"@,
        track.performer matches Some(performer) ==> r.artist@ == performer.name@ && r.artist_id
            == Some(performer.id),
        track.performer is None ==> r.artist@ == "Unknown Artist"@ && r.artist_id is None,
        r.version == track.version,
        track.album matches Some(album) ==> r.album@ == album.title@ && r.artwork_url
            == album.artwork_url,
        track.album matches Some(album) ==> (r.album_id is Some <==> crate::text::trimmed(
            album.id@,
        ).len() > 0),
        track.album is Some && r.album_id is Some ==> r.album_id->0@ == crate::text::trimmed(
            track.album->0.id@,
        ),
        track.album is None ==> r.album@ == "Unknown Album"@ && r.album_id is None
            && r.artwork_url is None,
        r.source_item_id_hint == r.album_id,
        r.album_version is None,
        r.context_kind is None,
        r.context_id is None,
{
}

/// The command goes on to its track: the queue is read to move to it, and without one
/// the transport follows.
pub open spec fn goes_to_the_track(
    frame: Frame,
    echo: bool,
    after: CommandRun,
    step: RunStep,
) -> bool {
    &&& frame.command_track is Some ==> after.stage == CommandStage::Aligning && step
        == RunStep::Call(EngineCall::GetQueueTracks) && after.align.track_id
        == frame.command_track->0 && after.align.stage == AlignStage::Reading
    &&& frame.command_track is None ==> begins_transport(
        frame.playing_state,
        echo,
        frame.position_ms is Some,
        after.stage,
        step,
    )
}

/// The command goes on to the load of its track, where the session plays or pauses and
/// none is under way; otherwise the transport follows.
pub open spec fn goes_to_the_load(
    frame: Frame,
    loading: bool,
    echo: bool,
    after: CommandRun,
    step: RunStep,
) -> bool {
    let loads = frame.command_track is Some && (frame.playing_state == Some(2i32)
        || frame.playing_state == Some(3i32)) && !loading;
    &&& loads ==> {
        &&& step == RunStep::Call(EngineCall::GetPlaybackState)
        &&& after.stage == CommandStage::Loading
        &&& after.load.stage == RemoteLoadStage::CheckingPlayback
        &&& after.load.track_id == frame.command_track->0
        &&& !after.load.force
        &&& after.load.max_audio_quality == frame.max_audio_quality
        &&& frame.position_ms is None ==> after.load.start_position_secs == 0
        &&& frame.position_ms matches Some(ms) ==> 1000 * after.load.start_position_secs <= ms
            < 1000 * (after.load.start_position_secs + 1)
    }
    &&& !loads ==> begins_transport(
        frame.playing_state,
        echo,
        frame.position_ms is Some,
        after.stage,
        step,
    )
}

/// An order that is not applied leaves the queue as it is, and the command goes on to its
/// track; so does a queue that is not as long as the cloud's. Once an order is applied the
/// queue stands right, and the command goes on to the load.
pub proof fn law_after_the_order_comes_the_track(
    run: &mut CommandRun,
    sync: &mut QconnectRemoteSyncState,
    now_ms: u64,
    reply: EngineReply,
    r: RunStep,
    echo: bool,
    later: bool,
)
    requires
        call_ensures(CommandRun::step, (run, sync, now_ms, reply), r),
        call_ensures(Frame::is_handoff_echo, (&old(run).frame, &*old(sync), now_ms), echo),
        call_ensures(Frame::is_handoff_echo, (&old(run).frame, &*final(sync), now_ms), later),
    ensures
        final(run).frame == old(run).frame,
        r is Finished <==> final(run).stage == CommandStage::Finished,
        old(run).stage == CommandStage::Resolving && final(run).stage != CommandStage::Projecting
            ==> goes_to_the_track(old(run).frame, echo, *final(run), r),
        old(run).stage == CommandStage::Projecting && final(run).stage != CommandStage::Reordering
            ==> goes_to_the_track(old(run).frame, echo, *final(run), r),
        old(run).stage == CommandStage::Reordering ==> goes_to_the_load(
            old(run).frame,
            is_loading(*final(sync), old(run).frame.command_track->0, now_ms),
            later,
            *final(run),
            r,
        ),
        old(run).stage == CommandStage::Resolving || old(run).stage == CommandStage::Projecting
            || old(run).stage == CommandStage::Reordering ==> final(run).queue_len == old(run).queue_len && final(run).stream_started_at == old(run).stream_started_at,
{
}

/// Moving the queue on the way: a track that stands in it is moved to at its first place,
/// one that does not is fetched and becomes the queue. Once the queue is there, or the
/// track could not be had, the command goes on to the load.
pub proof fn law_the_queue_is_moved_on_the_way(
    run: &mut CommandRun,
    sync: &mut QconnectRemoteSyncState,
    now_ms: u64,
    ids: Vec<u64>,
    current: Option<usize>,
    r: RunStep,
    echo: bool,
    i: int,
)
    requires
        old(run).stage == CommandStage::Aligning,
        call_ensures(
            CommandRun::step,
            (run, sync, now_ms, EngineReply::Queue { ids, current }),
            r,
        ),
        call_ensures(Frame::is_handoff_echo, (&old(run).frame, &*old(sync), now_ms), echo),
    ensures
        *final(sync) == *old(sync),
        !ids@.contains(old(run).align.track_id) ==> r == RunStep::Call(
            EngineCall::FetchTrack(old(run).align.track_id),
        ) && final(run).stage == CommandStage::Aligning && final(run).align.stage
            == AlignStage::FetchingTrack,
        (0 <= i < ids@.len() && ids@[i] == old(run).align.track_id && forall|j: int|
            0 <= j < i ==> ids@[j] != old(run).align.track_id) ==> {
            &&& current is None || current->0 != i ==> (r matches RunStep::Call(
                EngineCall::PlayIndex(at),
            ) && at == i) && final(run).stage == CommandStage::Aligning && final(run).align.stage
                == AlignStage::Applying
            &&& current is Some && current->0 == i ==> goes_to_the_load(
                old(run).frame,
                is_loading(*old(sync), old(run).frame.command_track->0, now_ms),
                echo,
                *final(run),
                r,
            )
        },
        final(run).align.track_id == old(run).align.track_id,
        final(run).stream_started_at == old(run).stream_started_at,
{
    lemma_first_place(ids@, old(run).align.track_id);
    assert(ids@.len() == ids.len());
    if 0 <= i < ids@.len() && ids@[i] == old(run).align.track_id && forall|j: int|
        0 <= j < i ==> ids@[j] != old(run).align.track_id {
        assert(ids@.contains(ids@[i]));
        let k = crate::renderer::first_index_of(ids@, old(run).align.track_id)->0;
        if k < i {
            assert(ids@[k] != old(run).align.track_id);
        }
        if i < k {
            assert(ids@[i] != old(run).align.track_id);
        }
    }
}

/// A track that was fetched on the way becomes the queue; one that could not be had does
/// not end the command, which goes on to the load.
pub proof fn law_a_track_is_fetched_on_the_way(
    run: &mut CommandRun,
    sync: &mut QconnectRemoteSyncState,
    now_ms: u64,
    found: Result<Track, String>,
    r: RunStep,
    echo: bool,
)
    requires
        old(run).stage == CommandStage::Aligning,
        call_ensures(CommandRun::step, (run, sync, now_ms, EngineReply::Track(found)), r),
        call_ensures(Frame::is_handoff_echo, (&old(run).frame, &*old(sync), now_ms), echo),
    ensures
        *final(sync) == *old(sync),
        found is Ok ==> (r matches RunStep::Call(EngineCall::SetQueue(q)) && q.id == (
        found->Ok_0).id && q.duration_secs == (found->Ok_0).duration) && final(run).stage
            == CommandStage::Aligning && final(run).align.stage == AlignStage::Applying,
        found is Err ==> goes_to_the_load(
            old(run).frame,
            is_loading(*old(sync), old(run).frame.command_track->0, now_ms),
            echo,
            *final(run),
            r,
        ),
{
    match found {
        Ok(track) => {},
        Err(why) => {},
    }
}

/// The load on the way goes by what it hears, as any load: of the track that plays there is
/// nothing to load and the command goes on; another is registered and looked up, and its
/// stream is asked for at the second and the cap of the load.
pub proof fn law_a_track_is_loaded_on_the_way(
    run: &mut CommandRun,
    sync: &mut QconnectRemoteSyncState,
    now_ms: u64,
    reply: EngineReply,
    r: RunStep,
    echo: bool,
)
    requires
        old(run).stage == CommandStage::Loading || old(run).stage == CommandStage::ColdLoading,
        reply is Playback || reply is Loaded || reply is Track,
        call_ensures(CommandRun::step, (run, sync, now_ms, reply), r),
        call_ensures(Frame::is_handoff_echo, (&old(run).frame, &*old(sync), now_ms), echo),
    ensures
        ({
            let load = old(run).load;
            let stays = final(run).stage == old(run).stage;
            let loading = is_loading(*old(sync), load.track_id, now_ms);
            let looks = stays && r is Call && looks_up(
                load,
                *old(sync),
                *final(sync),
                now_ms,
                RemoteLoadStep::Call(r->Call_0),
            );
            let goes_on = *final(sync) == *old(sync) && (old(run).stage == CommandStage::Loading
                ==> begins_transport(
                old(run).frame.playing_state,
                echo,
                old(run).frame.position_ms is Some,
                final(run).stage,
                r,
            )) && (old(run).stage == CommandStage::ColdLoading ==> begins_seek(
                old(run).frame.position_ms is Some,
                final(run).stage,
                r,
            ));
            &&& reply matches EngineReply::Playback(p) ==> {
                &&& !load.force && p.track_id == load.track_id ==> goes_on
                &&& !load.force && p.track_id != load.track_id ==> looks
                &&& load.force && p.track_id == load.track_id ==> stays && r == RunStep::Call(
                    EngineCall::HasLoadedAudio,
                ) && *final(sync) == *old(sync)
                &&& load.force && p.track_id != load.track_id && loading ==> goes_on
                &&& load.force && p.track_id != load.track_id && !loading ==> looks
            }
            &&& reply matches EngineReply::Loaded(loaded) ==> {
                &&& loaded || loading ==> goes_on
                &&& !loaded && !loading ==> looks
            }
            &&& reply matches EngineReply::Track(found) ==> {
                &&& stays
                &&& *final(sync) == *old(sync)
                &&& r matches RunStep::Call(
                    EngineCall::StartStream {
                        track_id,
                        max_audio_quality,
                        duration_secs,
                        start_position_secs,
                    },
                ) && track_id == load.track_id && max_audio_quality == load.max_audio_quality
                    && start_position_secs == load.start_position_secs && (found matches Ok(track)
                    ==> duration_secs == track.duration) && (found is Err ==> duration_secs == 0)
            }
        }),
        final(run).stream_started_at == old(run).stream_started_at,
        final(run).load.track_id == old(run).load.track_id,
        final(run).load.force == old(run).load.force,
        final(run).load.start_position_secs == old(run).load.start_position_secs,
        final(run).load.max_audio_quality == old(run).load.max_audio_quality,
{
    match reply {
        EngineReply::Track(found) => {
            match found {
                Ok(track) => {},
                Err(why) => {},
            }
        },
        _ => {},
    }
}

} // verus!
