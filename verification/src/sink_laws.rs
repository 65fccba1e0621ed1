//! What holds of session events and of the work that they call for, call by call.

use vstd::prelude::*;
use vstd::string::*;

use crate::engine::VolumeMode;
use crate::materialize::MaterializeRun;
use crate::queue::{QConnectQueueState, QueueVersion};
use crate::renderer_model::{
    EngineCall, PlaybackState, QConnectRendererState, QconnectRemoteSyncState, RendererCommand,
    RunStep,
};
use crate::report::{RendererReport, ReportBody};
use crate::sink::{
    apply_session_management_event, on_event, projected_cursor, queue_updated,
    report_active_renderer_ready, report_volume, sync_active_renderer_projection,
    sync_local_playback_for_renderer_ownership, CommandFollowUp, CommandNote, DaemonEventSink,
    EventWork, ProjectionWork, QconnectAppEvent, SessionApplyOutcome, SessionRenderers, SessionWork,
};

verus! {

/// One where it is, none where it is not.
pub open spec fn count(is: bool) -> int {
    if is {
        1
    } else {
        0
    }
}

/// The work of a session event comes in its order: the loop mode, the playback that makes
/// way, the projection, the ownership, the renderer that went, the watchdog, the peer.
/// What the event does not call for is left out; ownership and peer are always looked at.
pub proof fn law_session_work_comes_in_order(outcome: SessionApplyOutcome, r: Vec<SessionWork>)
    requires
        call_ensures(apply_session_management_event, (outcome,), r),
    ensures
        ({
            let a = count(outcome.apply_loop_mode is Some);
            let b = a + count(outcome.sync_local_playback);
            let c = b + count(outcome.remote_projection_renderer_id is Some);
            let d = c + 1 + count(outcome.disconnected_renderer_id is Some);
            let e = d + count(outcome.watchdog_arm is Some);
            &&& r@.len() == e + 1
            &&& outcome.apply_loop_mode is Some ==> r@[0] == SessionWork::ApplyLoopMode(
                outcome.apply_loop_mode->0,
            )
            &&& outcome.sync_local_playback ==> r@[a] == SessionWork::SyncLocalPlayback
            &&& outcome.remote_projection_renderer_id is Some ==> r@[b]
                == SessionWork::SyncProjection(outcome.remote_projection_renderer_id->0)
            &&& r@[c] == SessionWork::LatchOwnership
            &&& outcome.disconnected_renderer_id is Some ==> r@[c + 1]
                == SessionWork::FreezeProjection(outcome.disconnected_renderer_id->0)
            &&& outcome.watchdog_arm is Some ==> r@[d] == SessionWork::ArmWatchdog(
                (outcome.watchdog_arm->0).0,
                (outcome.watchdog_arm->0).1,
            )
            &&& r@[e] == SessionWork::CheckPeer
        }),
{
}

/// Local playback makes way where another device renders and a track is loaded here.
pub proof fn law_playback_makes_way_for_a_peer(peer: bool, playback: &PlaybackState, r: bool)
    requires
        call_ensures(sync_local_playback_for_renderer_ownership, (peer, playback), r),
    ensures
        r <==> peer && playback.track_id != 0,
{
}

/// The active renderer's state is kept where both states are known, and the local queue
/// follows it where it is another device: to the track that it plays.
pub proof fn law_the_queue_follows_another_renderer(
    id: i32,
    session: SessionRenderers,
    queue_known: bool,
    renderer_known: bool,
    work: ProjectionWork,
    snapshot: &QConnectRendererState,
    cursor: Option<u64>,
)
    requires
        call_ensures(
            sync_active_renderer_projection,
            (id, session, queue_known, renderer_known),
            work,
        ),
        call_ensures(projected_cursor, (work, snapshot), cursor),
    ensures
        work is Ignore <==> !(session.active_renderer_id is Some && session.active_renderer_id->0
            == id && queue_known && renderer_known),
        work is CacheAndAlign ==> !(session.local_renderer_id is Some
            && session.local_renderer_id->0 == id),
        work is Cache ==> session.local_renderer_id is Some && session.local_renderer_id->0 == id,
        cursor is Some <==> work is CacheAndAlign && snapshot.current_track is Some,
        cursor is Some ==> cursor->0 == (snapshot.current_track->0).track_id,
{
}

/// A new sink knows of no peer, has not become active, and does not render.
pub proof fn law_a_new_sink_is_passive(r: DaemonEventSink)
    requires
        call_ensures(DaemonEventSink::new, (), r),
    ensures
        !r.last_peer_active,
        r.became_active_at is None,
        !r.join_volume_asserted,
        !r.is_active,
{
}

/// The volume that this renderer joined with is to be defended: it became active less
/// than five seconds ago, the event is about this renderer and shows another volume.
pub open spec fn needs_defence(
    sink: DaemonEventSink,
    renderer: Option<i64>,
    theirs: Option<i64>,
    local: Option<i32>,
    ours: i32,
    now: u64,
) -> bool {
    &&& !sink.join_volume_asserted
    &&& sink.became_active_at is Some
    &&& now < sink.became_active_at->0 + 5000
    &&& renderer is Some && local is Some && renderer->0 == local->0
    &&& theirs is Some && theirs->0 != ours
}

/// The volume of a join is defended where it needs to be, and once; nothing else changes.
pub proof fn law_a_join_volume_is_defended(
    sink: &mut DaemonEventSink,
    renderer: Option<i64>,
    theirs: Option<i64>,
    local: Option<i32>,
    ours: i32,
    now: u64,
    r: bool,
)
    requires
        call_ensures(
            DaemonEventSink::defend_join_volume,
            (sink, renderer, theirs, local, ours, now),
            r,
        ),
    ensures
        r <==> needs_defence(*old(sink), renderer, theirs, local, ours, now),
        !r ==> *final(sink) == *old(sink),
        r ==> final(sink).join_volume_asserted && final(sink).became_active_at == old(sink).became_active_at && final(sink).is_active == old(sink).is_active && final(sink).last_peer_active == old(sink).last_peer_active,
{
}

/// The same from the event itself: the renderer and the volume are read from their places
/// in it.
pub proof fn law_a_join_volume_is_read_from_its_event(
    sink: &mut DaemonEventSink,
    payload: &serde_json::Value,
    local: Option<i32>,
    ours: i32,
    now: u64,
    r: bool,
)
    requires
        call_ensures(DaemonEventSink::assert_join_volume, (sink, payload, local, ours, now), r),
    ensures
        ({
            let numbers = crate::json::json_signed(*payload);
            &&& r <==> numbers.contains_key("/renderer_id"@) && numbers.contains_key("/volume"@)
                && needs_defence(
                *old(sink),
                Some(numbers["/renderer_id"@]),
                Some(numbers["/volume"@]),
                local,
                ours,
                now,
            )
            &&& !r ==> *final(sink) == *old(sink)
            &&& r ==> final(sink).join_volume_asserted && final(sink).became_active_at == old(sink).became_active_at
        }),
{
}

/// Who renders is what the role says, and what was last known where there is none; a peer
/// is new where it was not active before.
pub proof fn law_ownership_is_taken_from_the_role(
    sink: &mut DaemonEventSink,
    role: Option<bool>,
    sync: &QconnectRemoteSyncState,
    other: &mut DaemonEventSink,
    peer: bool,
    r: bool,
)
    requires
        call_ensures(DaemonEventSink::latch_render_ownership, (sink, role, sync), ()),
        call_ensures(DaemonEventSink::check_peer, (other, peer), r),
    ensures
        role is Some ==> final(sink).is_active == role->0,
        role is None ==> (final(sink).is_active <==> sync.local_render_active is Some
            && sync.local_render_active->0),
        final(sink).last_peer_active == old(sink).last_peer_active,
        final(sink).became_active_at == old(sink).became_active_at,
        final(sink).join_volume_asserted == old(sink).join_volume_asserted,
        r <==> peer && !old(other).last_peer_active,
        final(other).last_peer_active == peer,
        final(other).is_active == old(other).is_active,
        final(other).became_active_at == old(other).became_active_at,
        final(other).join_volume_asserted == old(other).join_volume_asserted,
{
}

/// A volume that is commanded needs no defence. A renderer that was made active, and
/// applied it, reports itself and its volume, and its join begins then.
pub proof fn law_a_join_begins_with_its_command(
    sink: &mut DaemonEventSink,
    command: &RendererCommand,
    note: CommandNote,
    after: &mut DaemonEventSink,
    applied: bool,
    now: u64,
    r: CommandFollowUp,
)
    requires
        call_ensures(DaemonEventSink::note_command, (sink, command), note),
        *old(after) == *final(sink),
        call_ensures(DaemonEventSink::command_applied, (after, note, applied, now), r),
    ensures
        *command is SetVolume ==> final(sink).join_volume_asserted,
        !(*command is SetVolume) ==> *final(sink) == *old(sink),
        final(sink).became_active_at == old(sink).became_active_at,
        final(sink).is_active == old(sink).is_active,
        final(sink).last_peer_active == old(sink).last_peer_active,
        r.latch_ownership <==> *command is SetActive,
        r.report_ready <==> (*command matches RendererCommand::SetActive { active } && active)
            && applied,
        r.report_volume == r.report_ready,
        r.report_ready ==> final(after).became_active_at == Some(now) && !final(after).join_volume_asserted && final(after).is_active == old(sink).is_active && final(after).last_peer_active == old(sink).last_peer_active,
        !r.report_ready ==> *final(after) == *final(sink),
{
}

/// A renderer that is ready says that it is active, and a volume is reported as it stands,
/// within its bounds, or full where it is locked; each for its queue's version.
pub proof fn law_a_volume_is_reported_as_it_stands(
    version: QueueVersion,
    ready: RendererReport,
    mode: VolumeMode,
    actual: i32,
    r: RendererReport,
    plain: RendererReport,
    body: ReportBody,
)
    requires
        call_ensures(report_active_renderer_ready, (version,), ready),
        call_ensures(report_volume, (version, mode, actual), r),
        call_ensures(RendererReport::new, (version, body), plain),
    ensures
        ready.body is Active,
        ready.queue_version == version,
        r.queue_version == version,
        plain.queue_version == version,
        plain.body == body,
        mode is Locked ==> r.body == (ReportBody::Volume { percent: 100 }),
        mode is Software && 0 <= actual <= 100 ==> r.body == (ReportBody::Volume { percent: actual }),
        mode is Software && actual < 0 ==> r.body == (ReportBody::Volume { percent: 0 }),
        mode is Software && actual > 100 ==> r.body == (ReportBody::Volume { percent: 100 }),
{
}

/// Each event calls for its own work, and only one that tells of a changed volume has the
/// volume looked at.
pub proof fn law_an_event_calls_for_its_work(event: &QconnectAppEvent, r: EventWork)
    requires
        call_ensures(on_event, (event,), r),
    ensures
        *event is SessionManagement <==> r is ApplySession,
        *event is RendererUpdated <==> r is CacheSnapshot,
        *event is QueueUpdated <==> r is Materialize,
        *event is RendererCommandApplied <==> r is ApplyCommand,
        *event is Notice <==> r is Log,
        *event matches QconnectAppEvent::SessionManagement { message_type } ==> (r
            matches EventWork::ApplySession { check_volume } && (check_volume <==> message_type@
            == "MESSAGE_TYPE_SRVR_CTRL_VOLUME_CHANGED"@)),
{
}

/// A queue that came is remembered, and materialized with the cursor that was last known;
/// nothing else of what was known changes.
pub proof fn law_a_queue_that_came_is_materialized(
    sync: &mut QconnectRemoteSyncState,
    queue: &QConnectQueueState,
    r: (MaterializeRun, RunStep),
)
    requires
        call_ensures(queue_updated, (sync, queue), r),
    ensures
        final(sync).last_remote_queue_state is Some,
        final(sync).last_remote_queue_state->0@ == queue@,
        r.0.queue@ == queue@,
        r.0.renderer_queue_item_id == old(sync).last_renderer_queue_item_id,
        r.0.renderer_track_id == old(sync).last_renderer_track_id,
        r.0.renderer_next_queue_item_id == old(sync).last_renderer_next_queue_item_id,
        r.0.renderer_next_track_id == old(sync).last_renderer_next_track_id,
        r.0.renderer_playing_state == old(sync).last_renderer_playing_state,
        r.0.renderer_max_audio_quality == old(sync).last_renderer_max_audio_quality,
        r.0.tracks@.len() == 0,
        r.0.cursor == 0,
        final(sync).last_renderer_queue_item_id == old(sync).last_renderer_queue_item_id,
        final(sync).last_renderer_track_id == old(sync).last_renderer_track_id,
        final(sync).last_renderer_playing_state == old(sync).last_renderer_playing_state,
        final(sync).local_render_active == old(sync).local_render_active,
        final(sync).last_load_attempt == old(sync).last_load_attempt,
        old(sync).last_applied_queue_state is None ==> final(sync).last_applied_queue_state is Some
            && final(sync).last_applied_queue_state->0@ == queue@ && (queue.queue_items@.len() == 0
            ==> r.1 == RunStep::Call(EngineCall::ClearQueue)) && (queue.queue_items@.len() > 0
            ==> r.0.stage is FetchingBatch),
        !(r.0.stage is Finished) ==> final(sync).last_applied_queue_state is Some && final(sync).last_applied_queue_state->0@ == queue@,
        r.0.stage is Finished ==> r.1 == RunStep::Finished(Ok(())) && final(sync).last_applied_queue_state == old(sync).last_applied_queue_state,
{
}

/// A queue that came is materialized anew where it differs from the one that was applied,
/// and is left alone where it does not.
pub proof fn law_a_queue_is_materialized_where_it_differs(
    sync: &mut QconnectRemoteSyncState,
    queue: &QConnectQueueState,
    r: (MaterializeRun, RunStep),
    applied: &QConnectQueueState,
    differs: bool,
)
    requires
        call_ensures(queue_updated, (sync, queue), r),
        old(sync).last_applied_queue_state == Some(*applied),
        call_ensures(
            crate::renderer::queue_state_needs_materialization,
            (Some(applied), queue),
            differs,
        ),
    ensures
        r.0.stage is Finished <==> !differs,
        differs && queue.queue_items@.len() == 0 ==> r.1 == RunStep::Call(EngineCall::ClearQueue),
        differs && queue.queue_items@.len() > 0 ==> (r.1 matches RunStep::Call(
            EngineCall::FetchTracks(ids),
        )),
{
}

} // verus!
