//! What holds of a cloud queue on its way into the engine, call by call.

use vstd::prelude::*;

use crate::materialize::{
    dedupe_track_ids, materialize_remote_queue, position_of, MaterializeRun, MaterializeStage,
};
use crate::queue::{QConnectQueueState, QueueItem, QueueVersion};
use crate::renderer::queue_state_needs_materialization;
use crate::renderer_model::{
    EngineCall, EngineReply, PlaybackState, QconnectRemoteSyncState, RunStep, Track,
};

verus! {

/// Some item of a queue is this track.
pub open spec fn is_queued(items: Seq<QueueItem>, track_id: u64) -> bool {
    exists|i: int| 0 <= i < items.len() && (#[trigger] items[i]).track_id == track_id
}

/// Some item before the one at `j` is this track.
pub open spec fn is_queued_before(items: Seq<QueueItem>, j: int, track_id: u64) -> bool {
    exists|i: int| 0 <= i < j && (#[trigger] items[i]).track_id == track_id
}

/// The distinct tracks of a queue are all of its tracks, each once, in the order in
/// which they first occur.
pub proof fn law_distinct_tracks_are_all_tracks_once(items: Vec<QueueItem>, r: Vec<u64>)
    requires
        call_ensures(dedupe_track_ids, (&items,), r),
    ensures
        forall|i: int| 0 <= i < items@.len() ==> r@.contains((#[trigger] items@[i]).track_id),
        forall|k: int| 0 <= k < r@.len() ==> is_queued(items@, #[trigger] r@[k]),
        forall|k: int, l: int| 0 <= k < l < r@.len() ==> r@[k] != r@[l],
        forall|k: int, l: int, j: int|
            #![trigger is_queued_before(items@, j, r@[k]), r@[l]]
            0 <= k < l < r@.len() && 0 <= j < items@.len() && items@[j].track_id == r@[l]
                ==> is_queued_before(items@, j, r@[k]),
{
    lemma_distinct(items@);
}

proof fn lemma_distinct(items: Seq<QueueItem>)
    ensures
        ({
            let r = crate::materialize::distinct_ids(items);
            &&& forall|i: int| 0 <= i < items.len() ==> r.contains((#[trigger] items[i]).track_id)
            &&& forall|k: int| 0 <= k < r.len() ==> is_queued(items, #[trigger] r[k])
            &&& forall|k: int, l: int| 0 <= k < l < r.len() ==> r[k] != r[l]
            &&& forall|k: int, l: int, j: int|
                #![trigger is_queued_before(items, j, r[k]), r[l]]
                0 <= k < l < r.len() && 0 <= j < items.len() && items[j].track_id == r[l]
                    ==> is_queued_before(items, j, r[k])
        }),
    decreases items.len(),
{
    if items.len() > 0 {
        let front = items.drop_last();
        let before = crate::materialize::distinct_ids(front);
        let last = items.last().track_id;
        let r = crate::materialize::distinct_ids(items);
        lemma_distinct(front);
        assert forall|i: int| 0 <= i < items.len() implies r.contains(
            (#[trigger] items[i]).track_id,
        ) by {
            if i < front.len() {
                assert(front[i] == items[i]);
                let k = choose|k: int| 0 <= k < before.len() && before[k] == front[i].track_id;
                assert(r[k] == before[k]);
            } else if before.contains(last) {
            } else {
                assert(r[before.len() as int] == last);
            }
        }
        assert forall|k: int| 0 <= k < r.len() implies is_queued(items, #[trigger] r[k]) by {
            if k < before.len() {
                assert(r[k] == before[k]);
                assert(is_queued(front, before[k]));
                let i = choose|i: int|
                    0 <= i < front.len() && (#[trigger] front[i]).track_id == before[k];
                assert(items[i].track_id == r[k]);
            } else {
                assert(items[items.len() - 1].track_id == r[k]);
            }
        }
        assert forall|k: int, l: int| 0 <= k < l < r.len() implies r[k] != r[l] by {
            assert(r[k] == before[k]);
            if l < before.len() {
                assert(r[l] == before[l]);
            } else {
                assert(before.contains(before[k]));
            }
        }
        assert forall|k: int, l: int, j: int|
            #![trigger is_queued_before(items, j, r[k]), r[l]]
            0 <= k < l < r.len() && 0 <= j < items.len() && items[j].track_id
                == r[l] implies is_queued_before(items, j, r[k]) by {
            assert(r[k] == before[k]);
            assert(is_queued(front, before[k]));
            let i = choose|i: int|
                0 <= i < front.len() && (#[trigger] front[i]).track_id == before[k];
            assert(items[i].track_id == r[k]);
            if j < front.len() {
                assert(front[j] == items[j]);
                if l < before.len() {
                    assert(r[l] == before[l]);
                    assert(is_queued_before(front, j, before[k]));
                    let e = choose|e: int|
                        0 <= e < j && (#[trigger] front[e]).track_id == before[k];
                    assert(items[e].track_id == r[k]);
                } else {
                    assert(before.contains(front[j].track_id));
                }
            }
        }
    }
}

/// The place of a track in a queue is its first.
pub proof fn law_a_place_is_the_first(items: Vec<QueueItem>, track_id: u64, r: Option<usize>)
    requires
        call_ensures(position_of, (&items, track_id), r),
    ensures
        r is None <==> !is_queued(items@, track_id),
        r matches Some(i) ==> i < items@.len() && items@[i as int].track_id == track_id
            && forall|j: int| 0 <= j < i ==> (#[trigger] items@[j]).track_id != track_id,
{
    if r is Some {
        assert(items@[r->0 as int].track_id == track_id);
    }
    if is_queued(items@, track_id) {
        let i = choose|i: int|
            0 <= i < items@.len() && (#[trigger] items@[i]).track_id == track_id;
        assert(crate::materialize::has_track(items@, track_id));
    }
}

/// A queue that would be built again as it is, is left; an empty one clears the
/// engine's, but for the current track; any other has all of its tracks fetched at
/// once. What the cloud says of the renderer is taken down with it.
pub proof fn law_a_queue_is_built_once(
    sync: &mut QconnectRemoteSyncState,
    queue: QConnectQueueState,
    r: (MaterializeRun, RunStep),
    due: bool,
    previous: Option<&QConnectQueueState>,
    ids: Vec<u64>,
)
    requires
        call_ensures(materialize_remote_queue, (sync, &queue), r),
        old(sync).last_applied_queue_state is None ==> previous is None,
        old(sync).last_applied_queue_state is Some ==> previous == Some(
            &old(sync).last_applied_queue_state->0,
        ),
        call_ensures(queue_state_needs_materialization, (previous, &queue), due),
        call_ensures(dedupe_track_ids, (&queue.queue_items,), ids),
    ensures
        !due ==> (r.1 matches RunStep::Finished(Ok(_))) && *final(sync) == *old(sync),
        due ==> (final(sync).last_applied_queue_state matches Some(applied) && applied@ == queue@),
        due && queue.queue_items@.len() == 0 ==> r.1 == RunStep::Call(EngineCall::ClearQueue)
            && r.0.stage == MaterializeStage::Clearing,
        due && queue.queue_items@.len() > 0 ==> (r.1 matches RunStep::Call(
            EngineCall::FetchTracks(asked),
        ) && asked@ == ids@) && r.0.stage == MaterializeStage::FetchingBatch,
        r.0.queue@ == queue@,
        r.0.cursor == 0,
        r.0.tracks@.len() == 0,
        r.0.renderer_queue_item_id == old(sync).last_renderer_queue_item_id,
        r.0.renderer_track_id == old(sync).last_renderer_track_id,
        r.0.renderer_next_queue_item_id == old(sync).last_renderer_next_queue_item_id,
        r.0.renderer_next_track_id == old(sync).last_renderer_next_track_id,
        r.0.renderer_playing_state == old(sync).last_renderer_playing_state,
        r.0.renderer_max_audio_quality == old(sync).last_renderer_max_audio_quality,
        final(sync).last_load_attempt == old(sync).last_load_attempt,
        final(sync).last_remote_queue_state == old(sync).last_remote_queue_state,
{
}

/// A queue that is cleared is unshuffled next, and forgets its order.
pub proof fn law_a_cleared_queue_is_unshuffled(
    run: &mut MaterializeRun,
    sync: &mut QconnectRemoteSyncState,
    later: &mut MaterializeRun,
    then: &mut QconnectRemoteSyncState,
    now_ms: u64,
    cleared: Result<(), String>,
    unshuffled: Result<(), String>,
    r: RunStep,
    s: RunStep,
)
    requires
        old(run).stage == MaterializeStage::Clearing,
        call_ensures(
            MaterializeRun::step,
            (run, sync, now_ms, EngineReply::Done(cleared)),
            r,
        ),
        *old(later) == *final(run),
        *old(then) == *final(sync),
        call_ensures(
            MaterializeRun::step,
            (later, then, now_ms, EngineReply::Done(unshuffled)),
            s,
        ),
    ensures
        r == RunStep::Call(EngineCall::SetShuffle(false)),
        s matches RunStep::Finished(Ok(_)),
        final(then).last_materialized_start_index is None,
        final(then).last_materialized_core_shuffle_order is None,
        final(then).last_load_attempt == old(sync).last_load_attempt,
{
}

proof fn lemma_last_with_id(tracks: Seq<Track>, id: u64, from: int) -> (last: int)
    requires
        0 <= from < tracks.len(),
        tracks[from].id == id,
    ensures
        from <= last < tracks.len(),
        tracks[last].id == id,
        forall|j: int| last < j < tracks.len() ==> (#[trigger] tracks[j]).id != id,
    decreases tracks.len() - from,
{
    if forall|j: int| from < j < tracks.len() ==> (#[trigger] tracks[j]).id != id {
        from
    } else {
        let j = choose|j: int| from < j < tracks.len() && (#[trigger] tracks[j]).id == id;
        lemma_last_with_id(tracks, id, j)
    }
}

/// Where the batch brings every track of the queue, the engine's queue has one track
/// for each item, in the order of the items: the track at an index is that of the
/// item at it.
pub proof fn law_a_queue_keeps_its_order(
    run: &mut MaterializeRun,
    sync: &mut QconnectRemoteSyncState,
    now_ms: u64,
    tracks: Vec<Track>,
    r: RunStep,
)
    requires
        old(run).stage == MaterializeStage::FetchingBatch,
        old(run).cursor == 0,
        old(run).tracks@.len() == 0,
        old(run).queue.queue_items@.len() > 0,
        forall|i: int|
            0 <= i < old(run).queue.queue_items@.len() ==> exists|k: int|
                0 <= k < tracks@.len() && (#[trigger] tracks@[k]).id == (
                #[trigger] old(run).queue.queue_items@[i]).track_id,
        call_ensures(
            MaterializeRun::step,
            (run, sync, now_ms, EngineReply::Tracks(Ok(tracks))),
            r,
        ),
    ensures
        *final(sync) == *old(sync),
        final(run).tracks@.len() == old(run).queue.queue_items@.len(),
        forall|i: int|
            0 <= i < old(run).queue.queue_items@.len() ==> (#[trigger] final(run).tracks@[i]).id
                == old(run).queue.queue_items@[i].track_id,
        r == RunStep::Call(EngineCall::GetPlaybackState),
        final(run).stage == MaterializeStage::CheckingPlayback,
{
    let items = old(run).queue.queue_items@;
    let known = final(run).known@;
    assert forall|i: int| 0 <= i < items.len() implies known.contains_key(items[i].track_id)
        && known[items[i].track_id].id == (#[trigger] items[i]).track_id by {
        let id = items[i].track_id;
        let k = choose|k: int| 0 <= k < tracks@.len() && (#[trigger] tracks@[k]).id == id;
        let last = lemma_last_with_id(tracks@, id, k);
        assert(crate::renderer::is_queue_track_of(known[tracks@[last].id], tracks@[last]));
    }
    assert(final(run).cursor == items.len()) by {
        if final(run).cursor < items.len() {
            assert(known.contains_key(items[final(run).cursor as int].track_id));
        }
    }
    assert forall|i: int| 0 <= i < items.len() implies (#[trigger] final(run).tracks@[i]).id
        == items[i].track_id by {
        assert(known[items[i].track_id].id == items[i].track_id);
    }
}

/// A track that the batch did not bring is asked for, and joins the queue behind those
/// before it; where it cannot be had it is left out, and the items behind it follow in
/// their order all the same.
pub proof fn law_a_missing_track_joins_in_its_place(
    run: &mut MaterializeRun,
    sync: &mut QconnectRemoteSyncState,
    now_ms: u64,
    found: Result<Track, String>,
    r: RunStep,
)
    requires
        old(run).stage == MaterializeStage::Hydrating,
        old(run).cursor < old(run).queue.queue_items@.len(),
        call_ensures(MaterializeRun::step, (run, sync, now_ms, EngineReply::Track(found)), r),
    ensures
        ({
            let items = old(run).queue.queue_items@;
            let own = if found is Ok {
                1int
            } else {
                0
            };
            let base = old(run).tracks@.len() + own;
            let first = old(run).cursor + 1;
            &&& *final(sync) == *old(sync)
            &&& final(run).cursor >= first
            &&& final(run).tracks@.len() == base + (final(run).cursor - first)
            &&& final(run).tracks@.take(old(run).tracks@.len() as int) == old(run).tracks@
            &&& found matches Ok(track) ==> final(run).tracks@[base - 1].id == track.id
            &&& found is Err ==> final(run).known@ == old(run).known@
            &&& forall|i: int|
                first <= i < final(run).cursor ==> final(run).tracks@[base + i - first] == final(run).known@[(#[trigger] items[i]).track_id]
            &&& final(run).cursor < items.len() ==> r == RunStep::Call(
                EngineCall::FetchTrack(items[final(run).cursor as int].track_id),
            ) && !final(run).known@.contains_key(items[final(run).cursor as int].track_id)
            &&& final(run).cursor == items.len() && final(run).tracks@.len() == 0 ==> (
            r matches RunStep::Finished(Err(message)) && message@
                == "remote queue materialization produced zero playable tracks"@)
            &&& found is Ok ==> final(run).known@.contains_key(
                items[old(run).cursor as int].track_id,
            ) && final(run).known@[items[old(run).cursor as int].track_id] == final(run).tracks@[base - 1]
            &&& found is Ok ==> forall|id: u64|
                id != items[old(run).cursor as int].track_id ==> (#[trigger] final(run).known@.contains_key(id) == old(run).known@.contains_key(id)) && final(run).known@[id] == old(run).known@[id]
            &&& forall|i: int|
                first <= i < final(run).cursor ==> final(run).known@.contains_key(
                    (#[trigger] items[i]).track_id,
                )
            &&& final(run).cursor == items.len() && final(run).tracks@.len() > 0 ==> r
                == RunStep::Call(EngineCall::GetPlaybackState)
        }),
{
    if let Ok(track) = found {
        let next = choose|next: MaterializeRun|
            {
                &&& #[trigger] next.hydrates_to(*final(run), r)
                &&& next.took_track(*old(run), track)
            };
        assert(next.tracks@.take(old(run).tracks@.len() as int) =~= old(run).tracks@);
        assert(next.tracks@[next.tracks@.len() - 1].id == track.id);
        assert(final(run).tracks@.take(next.tracks@.len() as int) =~= next.tracks@);
        assert(final(run).tracks@.take(old(run).tracks@.len() as int) =~= next.tracks@.take(
            old(run).tracks@.len() as int,
        ));
        assert(final(run).tracks@[next.tracks@.len() - 1] == next.tracks@[next.tracks@.len() - 1]);
    } else {
        assert(final(run).tracks@.take(old(run).tracks@.len() as int) =~= old(run).tracks@);
    }
}

/// A batch that fails ends it; what plays is taken down, and nothing at all where no
/// track is loaded; and the places are then looked up in this very queue.
pub proof fn law_the_places_are_looked_up_in_this_queue(
    run: &mut MaterializeRun,
    sync: &mut QconnectRemoteSyncState,
    failing: &mut MaterializeRun,
    same: &mut QconnectRemoteSyncState,
    now_ms: u64,
    playback: PlaybackState,
    why: String,
    r: RunStep,
    failed: RunStep,
)
    requires
        old(run).stage == MaterializeStage::CheckingPlayback,
        call_ensures(MaterializeRun::step, (run, sync, now_ms, EngineReply::Playback(playback)), r),
        old(failing).stage == MaterializeStage::FetchingBatch,
        call_ensures(
            MaterializeRun::step,
            (failing, same, now_ms, EngineReply::Tracks(Err(why))),
            failed,
        ),
    ensures
        failed matches RunStep::Finished(Err(message)) && message@
            == "fetch tracks batch for remote queue: "@ + why@,
        *final(same) == *old(same),
        *final(sync) == *old(sync),
        final(run).playing_track is None <==> playback.track_id == 0,
        final(run).playing_track matches Some(id) ==> id == playback.track_id,
        final(run).tracks@ == old(run).tracks@,
        r matches RunStep::Call(
            EngineCall::ResolveQueue {
                queue,
                queue_item_id,
                track_id,
                next_queue_item_id,
                next_track_id,
            },
        ) && queue@ == old(run).queue@ && queue_item_id == old(run).renderer_queue_item_id
            && track_id == old(run).renderer_track_id && next_queue_item_id == old(run).renderer_next_queue_item_id && next_track_id == old(run).renderer_next_track_id,
{
}

/// The engine's queue is set to the tracks that were gathered, all of them, in their
/// order. It starts at the controller's selection; else where the cloud says the
/// renderer is; else just before where it says it goes next; else at what plays; else
/// at its head. Shuffle is on only with the cloud's own order.
pub proof fn law_a_queue_starts_where_it_should(
    run: &mut MaterializeRun,
    sync: &mut QconnectRemoteSyncState,
    now_ms: u64,
    start: Option<usize>,
    next_start: Option<usize>,
    order: Option<Vec<usize>>,
    r: RunStep,
)
    requires
        old(run).stage == MaterializeStage::Resolving,
        call_ensures(
            MaterializeRun::step,
            (run, sync, now_ms, EngineReply::Resolved { start, next_start, order }),
            r,
        ),
    ensures
        *final(sync) == *old(sync),
        final(run).start_index is Some,
        final(run).stage == MaterializeStage::SettingQueue,
        final(run).order is Some <==> order is Some,
        order is Some ==> final(run).order->0@ == order->0@,
        final(run).playing_track == old(run).playing_track,
        r matches RunStep::Call(
            EngineCall::SetQueueWithOrder { tracks, start_index, shuffle_enabled, order: sent },
        ) && tracks@ == old(run).tracks@ && start_index == final(run).start_index && (
        shuffle_enabled <==> old(run).queue.shuffle_mode && order is Some) && (sent is Some
            <==> order is Some) && (order is Some ==> sent->0@ == order->0@),
        ({
            let items = old(run).queue.queue_items@;
            let index = final(run).start_index->0 as int;
            let selected = old(run).queue.selected_queue_position matches Some(p) && p
                < items.len();
            &&& selected ==> index == old(run).queue.selected_queue_position->0
            &&& !selected && start is Some ==> index == start->0
            &&& !selected && start is None && next_start is Some ==> (index == next_start->0 - 1
                || index == 0 && next_start->0 == 0)
            &&& !selected && start is None && next_start is None ==> (if old(run).playing_track is Some && is_queued(items, old(run).playing_track->0) {
                items[index].track_id == old(run).playing_track->0 && forall|j: int|
                    0 <= j < index ==> (#[trigger] items[j]).track_id != old(run).playing_track->0
            } else {
                index == 0
            })
        }),
{
    let items = old(run).queue.queue_items@;
    assert(items.len() == old(run).queue.queue_items.len());
    if old(run).playing_track is Some && is_queued(items, old(run).playing_track->0) {
        assert(crate::materialize::has_track(items, old(run).playing_track->0));
    }
    if old(run).playing_track is Some && crate::materialize::has_track(
        items,
        old(run).playing_track->0,
    ) {
        assert(is_queued(items, old(run).playing_track->0));
    }
}

/// What plays here is not in the queue, or nothing plays.
pub open spec fn plays_elsewhere(run: MaterializeRun) -> bool {
    run.playing_track is None || !is_queued(run.queue.queue_items@, run.playing_track->0)
}

/// What plays is stale: it is in no queue, the cloud does not name it, and the session
/// does not play.
pub open spec fn plays_stale(run: MaterializeRun) -> bool {
    &&& run.playing_track is Some
    &&& plays_elsewhere(run)
    &&& run.renderer_track_id != run.playing_track
    &&& run.renderer_playing_state == Some(0i32) || run.renderer_playing_state == Some(1i32)
}

/// `id` is to be started: it was selected, or it heads a queue that replaced both what
/// plays here and what the cloud names; the session plays, and neither the cloud nor
/// the engine has it yet.
pub open spec fn is_to_start(run: MaterializeRun, id: u64) -> bool {
    let items = run.queue.queue_items@;
    let selected = run.queue.selected_queue_position matches Some(p) && p < items.len();
    &&& run.renderer_playing_state == Some(2i32)
    &&& run.renderer_track_id != Some(id)
    &&& run.playing_track != Some(id)
    &&& selected ==> items[run.queue.selected_queue_position->0 as int].track_id == id
    &&& !selected ==> {
        &&& plays_elsewhere(run)
        &&& run.renderer_track_id matches Some(named) && !is_queued(items, named)
        &&& items[run.start_index->0 as int].track_id == id
    }
}

/// A run goes on from its queue: stale playback is stopped first; then the track to
/// start is loaded from its beginning, unless a load of it is under way; and where
/// there is none it is done.
pub open spec fn goes_on(
    run: MaterializeRun,
    sync: QconnectRemoteSyncState,
    now_ms: u64,
    may_stop: bool,
    after: MaterializeRun,
    step: RunStep,
) -> bool {
    &&& may_stop && plays_stale(run) ==> step == RunStep::Call(EngineCall::Stop) && after.stage
        == MaterializeStage::Stopping
    &&& !(may_stop && plays_stale(run)) ==> {
        &&& step is Call ==> step == RunStep::Call(EngineCall::GetPlaybackState) && after.stage
            == MaterializeStage::Loading && is_to_start(run, after.load.track_id)
            && after.load.start_position_secs == 0 && !after.load.force
            && after.load.max_audio_quality == run.renderer_max_audio_quality
            && !loaded_lately(sync, after.load.track_id, now_ms)
        &&& step is Finished ==> (step matches RunStep::Finished(Ok(_))) && after.stage
            == MaterializeStage::Finished
        &&& forall|id: u64| #[trigger]
            is_to_start(run, id) && !loaded_lately(sync, id, now_ms) ==> step is Call
    }
}

/// A load of the track was registered in the last five seconds.
pub open spec fn loaded_lately(sync: QconnectRemoteSyncState, id: u64, now_ms: u64) -> bool {
    sync.last_load_attempt matches Some(a) && a.track_id == id && now_ms < a.at_ms + 5_000
}

/// A queue that was set is remembered with its start and its order. The cursor moves
/// to the start only where what plays is not in the queue; then, or at once, the run
/// goes on.
pub proof fn law_a_set_queue_is_remembered(
    run: &mut MaterializeRun,
    sync: &mut QconnectRemoteSyncState,
    now_ms: u64,
    outcome: Result<(), String>,
    r: RunStep,
)
    requires
        old(run).stage == MaterializeStage::SettingQueue,
        old(run).start_index matches Some(i) && i < old(run).queue.queue_items@.len(),
        call_ensures(MaterializeRun::step, (run, sync, now_ms, EngineReply::Done(outcome)), r),
    ensures
        final(sync).last_materialized_start_index == old(run).start_index,
        final(sync).last_materialized_core_shuffle_order is Some <==> old(run).order is Some,
        old(run).order is Some ==> final(sync).last_materialized_core_shuffle_order->0@ == old(run).order->0@,
        final(sync).last_load_attempt == old(sync).last_load_attempt,
        final(sync).last_applied_queue_state == old(sync).last_applied_queue_state,
        plays_elsewhere(*old(run)) ==> r == RunStep::Call(
            EngineCall::PlayIndex(old(run).start_index->0),
        ) && final(run).stage == MaterializeStage::MovingCursor,
        !plays_elsewhere(*old(run)) ==> goes_on(
            *old(run),
            *final(sync),
            now_ms,
            true,
            *final(run),
            r,
        ),
{
    lemma_same_words(*old(run));
    assert(old(run).queue.queue_items@.len() == old(run).queue.queue_items.len());
}

/// After the cursor, and after a stop, the run goes on; it stops once at most.
pub proof fn law_a_moved_cursor_goes_on(
    run: &mut MaterializeRun,
    sync: &mut QconnectRemoteSyncState,
    now_ms: u64,
    outcome: Result<(), String>,
    r: RunStep,
)
    requires
        old(run).stage == MaterializeStage::MovingCursor || old(run).stage
            == MaterializeStage::Stopping,
        old(run).start_index matches Some(i) && i < old(run).queue.queue_items@.len(),
        call_ensures(MaterializeRun::step, (run, sync, now_ms, EngineReply::Done(outcome)), r),
    ensures
        *final(sync) == *old(sync),
        goes_on(
            *old(run),
            *old(sync),
            now_ms,
            old(run).stage == MaterializeStage::MovingCursor,
            *final(run),
            r,
        ),
{
    lemma_same_words(*old(run));
    assert(old(run).queue.queue_items@.len() == old(run).queue.queue_items.len());
}

proof fn lemma_same_words(run: MaterializeRun)
    ensures
        forall|id: u64| #[trigger]
            crate::materialize::has_track(run.queue.queue_items@, id) == is_queued(
                run.queue.queue_items@,
                id,
            ),
        forall|id: u64| #[trigger]
            is_queued(run.queue.queue_items@, id) == crate::materialize::has_track(
                run.queue.queue_items@,
                id,
            ),
{
}

/// A version counts up by one in its minor part, and keeps its major one.
pub proof fn law_a_version_counts_up(version: QueueVersion, r: QueueVersion)
    requires
        call_ensures(QueueVersion::next_minor, (version,), r),
    ensures
        r.major == version.major,
        version.minor < u64::MAX ==> r.minor == version.minor + 1,
        version.minor == u64::MAX ==> r.minor == u64::MAX,
{
}

/// A queue is gathered item by item as far as the batch has its tracks, each as the batch
/// last has it; the first that it lacks is asked for.
pub proof fn law_a_queue_is_gathered_up_to_a_missing_track(
    run: &mut MaterializeRun,
    sync: &mut QconnectRemoteSyncState,
    now_ms: u64,
    tracks: Vec<Track>,
    r: RunStep,
    i: int,
    k: int,
)
    requires
        old(run).stage == MaterializeStage::FetchingBatch,
        old(run).cursor == 0,
        old(run).tracks@.len() == 0,
        old(run).queue.queue_items@.len() > 0,
        call_ensures(
            MaterializeRun::step,
            (run, sync, now_ms, EngineReply::Tracks(Ok(tracks))),
            r,
        ),
    ensures
        ({
            let items = old(run).queue.queue_items@;
            let stop = final(run).cursor as int;
            &&& stop <= items.len()
            &&& final(run).tracks@.len() == stop
            &&& (0 <= i < stop && 0 <= k < tracks@.len() && tracks@[k].id == items[i].track_id
                && forall|j: int|
                k < j < tracks@.len() ==> (#[trigger] tracks@[j]).id != items[i].track_id) ==> {
                &&& final(run).tracks@[i].id == tracks@[k].id
                &&& final(run).tracks@[i].title@ == tracks@[k].title@
                &&& final(run).tracks@[i].duration_secs == tracks@[k].duration
            }
            &&& stop < items.len() ==> r == RunStep::Call(
                EngineCall::FetchTrack(items[stop].track_id),
            ) && final(run).stage == MaterializeStage::Hydrating
            &&& stop < items.len() && 0 <= k < tracks@.len() ==> tracks@[k].id
                != items[stop].track_id
            &&& stop == items.len() ==> r == RunStep::Call(EngineCall::GetPlaybackState)
        }),
        *final(sync) == *old(sync),
{
    let items = old(run).queue.queue_items@;
    let known = final(run).known@;
    let stop = final(run).cursor as int;
    if 0 <= i < stop && 0 <= k < tracks@.len() && tracks@[k].id == items[i].track_id
        && forall|j: int|
        k < j < tracks@.len() ==> (#[trigger] tracks@[j]).id != items[i].track_id {
        assert(crate::renderer::is_queue_track_of(known[tracks@[k].id], tracks@[k]));
        assert(final(run).tracks@[i] == known[items[i].track_id]);
    }
    if stop < items.len() && 0 <= k < tracks@.len() {
        if tracks@[k].id == items[stop].track_id {
            assert(known.contains_key(tracks@[k].id));
        }
    }
}

/// On its way a run keeps what it was given: the queue, and what is known of the renderer.
/// It is over where it says so.
pub proof fn law_a_run_keeps_what_it_was_given(
    run: &mut MaterializeRun,
    sync: &mut QconnectRemoteSyncState,
    now_ms: u64,
    reply: EngineReply,
    r: RunStep,
)
    requires
        call_ensures(MaterializeRun::step, (run, sync, now_ms, reply), r),
    ensures
        final(run).queue@ == old(run).queue@,
        final(run).queue.queue_items@ == old(run).queue.queue_items@,
        final(run).renderer_queue_item_id == old(run).renderer_queue_item_id,
        final(run).renderer_track_id == old(run).renderer_track_id,
        final(run).renderer_next_queue_item_id == old(run).renderer_next_queue_item_id,
        final(run).renderer_next_track_id == old(run).renderer_next_track_id,
        final(run).renderer_playing_state == old(run).renderer_playing_state,
        final(run).renderer_max_audio_quality == old(run).renderer_max_audio_quality,
        r is Finished <==> final(run).stage == MaterializeStage::Finished,
{
}

/// The track that a queue starts with is loaded as any other: there is nothing to load of
/// the one that plays; another is registered and looked up, and its stream is asked for.
/// What came of it is what came of the run.
pub proof fn law_a_queue_loads_its_start(
    run: &mut MaterializeRun,
    sync: &mut QconnectRemoteSyncState,
    now_ms: u64,
    reply: EngineReply,
    r: RunStep,
)
    requires
        old(run).stage == MaterializeStage::Loading,
        !old(run).load.force,
        reply is Playback || reply is Track || reply is Done,
        call_ensures(MaterializeRun::step, (run, sync, now_ms, reply), r),
    ensures
        reply matches EngineReply::Playback(p) ==> {
            &&& p.track_id == old(run).load.track_id ==> (r matches RunStep::Finished(Ok(_)))
                && *final(sync) == *old(sync)
            &&& p.track_id != old(run).load.track_id ==> r == RunStep::Call(
                EngineCall::FetchTrack(old(run).load.track_id),
            ) && (final(sync).last_load_attempt matches Some(a) && a.track_id == old(run).load.track_id && a.at_ms == now_ms) && final(sync).last_applied_queue_state == old(sync).last_applied_queue_state && final(run).stage == MaterializeStage::Loading
        },
        reply matches EngineReply::Track(found) ==> *final(sync) == *old(sync) && (
        r matches RunStep::Call(
            EngineCall::StartStream {
                track_id,
                max_audio_quality,
                duration_secs,
                start_position_secs,
            },
        ) && track_id == old(run).load.track_id && max_audio_quality == old(run).load.max_audio_quality && start_position_secs == old(run).load.start_position_secs && (
        found matches Ok(track) ==> duration_secs == track.duration) && (found is Err
            ==> duration_secs == 0)),
        reply matches EngineReply::Done(outcome) ==> {
            &&& *final(sync) == *old(sync)
            &&& outcome is Ok ==> (r matches RunStep::Finished(Ok(_)))
            &&& outcome matches Err(why) ==> r == RunStep::Finished(Err(why))
        },
{
    match reply {
        EngineReply::Track(found) => {
            match found {
                Ok(track) => {},
                Err(why) => {},
            }
        },
        _ => {},
    }
}

} // verus!
