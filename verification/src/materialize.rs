//! How a cloud queue snapshot becomes the engine's queue.

use std::collections::HashMap;
use vstd::prelude::*;
use vstd::string::*;

use crate::queue::{copy_opt_vec, QConnectQueueState, QueueItem};
use crate::renderer::{
    ensure_remote_track_loaded, model_track_to_core_queue_track,
    queue_state_needs_materialization, RemoteLoad, RemoteLoadStage, RemoteLoadStep,
    PLAYING_STATE_PLAYING, PLAYING_STATE_STOPPED, PLAYING_STATE_UNKNOWN,
};
use crate::renderer_model::{
    EngineCall, EngineReply, PlaybackState, QconnectRemoteSyncState, QueueTrack, RunStep, Track,
};

verus! {

broadcast use vstd::std_specs::hash::group_hash_axioms;

/// The track ids of queue items, each once, in the order they first occur.
pub open spec fn distinct_ids(items: Seq<QueueItem>) -> Seq<u64>
    decreases items.len(),
{
    if items.len() == 0 {
        Seq::empty()
    } else {
        let before = distinct_ids(items.drop_last());
        if before.contains(items.last().track_id) {
            before
        } else {
            before.push(items.last().track_id)
        }
    }
}

/// The distinct track ids of a queue.
pub fn dedupe_track_ids(items: &Vec<QueueItem>) -> (r: Vec<u64>)
    ensures
        r@ == distinct_ids(items@),
{
    let mut out: Vec<u64> = Vec::new();
    let mut i: usize = 0;
    assert(items@.take(0) =~= Seq::<QueueItem>::empty());
    while i < items.len()
        invariant
            i <= items@.len(),
            out@ == distinct_ids(items@.take(i as int)),
        decreases items@.len() - i,
    {
        let id: u64 = items[i].track_id;
        let mut seen: bool = false;
        let mut j: usize = 0;
        while j < out.len() && !seen
            invariant
                j <= out@.len(),
                seen ==> out@.contains(id),
                !seen ==> forall|k: int| 0 <= k < j ==> out@[k] != id,
            decreases out@.len() - j + (if seen { 0int } else { 1 }),
        {
            if out[j] == id {
                seen = true;
                assert(out@[j as int] == id);
            } else {
                j = j + 1;
            }
        }
        proof {
            assert(items@.take(i + 1).drop_last() =~= items@.take(i as int));
        }
        if !seen {
            assert(!out@.contains(id));
            out.push(id);
        }
        i = i + 1;
    }
    assert(items@.take(items@.len() as int) =~= items@);
    out
}

/// Some item of the queue is `track_id`.
pub open spec fn has_track(items: Seq<QueueItem>, track_id: u64) -> bool {
    exists|i: int| 0 <= i < items.len() && (#[trigger] items[i]).track_id == track_id
}

/// The first item of the queue that is `track_id`.
pub open spec fn is_first_item(items: Seq<QueueItem>, track_id: u64, i: int) -> bool {
    &&& 0 <= i < items.len()
    &&& items[i].track_id == track_id
    &&& forall|j: int| 0 <= j < i ==> (#[trigger] items[j]).track_id != track_id
}

/// The index of the first item that is `track_id`.
pub fn position_of(items: &Vec<QueueItem>, track_id: u64) -> (r: Option<usize>)
    ensures
        r is Some <==> has_track(items@, track_id),
        r matches Some(i) ==> is_first_item(items@, track_id, i as int),
{
    let mut i: usize = 0;
    while i < items.len()
        invariant
            i <= items@.len(),
            forall|j: int| 0 <= j < i ==> (#[trigger] items@[j]).track_id != track_id,
        decreases items@.len() - i,
    {
        if items[i].track_id == track_id {
            return Some(i);
        }
        i = i + 1;
    }
    None
}

/// `known` holds exactly the tracks fetched, each as a queue track; of two with
/// one id the later counts.
pub open spec fn holds_tracks(known: Map<u64, QueueTrack>, tracks: Seq<Track>) -> bool {
    &&& forall|id: u64| #[trigger]
        known.contains_key(id) <==> exists|i: int|
            0 <= i < tracks.len() && (#[trigger] tracks[i]).id == id
    &&& forall|i: int|
        0 <= i < tracks.len() && (forall|j: int|
            i < j < tracks.len() ==> (#[trigger] tracks[j]).id != tracks[i].id)
            ==> #[trigger] crate::renderer::is_queue_track_of(known[tracks[i].id], tracks[i])
}

fn index_tracks(tracks: &Vec<Track>) -> (r: HashMap<u64, QueueTrack>)
    ensures
        holds_tracks(r@, tracks@),
{
    let mut known: HashMap<u64, QueueTrack> = HashMap::new();
    let mut i: usize = 0;
    while i < tracks.len()
        invariant
            i <= tracks@.len(),
            holds_tracks(known@, tracks@.take(i as int)),
        decreases tracks@.len() - i,
    {
        let ghost before = known@;
        let ghost done = tracks@.take(i as int);
        let ghost more = tracks@.take(i + 1);
        let mapped = model_track_to_core_queue_track(&tracks[i]);
        known.insert(tracks[i].id, mapped);
        proof {
            let id = tracks@[i as int].id;
            assert(more.len() == done.len() + 1);
            assert(more[i as int] == tracks@[i as int]);
            assert forall|k: u64| #[trigger]
                known@.contains_key(k) <==> exists|a: int|
                    0 <= a < more.len() && (#[trigger] more[a]).id == k by {
                if known@.contains_key(k) {
                    if k == id {
                        assert(more[i as int].id == k);
                    } else {
                        assert(before.contains_key(k));
                        let a = choose|a: int| 0 <= a < done.len() && (#[trigger] done[a]).id == k;
                        assert(more[a].id == k);
                    }
                }
                if exists|a: int| 0 <= a < more.len() && (#[trigger] more[a]).id == k {
                    let a = choose|a: int| 0 <= a < more.len() && (#[trigger] more[a]).id == k;
                    if a < i {
                        assert(done[a].id == k);
                        assert(before.contains_key(k));
                    }
                }
            }
            assert forall|a: int|
                0 <= a < more.len() && (forall|b: int|
                    a < b < more.len() ==> (#[trigger] more[b]).id
                        != more[a].id) implies #[trigger] crate::renderer::is_queue_track_of(
                known@[more[a].id],
                more[a],
            ) by {
                if a < i {
                    assert(more[i as int].id != more[a].id);
                    assert(done[a] == more[a]);
                    assert forall|b: int| a < b < done.len() implies (#[trigger] done[b]).id
                        != done[a].id by {
                        assert(done[b] == more[b]);
                    }
                    assert(crate::renderer::is_queue_track_of(before[done[a].id], done[a]));
                }
            }
        }
        i = i + 1;
    }
    assert(tracks@.take(tracks@.len() as int) =~= tracks@);
    known
}

/// Where a materialization stands.
#[derive(Debug, Clone, Copy, PartialEq, Eq, Structural)]
pub enum MaterializeStage {
    /// Waiting for the engine's queue to be cleared.
    Clearing,
    /// Waiting for the engine's shuffle to be switched off.
    Unshuffling,
    /// Waiting for the queue's tracks, fetched at once.
    FetchingBatch,
    /// Waiting for a track that the batch did not bring.
    Hydrating,
    /// Waiting for the engine's playback state.
    CheckingPlayback,
    /// Waiting for the start index and the play order to be resolved.
    Resolving,
    /// Waiting for the engine's queue to be set.
    SettingQueue,
    /// Waiting for the cursor to move.
    MovingCursor,
    /// Waiting for stale playback to stop.
    Stopping,
    /// Loading the track to start with.
    Loading,
    Finished,
}

/// A cloud queue on its way into the engine.
pub struct MaterializeRun {
    pub stage: MaterializeStage,
    pub queue: QConnectQueueState,
    /// The cloud's view of this renderer when the queue arrived.
    pub renderer_queue_item_id: Option<u64>,
    pub renderer_track_id: Option<u64>,
    pub renderer_next_queue_item_id: Option<u64>,
    pub renderer_next_track_id: Option<u64>,
    pub renderer_playing_state: Option<i32>,
    pub renderer_max_audio_quality: Option<i32>,
    /// Tracks known by id.
    pub known: HashMap<u64, QueueTrack>,
    /// The engine's queue so far.
    pub tracks: Vec<QueueTrack>,
    /// The queue item being hydrated.
    pub cursor: usize,
    /// What the engine is playing.
    pub playing_track: Option<u64>,
    pub start_index: Option<usize>,
    pub order: Option<Vec<usize>>,
    pub load: RemoteLoad,
}

/// What `items[from..to]` are, by their ids.
pub open spec fn hydrated(
    items: Seq<QueueItem>,
    known: Map<u64, QueueTrack>,
    from: int,
    to: int,
) -> Seq<QueueTrack> {
    Seq::new((to - from) as nat, |k: int| known[items[from + k].track_id])
}

impl MaterializeRun {
    /// The queue being built and the renderer's view are the same in `other`.
    pub open spec fn same_input(self, other: MaterializeRun) -> bool {
        &&& self.queue@ == other.queue@
        &&& self.queue.queue_items@ == other.queue.queue_items@
        &&& self.renderer_queue_item_id == other.renderer_queue_item_id
        &&& self.renderer_track_id == other.renderer_track_id
        &&& self.renderer_next_queue_item_id == other.renderer_next_queue_item_id
        &&& self.renderer_next_track_id == other.renderer_next_track_id
        &&& self.renderer_playing_state == other.renderer_playing_state
        &&& self.renderer_max_audio_quality == other.renderer_max_audio_quality
    }

    /// The run is consistent: its cursor lies in the queue, and what it is to
    /// start with does too.
    pub open spec fn wf(self) -> bool {
        &&& self.cursor <= self.queue.queue_items@.len()
        &&& self.stage == MaterializeStage::Hydrating ==> self.cursor
            < self.queue.queue_items@.len()
        &&& (self.stage == MaterializeStage::FetchingBatch || self.stage
            == MaterializeStage::CheckingPlayback || self.stage == MaterializeStage::Resolving)
            ==> self.queue.queue_items@.len() > 0
        &&& (self.stage == MaterializeStage::SettingQueue || self.stage
            == MaterializeStage::MovingCursor || self.stage == MaterializeStage::Stopping) ==> (
        self.start_index matches Some(i) && i < self.queue.queue_items@.len())
    }

    /// The items from the cursor on have been turned into tracks as far as
    /// they are known, up to the first that is not.
    pub open spec fn hydrates_to(self, after: MaterializeRun, step: RunStep) -> bool {
        let items = self.queue.queue_items@;
        let stop = after.cursor as int;
        &&& self.cursor <= stop <= items.len()
        &&& forall|k: int|
            self.cursor <= k < stop ==> self.known@.contains_key((#[trigger] items[k]).track_id)
        &&& after.tracks@ == self.tracks@ + hydrated(items, self.known@, self.cursor as int, stop)
        &&& after.known@ == self.known@
        &&& after.same_input(self)
        &&& after.playing_track == self.playing_track
        &&& after.start_index == self.start_index
        &&& after.order == self.order
        &&& after.load == self.load
        &&& if stop < items.len() {
            &&& !self.known@.contains_key(items[stop].track_id)
            &&& after.stage == MaterializeStage::Hydrating
            &&& step == RunStep::Call(EngineCall::FetchTrack(items[stop].track_id))
        } else if after.tracks@.len() == 0 {
            &&& after.stage == MaterializeStage::Finished
            &&& step matches RunStep::Finished(Err(message)) && message@
                == "remote queue materialization produced zero playable tracks"@
        } else {
            &&& after.stage == MaterializeStage::CheckingPlayback
            &&& step == RunStep::Call(EngineCall::GetPlaybackState)
        }
    }

    fn hydrate(&mut self) -> (r: RunStep)
        requires
            old(self).cursor <= old(self).queue.queue_items@.len(),
            old(self).queue.queue_items@.len() > 0,
        ensures
            old(self).hydrates_to(*final(self), r),
            final(self).wf(),
    {
        let ghost start = *self;
        let ghost items = self.queue.queue_items@;
        while self.cursor < self.queue.queue_items.len()
            invariant
                start == *old(self),
                items == start.queue.queue_items@,
                items.len() > 0,
                start.cursor <= self.cursor <= items.len(),
                (*self) == (MaterializeRun {
                    tracks: self.tracks,
                    cursor: self.cursor,
                    stage: self.stage,
                    ..start
                }),
                forall|k: int|
                    start.cursor <= k < self.cursor ==> start.known@.contains_key(
                        (#[trigger] items[k]).track_id,
                    ),
                self.tracks@ == start.tracks@ + hydrated(
                    items,
                    start.known@,
                    start.cursor as int,
                    self.cursor as int,
                ),
            decreases items.len() - self.cursor,
        {
            let id: u64 = self.queue.queue_items[self.cursor].track_id;
            match self.known.get(&id) {
                Some(track) => {
                    let copied = track.copy();
                    self.tracks.push(copied);
                    self.cursor = self.cursor + 1;
                    assert(self.tracks@ =~= start.tracks@ + hydrated(
                        items,
                        start.known@,
                        start.cursor as int,
                        self.cursor as int,
                    ));
                },
                None => {
                    self.stage = MaterializeStage::Hydrating;
                    return RunStep::Call(EngineCall::FetchTrack(id));
                },
            }
        }
        if self.tracks.len() == 0 {
            self.stage = MaterializeStage::Finished;
            return RunStep::Finished(
                Err(
                    String::from_str(
                        "remote queue materialization produced zero playable tracks",
                    ),
                ),
            );
        }
        self.stage = MaterializeStage::CheckingPlayback;
        RunStep::Call(EngineCall::GetPlaybackState)
    }

    /// The entry the controller selected with this queue.
    pub open spec fn selected(self) -> Option<usize> {
        match self.queue.selected_queue_position {
            Some(position) => if position < self.queue.queue_items@.len() {
                Some(position as usize)
            } else {
                None
            },
            None => None,
        }
    }

    fn selected_index(&self) -> (r: Option<usize>)
        ensures
            r == self.selected(),
    {
        match self.queue.selected_queue_position {
            Some(position) => {
                let len: usize = self.queue.queue_items.len();
                if position < len as u64 {
                    Some(position as usize)
                } else {
                    None
                }
            },
            None => None,
        }
    }

    /// Where the engine's queue starts: at the controller's selection, else at
    /// the renderer's current entry, else just before its next one, else at
    /// the track that is playing, else at the head.
    pub open spec fn starts_at(
        self,
        start: Option<usize>,
        next_start: Option<usize>,
        index: int,
    ) -> bool {
        let items = self.queue.queue_items@;
        if self.selected() is Some {
            index == self.selected()->0
        } else if start is Some {
            index == start->0
        } else if next_start is Some {
            index == (if next_start->0 == 0 {
                0int
            } else {
                next_start->0 - 1
            })
        } else if self.playing_track is Some && has_track(items, self.playing_track->0) {
            is_first_item(items, self.playing_track->0, index)
        } else {
            index == 0
        }
    }

    fn choose_start(&self, start: Option<usize>, next_start: Option<usize>) -> (r: usize)
        ensures
            self.starts_at(start, next_start, r as int),
    {
        if let Some(index) = self.selected_index() {
            return index;
        }
        if let Some(index) = start {
            return index;
        }
        if let Some(index) = next_start {
            return index.saturating_sub(1);
        }
        if let Some(track_id) = self.playing_track {
            if let Some(index) = position_of(&self.queue.queue_items, track_id) {
                return index;
            }
        }
        0
    }

    /// What is playing locally is not in the cloud queue, or nothing plays.
    pub open spec fn local_missing(self) -> bool {
        self.playing_track matches Some(id) ==> !has_track(self.queue.queue_items@, id)
    }

    fn is_local_missing(&self) -> (r: bool)
        ensures
            r == self.local_missing(),
    {
        match self.playing_track {
            Some(id) => position_of(&self.queue.queue_items, id).is_none(),
            None => true,
        }
    }

    /// What is playing locally is a leftover that nobody asks for any more.
    pub open spec fn stops_stale(self) -> bool {
        &&& self.playing_track is Some
        &&& self.playing_track != self.renderer_track_id
        &&& self.local_missing()
        &&& self.renderer_playing_state == Some(PLAYING_STATE_STOPPED)
            || self.renderer_playing_state == Some(PLAYING_STATE_UNKNOWN)
    }

    /// The entry to start playing, when nothing else will: the controller's
    /// selection, or the start of a queue that holds neither what plays here
    /// nor what the cloud says plays here.
    pub open spec fn start_target(self) -> Option<usize> {
        if self.selected() is Some {
            self.selected()
        } else if self.local_missing() && (self.renderer_track_id matches Some(id) && !has_track(
            self.queue.queue_items@,
            id,
        )) {
            self.start_index
        } else {
            None
        }
    }

    /// The track to start playing. Not when the cloud's own view already names
    /// it (the state frame that follows owns that load and knows its
    /// position), not when it plays already, and only while the session plays.
    pub open spec fn starts_track(self) -> Option<u64> {
        match self.start_target() {
            Some(index) => {
                let id = self.queue.queue_items@[index as int].track_id;
                if self.renderer_track_id != Some(id) && self.playing_track != Some(id)
                    && self.renderer_playing_state == Some(PLAYING_STATE_PLAYING) {
                    Some(id)
                } else {
                    None
                }
            },
            None => None,
        }
    }

    fn track_to_start(&self) -> (r: Option<u64>)
        requires
            self.start_index matches Some(i) && i < self.queue.queue_items@.len(),
        ensures
            r == self.starts_track(),
    {
        let target: Option<usize> = match self.selected_index() {
            Some(index) => Some(index),
            None => {
                let renderer_missing = match self.renderer_track_id {
                    Some(id) => position_of(&self.queue.queue_items, id).is_none(),
                    None => false,
                };
                if renderer_missing && self.is_local_missing() {
                    self.start_index
                } else {
                    None
                }
            },
        };
        match target {
            Some(index) => {
                let id: u64 = self.queue.queue_items[index].track_id;
                let named = match self.renderer_track_id {
                    Some(t) => t == id,
                    None => false,
                };
                let playing = match self.playing_track {
                    Some(t) => t == id,
                    None => false,
                };
                let session_plays = match self.renderer_playing_state {
                    Some(value) => value == PLAYING_STATE_PLAYING,
                    None => false,
                };
                if !named && !playing && session_plays {
                    Some(id)
                } else {
                    None
                }
            },
            None => None,
        }
    }

    /// How the last part goes: the load of the track to start with, from its
    /// beginning, or the end.
    pub open spec fn load_begins(
        self,
        after: MaterializeRun,
        sync: QconnectRemoteSyncState,
        now_ms: u64,
        step: RunStep,
    ) -> bool {
        match self.starts_track() {
            Some(track_id) => {
                let recent = crate::renderer::recent_load(sync, track_id, now_ms);
                &&& after.load == (RemoteLoad {
                    track_id,
                    max_audio_quality: self.renderer_max_audio_quality,
                    start_position_secs: 0,
                    force: false,
                    stage: if recent {
                        RemoteLoadStage::Settled
                    } else {
                        RemoteLoadStage::CheckingPlayback
                    },
                })
                &&& after == (MaterializeRun { stage: after.stage, load: after.load, ..self })
                &&& if recent {
                    after.stage == MaterializeStage::Finished && step == RunStep::Finished(Ok(()))
                } else {
                    after.stage == MaterializeStage::Loading && step == RunStep::Call(
                        EngineCall::GetPlaybackState,
                    )
                }
            },
            None => {
                &&& after == (MaterializeRun { stage: MaterializeStage::Finished, ..self })
                &&& step == RunStep::Finished(Ok(()))
            },
        }
    }

    fn enter_load(&mut self, sync: &QconnectRemoteSyncState, now_ms: u64) -> (r: RunStep)
        requires
            old(self).start_index matches Some(i) && i < old(self).queue.queue_items@.len(),
            old(self).cursor <= old(self).queue.queue_items@.len(),
        ensures
            old(self).load_begins(*final(self), *sync, now_ms, r),
            final(self).wf(),
    {
        match self.track_to_start() {
            Some(track_id) => {
                let (load, first) = ensure_remote_track_loaded(
                    sync,
                    now_ms,
                    track_id,
                    self.renderer_max_audio_quality,
                    0,
                );
                self.load = load;
                match first {
                    RemoteLoadStep::Call(call) => {
                        self.stage = MaterializeStage::Loading;
                        RunStep::Call(call)
                    },
                    RemoteLoadStep::Settled(_) => {
                        self.stage = MaterializeStage::Finished;
                        RunStep::Finished(Ok(()))
                    },
                }
            },
            None => {
                self.stage = MaterializeStage::Finished;
                RunStep::Finished(Ok(()))
            },
        }
    }

    /// How a reply takes the load further: its next call, with all else as it
    /// was, or the end of the run with what became of the load.
    pub open spec fn load_goes_on(
        self,
        after: MaterializeRun,
        before_sync: QconnectRemoteSyncState,
        after_sync: QconnectRemoteSyncState,
        now_ms: u64,
        reply: EngineReply,
        step: RunStep,
    ) -> bool {
        match step {
            RunStep::Call(call) => {
                &&& after == (MaterializeRun { load: after.load, ..self })
                &&& self.load.steps_to(
                    after.load,
                    before_sync,
                    after_sync,
                    now_ms,
                    reply,
                    RemoteLoadStep::Call(call),
                )
            },
            RunStep::Finished(result) => {
                &&& after == (MaterializeRun {
                    stage: MaterializeStage::Finished,
                    load: after.load,
                    ..self
                })
                &&& match result {
                    Err(why) => self.load.steps_to(
                        after.load,
                        before_sync,
                        after_sync,
                        now_ms,
                        reply,
                        RemoteLoadStep::Settled(Err(why)),
                    ),
                    Ok(_) => exists|started: bool|
                        #[trigger] self.load.steps_to(
                            after.load,
                            before_sync,
                            after_sync,
                            now_ms,
                            reply,
                            RemoteLoadStep::Settled(Ok(started)),
                        ),
                }
            },
        }
    }

    /// How the part behind the cursor goes: stale playback is stopped first.
    pub open spec fn stop_begins(
        self,
        after: MaterializeRun,
        sync: QconnectRemoteSyncState,
        now_ms: u64,
        step: RunStep,
    ) -> bool {
        if self.stops_stale() {
            &&& after == (MaterializeRun { stage: MaterializeStage::Stopping, ..self })
            &&& step == RunStep::Call(EngineCall::Stop)
        } else {
            self.load_begins(after, sync, now_ms, step)
        }
    }

    fn enter_stop(&mut self, sync: &QconnectRemoteSyncState, now_ms: u64) -> (r: RunStep)
        requires
            old(self).start_index matches Some(i) && i < old(self).queue.queue_items@.len(),
            old(self).cursor <= old(self).queue.queue_items@.len(),
        ensures
            old(self).stop_begins(*final(self), *sync, now_ms, r),
            final(self).wf(),
    {
        let names_it = match (self.playing_track, self.renderer_track_id) {
            (Some(a), Some(b)) => a == b,
            _ => false,
        };
        let idle = match self.renderer_playing_state {
            Some(value) => value == PLAYING_STATE_STOPPED || value == PLAYING_STATE_UNKNOWN,
            None => false,
        };
        if self.playing_track.is_some() && !names_it && idle && self.is_local_missing() {
            self.stage = MaterializeStage::Stopping;
            return RunStep::Call(EngineCall::Stop);
        }
        self.enter_load(sync, now_ms)
    }

    /// Whether `reply` is what the stage waits for. Indices that a resolution
    /// hands in lie in the queue.
    pub open spec fn awaits(self, reply: EngineReply) -> bool {
        match self.stage {
            MaterializeStage::Clearing => reply is Done,
            MaterializeStage::Unshuffling => reply is Done,
            MaterializeStage::FetchingBatch => reply is Tracks,
            MaterializeStage::Hydrating => reply is Track,
            MaterializeStage::CheckingPlayback => reply is Playback,
            MaterializeStage::Resolving => {
                &&& reply is Resolved
                &&& reply->Resolved_start matches Some(i) ==> i < self.queue.queue_items@.len()
                &&& reply->next_start matches Some(i) ==> i < self.queue.queue_items@.len()
            },
            MaterializeStage::SettingQueue => reply is Done,
            MaterializeStage::MovingCursor => reply is Done,
            MaterializeStage::Stopping => reply is Done,
            MaterializeStage::Loading => self.load.awaits(reply),
            MaterializeStage::Finished => false,
        }
    }

    /// A bound on the replies the run can still take in.
    pub open spec fn steps_left(self) -> nat {
        match self.stage {
            MaterializeStage::Clearing => 2,
            MaterializeStage::Unshuffling => 1,
            MaterializeStage::FetchingBatch => 21 + self.queue.queue_items@.len(),
            MaterializeStage::Hydrating => (20 + self.queue.queue_items@.len()
                - self.cursor) as nat,
            MaterializeStage::CheckingPlayback => 15,
            MaterializeStage::Resolving => 14,
            MaterializeStage::SettingQueue => 13,
            MaterializeStage::MovingCursor => 12,
            MaterializeStage::Stopping => 11,
            MaterializeStage::Loading => self.load.steps_left(),
            MaterializeStage::Finished => 0,
        }
    }

    /// Take in a reply and decide the next call.
    pub fn step(
        &mut self,
        sync: &mut QconnectRemoteSyncState,
        now_ms: u64,
        reply: EngineReply,
    ) -> (r: RunStep)
        requires
            old(self).wf(),
            old(self).awaits(reply),
        ensures
            final(self).wf(),
            final(self).same_input(*old(self)),
            r is Finished <==> final(self).stage == MaterializeStage::Finished,
            final(self).steps_left() < old(self).steps_left(),
            match old(self).stage {
                MaterializeStage::Clearing => {
                    &&& r == RunStep::Call(EngineCall::SetShuffle(false))
                    &&& (*final(self)) == (MaterializeRun {
                        stage: MaterializeStage::Unshuffling,
                        ..*old(self)
                    })
                    &&& *final(sync) == *old(sync)
                },
                MaterializeStage::Unshuffling => {
                    &&& r == RunStep::Finished(Ok(()))
                    &&& (*final(sync)) == (QconnectRemoteSyncState {
                        last_materialized_start_index: None,
                        last_materialized_core_shuffle_order: None,
                        ..*old(sync)
                    })
                },
                MaterializeStage::FetchingBatch => {
                    &&& *final(sync) == *old(sync)
                    &&& match reply->Tracks_0 {
                        Err(why) => r matches RunStep::Finished(Err(message)) && message@
                            == "fetch tracks batch for remote queue: "@ + why@,
                        Ok(tracks) => {
                            &&& holds_tracks(final(self).known@, tracks@)
                            &&& (MaterializeRun {
                                known: final(self).known,
                                ..*old(self)
                            }).hydrates_to(*final(self), r)
                        },
                    }
                },
                MaterializeStage::Hydrating => {
                    let items = old(self).queue.queue_items@;
                    &&& *final(sync) == *old(sync)
                    &&& match reply->Track_0 {
                        Ok(track) => exists|next: MaterializeRun|
                            {
                                &&& #[trigger] next.hydrates_to(*final(self), r)
                                &&& next.took_track(*old(self), track)
                            },
                        Err(_) => (MaterializeRun {
                            cursor: (old(self).cursor + 1) as usize,
                            ..*old(self)
                        }).hydrates_to(*final(self), r),
                    }
                },
                MaterializeStage::CheckingPlayback => {
                    &&& *final(sync) == *old(sync)
                    &&& (*final(self)) == (MaterializeRun {
                        stage: MaterializeStage::Resolving,
                        playing_track: if reply->Playback_0.track_id == 0 {
                            None
                        } else {
                            Some(reply->Playback_0.track_id)
                        },
                        ..*old(self)
                    })
                    &&& r matches RunStep::Call(
                        EngineCall::ResolveQueue {
                            queue,
                            queue_item_id,
                            track_id,
                            next_queue_item_id,
                            next_track_id,
                        },
                    ) && {
                        &&& queue@ == old(self).queue@
                        &&& queue_item_id == old(self).renderer_queue_item_id
                        &&& track_id == old(self).renderer_track_id
                        &&& next_queue_item_id == old(self).renderer_next_queue_item_id
                        &&& next_track_id == old(self).renderer_next_track_id
                    }
                },
                MaterializeStage::Resolving => {
                    let order = reply->Resolved_order;
                    &&& *final(sync) == *old(sync)
                    &&& (*final(self)) == (MaterializeRun {
                        stage: MaterializeStage::SettingQueue,
                        tracks: final(self).tracks,
                        start_index: final(self).start_index,
                        order: final(self).order,
                        ..*old(self)
                    })
                    &&& final(self).start_index is Some
                    &&& old(self).starts_at(
                        reply->Resolved_start,
                        reply->next_start,
                        final(self).start_index->0 as int,
                    )
                    &&& crate::queue::opt_seq(final(self).order) == crate::queue::opt_seq(order)
                    &&& r matches RunStep::Call(
                        EngineCall::SetQueueWithOrder {
                            tracks,
                            start_index,
                            shuffle_enabled,
                            order: sent,
                        },
                    ) && {
                        &&& tracks@ == old(self).tracks@
                        &&& start_index == final(self).start_index
                        &&& shuffle_enabled == (old(self).queue.shuffle_mode && order is Some)
                        &&& crate::queue::opt_seq(sent) == crate::queue::opt_seq(order)
                    }
                },
                MaterializeStage::SettingQueue => {
                    &&& (*final(sync)) == (QconnectRemoteSyncState {
                        last_materialized_start_index: old(self).start_index,
                        last_materialized_core_shuffle_order:
                            final(sync).last_materialized_core_shuffle_order,
                        ..*old(sync)
                    })
                    &&& crate::queue::opt_seq(final(sync).last_materialized_core_shuffle_order)
                        == crate::queue::opt_seq(old(self).order)
                    &&& if old(self).local_missing() {
                        &&& (*final(self)) == (MaterializeRun {
                            stage: MaterializeStage::MovingCursor,
                            ..*old(self)
                        })
                        &&& r == RunStep::Call(EngineCall::PlayIndex(old(self).start_index->0))
                    } else {
                        old(self).stop_begins(*final(self), *final(sync), now_ms, r)
                    }
                },
                MaterializeStage::MovingCursor => {
                    &&& *final(sync) == *old(sync)
                    &&& old(self).stop_begins(*final(self), *old(sync), now_ms, r)
                },
                MaterializeStage::Stopping => {
                    &&& *final(sync) == *old(sync)
                    &&& old(self).load_begins(*final(self), *old(sync), now_ms, r)
                },
                MaterializeStage::Loading => old(self).load_goes_on(
                    *final(self),
                    *old(sync),
                    *final(sync),
                    now_ms,
                    reply,
                    r,
                ),
                MaterializeStage::Finished => true,
            },
    {
        match self.stage {
            MaterializeStage::Clearing => {
                self.stage = MaterializeStage::Unshuffling;
                RunStep::Call(EngineCall::SetShuffle(false))
            },
            MaterializeStage::Unshuffling => {
                sync.last_materialized_start_index = None;
                sync.last_materialized_core_shuffle_order = None;
                self.stage = MaterializeStage::Finished;
                RunStep::Finished(Ok(()))
            },
            MaterializeStage::FetchingBatch => {
                match reply {
                    EngineReply::Tracks(Ok(tracks)) => {
                        self.known = index_tracks(&tracks);
                        self.hydrate()
                    },
                    EngineReply::Tracks(Err(why)) => {
                        self.stage = MaterializeStage::Finished;
                        let mut message = String::from_str(
                            "fetch tracks batch for remote queue: ",
                        );
                        message.append(why.as_str());
                        RunStep::Finished(Err(message))
                    },
                    _ => {
                        self.stage = MaterializeStage::Finished;
                        RunStep::Finished(Ok(()))
                    },
                }
            },
            MaterializeStage::Hydrating => {
                let count: usize = self.queue.queue_items.len();
                assert(self.cursor < count);
                if let EngineReply::Track(Ok(track)) = &reply {
                    let mapped = model_track_to_core_queue_track(track);
                    let id: u64 = self.queue.queue_items[self.cursor].track_id;
                    let copied = mapped.copy();
                    self.known.insert(id, mapped);
                    self.tracks.push(copied);
                }
                self.cursor = self.cursor + 1;
                let ghost next = *self;
                let r = self.hydrate();
                proof {
                    if let EngineReply::Track(Ok(track)) = reply {
                        assert(next.tracks@.drop_last() =~= old(self).tracks@);
                        assert(next.took_track(*old(self), track));
                        assert(next.hydrates_to(*self, r));
                    } else {
                        assert(next == (MaterializeRun {
                            cursor: (old(self).cursor + 1) as usize,
                            ..*old(self)
                        }));
                    }
                }
                r
            },
            MaterializeStage::CheckingPlayback => {
                if let EngineReply::Playback(playback) = reply {
                    self.playing_track = if playback.track_id == 0 {
                        None
                    } else {
                        Some(playback.track_id)
                    };
                }
                self.stage = MaterializeStage::Resolving;
                RunStep::Call(
                    EngineCall::ResolveQueue {
                        queue: self.queue.copy(),
                        queue_item_id: self.renderer_queue_item_id,
                        track_id: self.renderer_track_id,
                        next_queue_item_id: self.renderer_next_queue_item_id,
                        next_track_id: self.renderer_next_track_id,
                    },
                )
            },
            MaterializeStage::Resolving => {
                let (start, next_start, order): (
                    Option<usize>,
                    Option<usize>,
                    Option<Vec<usize>>,
                ) = match reply {
                    EngineReply::Resolved { start, next_start, order } => (
                        start,
                        next_start,
                        order,
                    ),
                    _ => (None, None, None),
                };
                let index: usize = self.choose_start(start, next_start);
                let shuffle_enabled = self.queue.shuffle_mode && order.is_some();
                let sent = copy_opt_vec(&order);
                let tracks = self.take_tracks();
                self.start_index = Some(index);
                self.order = order;
                self.stage = MaterializeStage::SettingQueue;
                RunStep::Call(
                    EngineCall::SetQueueWithOrder {
                        tracks,
                        start_index: Some(index),
                        shuffle_enabled,
                        order: sent,
                    },
                )
            },
            MaterializeStage::SettingQueue => {
                sync.last_materialized_start_index = self.start_index;
                sync.last_materialized_core_shuffle_order = copy_opt_vec(&self.order);
                if let Some(index) = self.start_index {
                    if self.is_local_missing() {
                        self.stage = MaterializeStage::MovingCursor;
                        return RunStep::Call(EngineCall::PlayIndex(index));
                    }
                }
                self.enter_stop(sync, now_ms)
            },
            MaterializeStage::MovingCursor => self.enter_stop(sync, now_ms),
            MaterializeStage::Stopping => self.enter_load(sync, now_ms),
            MaterializeStage::Loading => {
                let mut load = self.load;
                let next = load.step(sync, now_ms, reply);
                self.load = load;
                match next {
                    RemoteLoadStep::Call(call) => RunStep::Call(call),
                    RemoteLoadStep::Settled(Ok(_)) => {
                        self.stage = MaterializeStage::Finished;
                        RunStep::Finished(Ok(()))
                    },
                    RemoteLoadStep::Settled(Err(why)) => {
                        self.stage = MaterializeStage::Finished;
                        RunStep::Finished(Err(why))
                    },
                }
            },
            MaterializeStage::Finished => RunStep::Finished(Ok(())),
        }
    }

    /// This is `before` with `track` taken in for the item at its cursor.
    pub open spec fn took_track(self, before: MaterializeRun, track: Track) -> bool {
        let id = before.queue.queue_items@[before.cursor as int].track_id;
        &&& self.cursor == before.cursor + 1
        &&& self.tracks@.len() == before.tracks@.len() + 1
        &&& self.tracks@.drop_last() == before.tracks@
        &&& crate::renderer::is_queue_track_of(self.tracks@.last(), track)
        &&& self.known@ == before.known@.insert(id, self.tracks@.last())
        &&& self == (MaterializeRun {
            cursor: self.cursor,
            tracks: self.tracks,
            known: self.known,
            ..before
        })
    }

    fn take_tracks(&mut self) -> (r: Vec<QueueTrack>)
        ensures
            r@ == old(self).tracks@,
            (*final(self)) == (MaterializeRun { tracks: final(self).tracks, ..*old(self) }),
    {
        let mut out: Vec<QueueTrack> = Vec::new();
        out.append(&mut self.tracks);
        assert(out@ =~= old(self).tracks@);
        out
    }
}

/// Start materializing a cloud queue. A snapshot that would build the same
/// queue again is skipped. An empty one clears the engine's queue but for the
/// current track.
pub fn materialize_remote_queue(
    sync: &mut QconnectRemoteSyncState,
    queue_state: &QConnectQueueState,
) -> (r: (MaterializeRun, RunStep))
    ensures
        r.0.wf(),
        r.0.queue@ == queue_state@,
        r.0.renderer_queue_item_id == old(sync).last_renderer_queue_item_id,
        r.0.renderer_track_id == old(sync).last_renderer_track_id,
        r.0.renderer_next_queue_item_id == old(sync).last_renderer_next_queue_item_id,
        r.0.renderer_next_track_id == old(sync).last_renderer_next_track_id,
        r.0.renderer_playing_state == old(sync).last_renderer_playing_state,
        r.0.renderer_max_audio_quality == old(sync).last_renderer_max_audio_quality,
        r.0.cursor == 0,
        r.0.tracks@.len() == 0,
        ({
            let due = old(sync).last_applied_queue_state is None || crate::renderer::queue_differs(
                old(sync).last_applied_queue_state->0@,
                queue_state@,
            );
            if !due {
                &&& r.0.stage == MaterializeStage::Finished
                &&& r.1 == RunStep::Finished(Ok(()))
                &&& *final(sync) == *old(sync)
            } else {
                &&& final(sync).last_applied_queue_state is Some
                &&& final(sync).last_applied_queue_state->0@ == queue_state@
                &&& (*final(sync)) == (QconnectRemoteSyncState {
                    last_applied_queue_state: final(sync).last_applied_queue_state,
                    ..*old(sync)
                })
                &&& if queue_state.queue_items@.len() == 0 {
                    &&& r.0.stage == MaterializeStage::Clearing
                    &&& r.1 == RunStep::Call(EngineCall::ClearQueue)
                } else {
                    &&& r.0.stage == MaterializeStage::FetchingBatch
                    &&& r.1 matches RunStep::Call(EngineCall::FetchTracks(ids)) && ids@
                        == distinct_ids(queue_state.queue_items@)
                }
            }
        }),
{
    let due = queue_state_needs_materialization(
        sync.last_applied_queue_state.as_ref(),
        queue_state,
    );
    let queue = queue_state.copy();
    proof {
        assert(crate::queue::items_view(queue.queue_items@).len() == queue.queue_items@.len());
    }
    let mut run = MaterializeRun {
        stage: MaterializeStage::Finished,
        queue,
        renderer_queue_item_id: sync.last_renderer_queue_item_id,
        renderer_track_id: sync.last_renderer_track_id,
        renderer_next_queue_item_id: sync.last_renderer_next_queue_item_id,
        renderer_next_track_id: sync.last_renderer_next_track_id,
        renderer_playing_state: sync.last_renderer_playing_state,
        renderer_max_audio_quality: sync.last_renderer_max_audio_quality,
        known: HashMap::new(),
        tracks: Vec::new(),
        cursor: 0,
        playing_track: None,
        start_index: None,
        order: None,
        load: RemoteLoad {
            track_id: 0,
            max_audio_quality: None,
            start_position_secs: 0,
            force: false,
            stage: RemoteLoadStage::Settled,
        },
    };
    if !due {
        return (run, RunStep::Finished(Ok(())));
    }
    sync.last_applied_queue_state = Some(queue_state.copy());
    if queue_state.queue_items.len() == 0 {
        run.stage = MaterializeStage::Clearing;
        return (run, RunStep::Call(EngineCall::ClearQueue));
    }
    run.stage = MaterializeStage::FetchingBatch;
    let ids = dedupe_track_ids(&queue_state.queue_items);
    (run, RunStep::Call(EngineCall::FetchTracks(ids)))
}

/// A queue that has been applied is not applied again, however often the cloud
/// repeats it.
pub proof fn law_an_applied_queue_is_not_due(
    sync: QconnectRemoteSyncState,
    queue_state: QConnectQueueState,
)
    requires
        sync.last_applied_queue_state is Some,
        sync.last_applied_queue_state->0@ == queue_state@,
    ensures
        !crate::renderer::queue_differs(sync.last_applied_queue_state->0@, queue_state@),
{
}

/// Unless the session plays, a pushed queue is staged and starts no audio.
pub proof fn law_a_session_that_does_not_play_starts_nothing(run: MaterializeRun)
    requires
        run.renderer_playing_state != Some(PLAYING_STATE_PLAYING),
    ensures
        run.starts_track() is None,
{
}

/// A queue pushed without a selection that holds the track the cloud names is
/// left to the state frame that follows.
pub proof fn law_a_handoff_queue_starts_nothing(run: MaterializeRun)
    requires
        run.selected() is None,
        run.renderer_track_id matches Some(id) && has_track(run.queue.queue_items@, id),
    ensures
        run.starts_track() is None,
{
}

/// The controller's selection outranks every other view of where to start.
pub proof fn law_a_selection_outranks_the_projection(
    run: MaterializeRun,
    start: Option<usize>,
    next_start: Option<usize>,
    index: int,
)
    requires
        run.selected() is Some,
        run.starts_at(start, next_start, index),
    ensures
        index == run.selected()->0,
        index < run.queue.queue_items@.len(),
{
}

/// A track that is chosen to start is started once, from its beginning: unless the
/// engine plays it already, the load looks it up and then asks for its stream, and
/// the run ends with what became of that. The attempt is registered before the
/// stream is asked for, so the frame that names the track does not load it again.
pub proof fn law_a_chosen_track_is_started_once(
    chosen: MaterializeRun,
    asked: MaterializeRun,
    found: MaterializeRun,
    starting: MaterializeRun,
    ended: MaterializeRun,
    syncs: (
        QconnectRemoteSyncState,
        QconnectRemoteSyncState,
        QconnectRemoteSyncState,
        QconnectRemoteSyncState,
    ),
    times: (u64, u64, u64, u64),
    playback: PlaybackState,
    track: Result<Track, String>,
    outcome: Result<(), String>,
    steps: (RunStep, RunStep, RunStep, RunStep),
)
    requires
        chosen.starts_track() is Some,
        !crate::renderer::recent_load(syncs.0, chosen.starts_track()->0, times.0),
        chosen.load_begins(asked, syncs.0, times.0, steps.0),
        playback.track_id != chosen.starts_track()->0,
        asked.load_goes_on(
            found,
            syncs.0,
            syncs.1,
            times.1,
            EngineReply::Playback(playback),
            steps.1,
        ),
        found.load_goes_on(
            starting,
            syncs.1,
            syncs.2,
            times.2,
            EngineReply::Track(track),
            steps.2,
        ),
        starting.load_goes_on(
            ended,
            syncs.2,
            syncs.3,
            times.3,
            EngineReply::Done(outcome),
            steps.3,
        ),
    ensures
        asked.stage == MaterializeStage::Loading,
        found.stage == MaterializeStage::Loading,
        starting.stage == MaterializeStage::Loading,
        ended.stage == MaterializeStage::Finished,
        steps.0 == RunStep::Call(EngineCall::GetPlaybackState),
        steps.1 == RunStep::Call(EngineCall::FetchTrack(chosen.starts_track()->0)),
        steps.2 == RunStep::Call(
            EngineCall::StartStream {
                track_id: chosen.starts_track()->0,
                max_audio_quality: chosen.renderer_max_audio_quality,
                duration_secs: match track {
                    Ok(found_track) => found_track.duration as u64,
                    Err(_) => 0,
                },
                start_position_secs: 0,
            },
        ),
        match outcome {
            Ok(_) => steps.3 matches RunStep::Finished(Ok(_)),
            Err(why) => steps.3 == RunStep::Finished(Err(why)),
        },
        crate::renderer::recent_load(syncs.3, chosen.starts_track()->0, times.1),
{
}

} // verus!
