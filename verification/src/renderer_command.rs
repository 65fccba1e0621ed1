//! How a renderer command runs against the engine: shuffle projection, cursor,
//! load, transport and seek for a state frame, a single call for the others.

use vstd::prelude::*;
use vstd::string::*;

use crate::engine::clamp_percent;
use crate::queue::{copy_vec, same_indices, QueueItem};
use crate::renderer::{
    align_queue_cursor, ensure_remote_track_loaded, force_remote_track_stream, frame_position_ms,
    loaded_within, qconnect_repeat_mode_from_loop_mode, AlignRun, AlignStage, RemoteLoad,
    RemoteLoadStage, RemoteLoadStep, HANDOFF_ECHO_WINDOW_MS, LOAD_ATTEMPT_DEDUP_WINDOW_MS,
    PLAYING_STATE_PAUSED, PLAYING_STATE_PLAYING, PLAYING_STATE_STOPPED,
};
use crate::renderer_model::{
    EngineCall, EngineReply, PlaybackState, QConnectRendererState, QconnectRemoteSyncState,
    RendererCommand, RunStep,
};
use crate::text::append_signed_decimal;

verus! {

/// What a state frame asks for, once its parts and the cloud's retained view
/// are resolved against each other.
#[derive(Debug, Clone, Copy, PartialEq, Eq, Structural)]
pub struct Frame {
    /// The playing state; the cloud's retained one outranks the command's.
    pub playing_state: Option<i32>,
    /// The position the frame specifies.
    pub position_ms: Option<u64>,
    /// The position the command itself carried.
    pub command_position_ms: Option<u64>,
    /// The track the command itself names.
    pub command_track: Option<u64>,
    /// The entry of the session's current track, as the cloud or the command
    /// knows it.
    pub session_queue_item: Option<u64>,
    pub session_track: Option<u64>,
    pub next_queue_item: Option<u64>,
    pub next_track: Option<u64>,
    pub max_audio_quality: Option<i32>,
}

/// The queue item id of an optional item.
pub open spec fn item_id(item: Option<QueueItem>) -> Option<u64> {
    match item {
        Some(i) => Some(i.queue_item_id),
        None => None,
    }
}

/// The track id of an optional item.
pub open spec fn item_track(item: Option<QueueItem>) -> Option<u64> {
    match item {
        Some(i) => Some(i.track_id),
        None => None,
    }
}

/// The first of two optional values that is there.
pub open spec fn first_of<T>(a: Option<T>, b: Option<T>) -> Option<T> {
    if a is Some {
        a
    } else {
        b
    }
}

fn id_of(item: &Option<QueueItem>) -> (r: Option<u64>)
    ensures
        r == item_id(*item),
{
    match item {
        Some(i) => Some(i.queue_item_id),
        None => None,
    }
}

fn track_of(item: &Option<QueueItem>) -> (r: Option<u64>)
    ensures
        r == item_track(*item),
{
    match item {
        Some(i) => Some(i.track_id),
        None => None,
    }
}

impl Frame {
    /// This is what a state frame asks for: the cloud's retained playing state,
    /// current and next track outrank the command's, and the position is the
    /// command's own, or the retained one for a frame that names no track.
    pub open spec fn resolves(
        self,
        playing_state: Option<i32>,
        current_position_ms: Option<u64>,
        current_track: Option<QueueItem>,
        next_track: Option<QueueItem>,
        renderer_state: QConnectRendererState,
    ) -> bool {
        &&& self.playing_state == first_of(renderer_state.playing_state, playing_state)
        &&& self.position_ms == (if current_position_ms is Some {
            current_position_ms
        } else if current_track is Some {
            None
        } else {
            renderer_state.current_position_ms
        })
        &&& self.command_position_ms == current_position_ms
        &&& self.command_track == item_track(current_track)
        &&& self.session_queue_item == first_of(
            item_id(renderer_state.current_track),
            item_id(current_track),
        )
        &&& self.session_track == first_of(
            item_track(renderer_state.current_track),
            item_track(current_track),
        )
        &&& self.next_queue_item == first_of(
            item_id(renderer_state.next_track),
            item_id(next_track),
        )
        &&& self.next_track == first_of(
            item_track(renderer_state.next_track),
            item_track(next_track),
        )
        &&& self.max_audio_quality == renderer_state.max_audio_quality
    }

    /// Resolve a state frame.
    pub fn resolve(
        playing_state: Option<i32>,
        current_position_ms: Option<u64>,
        current_track: &Option<QueueItem>,
        next_track: &Option<QueueItem>,
        renderer_state: &QConnectRendererState,
    ) -> (r: Frame)
        ensures
            r.resolves(
                playing_state,
                current_position_ms,
                *current_track,
                *next_track,
                *renderer_state,
            ),
    {
        let position_ms = frame_position_ms(
            current_position_ms,
            current_track.as_ref(),
            renderer_state,
        );
        let current = if renderer_state.current_track.is_some() {
            &renderer_state.current_track
        } else {
            current_track
        };
        let next = if renderer_state.next_track.is_some() {
            &renderer_state.next_track
        } else {
            next_track
        };
        Frame {
            playing_state: if renderer_state.playing_state.is_some() {
                renderer_state.playing_state
            } else {
                playing_state
            },
            position_ms,
            command_position_ms: current_position_ms,
            command_track: track_of(current_track),
            session_queue_item: id_of(current),
            session_track: track_of(current),
            next_queue_item: id_of(next),
            next_track: track_of(next),
            max_audio_quality: renderer_state.max_audio_quality,
        }
    }

    /// The second of the track a load for this frame starts at.
    pub open spec fn start_secs(self) -> u64 {
        match self.position_ms {
            Some(ms) => ms / 1000,
            None => 0,
        }
    }

    pub fn start_position_secs(&self) -> (r: u64)
        ensures
            r == self.start_secs(),
    {
        match self.position_ms {
            Some(ms) => ms / 1000,
            None => 0,
        }
    }

    /// A stop or pause in this frame is the previous renderer's handoff echo:
    /// our own load has just happened, and the command names no real position
    /// to hold at.
    pub open spec fn echoes_handoff(self, sync: QconnectRemoteSyncState, now_ms: u64) -> bool {
        &&& crate::renderer::attempt_within(
            sync.last_load_attempt,
            now_ms,
            HANDOFF_ECHO_WINDOW_MS,
        )
        &&& self.command_position_ms matches Some(ms) ==> ms <= 1_000
    }

    pub fn is_handoff_echo(&self, sync: &QconnectRemoteSyncState, now_ms: u64) -> (r: bool)
        ensures
            r == self.echoes_handoff(*sync, now_ms),
    {
        loaded_within(&sync.last_load_attempt, now_ms, HANDOFF_ECHO_WINDOW_MS)
            && match self.command_position_ms {
            Some(ms) => ms <= 1_000,
            None => true,
        }
    }

    /// Where the frame makes the engine seek to, given where the engine is and
    /// where this frame already started a stream. Not where the stream already
    /// starts; not to a position that belongs to another track than the
    /// engine's; not back to the start of the very track that is playing well
    /// past it, which is the cloud repeating itself; and not by two seconds or
    /// less.
    pub open spec fn seeks_to(self, started_at: Option<u64>, playback: PlaybackState) -> Option<
        u64,
    > {
        match self.position_ms {
            None => None,
            Some(ms) => {
                let target = ms / 1000;
                let started_there = started_at matches Some(at) && at - target <= 2 && target - at
                    <= 2;
                let for_another = self.command_track matches Some(t) && t != playback.track_id;
                let echo = self.command_track == Some(playback.track_id) && target <= 1
                    && playback.position > 2;
                let near = playback.position - target <= 2 && target - playback.position <= 2;
                if started_there || for_another || echo || near {
                    None
                } else {
                    Some(target)
                }
            },
        }
    }

    pub fn seek_target(&self, started_at: Option<u64>, playback: &PlaybackState) -> (r: Option<u64>)
        ensures
            r == self.seeks_to(started_at, *playback),
    {
        let target: u64 = match self.position_ms {
            Some(ms) => ms / 1000,
            None => return None,
        };
        let started_there = match started_at {
            Some(at) => apart(at, target) <= 2,
            None => false,
        };
        let (same_track, for_another): (bool, bool) = match self.command_track {
            Some(t) => (t == playback.track_id, t != playback.track_id),
            None => (false, false),
        };
        let echo = same_track && target <= 1 && playback.position > 2;
        if started_there || for_another || echo || apart(playback.position, target) <= 2 {
            None
        } else {
            Some(target)
        }
    }
}

fn apart(a: u64, b: u64) -> (r: u64)
    ensures
        r == (if a >= b {
            a - b
        } else {
            b - a
        }),
{
    if a >= b {
        a - b
    } else {
        b - a
    }
}

/// Where a command stands.
#[derive(Debug, Clone, Copy, PartialEq, Eq, Structural)]
pub enum CommandStage {
    /// A single call is out; its result is the command's.
    Acknowledging,
    /// Waiting for the shuffle projection to be resolved.
    Resolving,
    /// Waiting for the queue's tracks, to project the shuffle order onto them.
    Projecting,
    /// Waiting for the queue to be reordered.
    Reordering,
    /// Moving the queue cursor.
    Aligning,
    /// Loading the track the command names.
    Loading,
    /// Waiting to hear whether the engine holds audio, before a resume.
    CheckingAudio,
    /// Loading the session's track into an engine that holds no audio.
    ColdLoading,
    /// Waiting for a resume, pause or stop.
    Transport,
    /// Waiting for the engine's position, before a seek.
    CheckingSeek,
    /// Waiting for a seek.
    Seeking,
    Finished,
}

/// A renderer command on its way through the engine.
pub struct CommandRun {
    pub stage: CommandStage,
    pub frame: Frame,
    /// Where this command started a fresh stream, if it did.
    pub stream_started_at: Option<u64>,
    /// The number of entries of the cloud queue being projected.
    pub queue_len: usize,
    /// The projection's start index and play order.
    pub start_index: usize,
    pub order: Vec<usize>,
    pub align: AlignRun,
    pub load: RemoteLoad,
}

/// Where a part of a command begins: the stage, its sub-runs, and the step.
pub ghost struct Entry {
    pub stage: CommandStage,
    pub align: AlignRun,
    pub load: RemoteLoad,
    pub step: RunStep,
}

impl CommandRun {
    /// The run stands where `entry` says, and nothing else of it changed.
    pub open spec fn entered(self, after: CommandRun, step: RunStep, entry: Entry) -> bool {
        &&& after.stage == entry.stage
        &&& after.align == entry.align
        &&& after.load == entry.load
        &&& step == entry.step
        &&& after == (CommandRun {
            stage: after.stage,
            align: after.align,
            load: after.load,
            ..self
        })
    }

    /// The seek, if the frame carries a position.
    pub open spec fn seek_entry(self) -> Entry {
        if self.frame.position_ms is Some {
            Entry {
                stage: CommandStage::CheckingSeek,
                align: self.align,
                load: self.load,
                step: RunStep::Call(EngineCall::GetPlaybackState),
            }
        } else {
            Entry {
                stage: CommandStage::Finished,
                align: self.align,
                load: self.load,
                step: RunStep::Finished(Ok(())),
            }
        }
    }

    /// The transport change the playing state asks for; a pause or stop that
    /// is a handoff echo is skipped.
    pub open spec fn transport_entry(self, sync: QconnectRemoteSyncState, now_ms: u64) -> Entry {
        let echo = self.frame.echoes_handoff(sync, now_ms);
        if self.frame.playing_state == Some(PLAYING_STATE_PLAYING) {
            Entry {
                stage: CommandStage::CheckingAudio,
                align: self.align,
                load: self.load,
                step: RunStep::Call(EngineCall::HasLoadedAudio),
            }
        } else if self.frame.playing_state == Some(PLAYING_STATE_PAUSED) && !echo {
            Entry {
                stage: CommandStage::Transport,
                align: self.align,
                load: self.load,
                step: RunStep::Call(EngineCall::Pause),
            }
        } else if self.frame.playing_state == Some(PLAYING_STATE_STOPPED) && !echo {
            Entry {
                stage: CommandStage::Transport,
                align: self.align,
                load: self.load,
                step: RunStep::Call(EngineCall::Stop),
            }
        } else {
            self.seek_entry()
        }
    }

    /// The load of the track the command names, for a session that plays or
    /// pauses.
    pub open spec fn load_entry(self, sync: QconnectRemoteSyncState, now_ms: u64) -> Entry {
        let wanted = self.frame.playing_state == Some(PLAYING_STATE_PLAYING)
            || self.frame.playing_state == Some(PLAYING_STATE_PAUSED);
        if wanted && self.frame.command_track is Some {
            let track_id = self.frame.command_track->0;
            let recent = crate::renderer::recent_load(sync, track_id, now_ms);
            let load = RemoteLoad {
                track_id,
                max_audio_quality: self.frame.max_audio_quality,
                start_position_secs: self.frame.start_secs(),
                force: false,
                stage: if recent {
                    RemoteLoadStage::Settled
                } else {
                    RemoteLoadStage::CheckingPlayback
                },
            };
            if recent {
                Entry { load, ..(CommandRun { load, ..self }).transport_entry(sync, now_ms) }
            } else {
                Entry {
                    stage: CommandStage::Loading,
                    align: self.align,
                    load,
                    step: RunStep::Call(EngineCall::GetPlaybackState),
                }
            }
        } else {
            self.transport_entry(sync, now_ms)
        }
    }

    /// What follows the projection: the cursor and the load, only for a
    /// command that names a track itself.
    pub open spec fn track_entry(
        self,
        sync: QconnectRemoteSyncState,
        now_ms: u64,
        projected: bool,
    ) -> Entry {
        if self.frame.command_track is None {
            self.transport_entry(sync, now_ms)
        } else if projected {
            self.load_entry(sync, now_ms)
        } else {
            Entry {
                stage: CommandStage::Aligning,
                align: AlignRun {
                    track_id: self.frame.command_track->0,
                    stage: AlignStage::Reading,
                },
                load: self.load,
                step: RunStep::Call(EngineCall::GetQueueTracks),
            }
        }
    }

    /// The cloud queue has a shuffle order that could be projected.
    pub open spec fn projects(self, sync: QconnectRemoteSyncState) -> bool {
        &&& self.frame.session_track is Some
        &&& sync.last_remote_queue_state matches Some(queue) && queue.shuffle_mode
            && queue.queue_items@.len() > 0
    }

    /// The step asks where the session's entries stand in `queue`.
    pub open spec fn asks_to_resolve(
        self,
        step: RunStep,
        queue: crate::queue::QueueStateView,
    ) -> bool {
        step matches RunStep::Call(
            EngineCall::ResolveQueue {
                queue: asked,
                queue_item_id,
                track_id,
                next_queue_item_id,
                next_track_id,
            },
        ) && {
            &&& asked@ == queue
            &&& queue_item_id == self.frame.session_queue_item
            &&& track_id == self.frame.session_track
            &&& next_queue_item_id == self.frame.next_queue_item
            &&& next_track_id == self.frame.next_track
        }
    }

    fn enter_seek(&mut self) -> (r: RunStep)
        ensures
            old(self).entered(*final(self), r, old(self).seek_entry()),
    {
        if self.frame.position_ms.is_some() {
            self.stage = CommandStage::CheckingSeek;
            RunStep::Call(EngineCall::GetPlaybackState)
        } else {
            self.stage = CommandStage::Finished;
            RunStep::Finished(Ok(()))
        }
    }

    fn enter_transport(&mut self, sync: &QconnectRemoteSyncState, now_ms: u64) -> (r: RunStep)
        ensures
            old(self).entered(*final(self), r, old(self).transport_entry(*sync, now_ms)),
    {
        let echo = self.frame.is_handoff_echo(sync, now_ms);
        if let Some(value) = self.frame.playing_state {
            if value == PLAYING_STATE_PLAYING {
                self.stage = CommandStage::CheckingAudio;
                return RunStep::Call(EngineCall::HasLoadedAudio);
            }
            if value == PLAYING_STATE_PAUSED && !echo {
                self.stage = CommandStage::Transport;
                return RunStep::Call(EngineCall::Pause);
            }
            if value == PLAYING_STATE_STOPPED && !echo {
                self.stage = CommandStage::Transport;
                return RunStep::Call(EngineCall::Stop);
            }
        }
        self.enter_seek()
    }

    fn enter_load(&mut self, sync: &QconnectRemoteSyncState, now_ms: u64) -> (r: RunStep)
        ensures
            old(self).entered(*final(self), r, old(self).load_entry(*sync, now_ms)),
    {
        let wanted = match self.frame.playing_state {
            Some(value) => value == PLAYING_STATE_PLAYING || value == PLAYING_STATE_PAUSED,
            None => false,
        };
        if let Some(track_id) = self.frame.command_track {
            if wanted {
                let start: u64 = self.frame.start_position_secs();
                let (load, first) = ensure_remote_track_loaded(
                    sync,
                    now_ms,
                    track_id,
                    self.frame.max_audio_quality,
                    start,
                );
                self.load = load;
                return match first {
                    RemoteLoadStep::Call(call) => {
                        self.stage = CommandStage::Loading;
                        RunStep::Call(call)
                    },
                    RemoteLoadStep::Settled(_) => self.enter_transport(sync, now_ms),
                };
            }
        }
        self.enter_transport(sync, now_ms)
    }

    fn enter_track(
        &mut self,
        sync: &QconnectRemoteSyncState,
        now_ms: u64,
        projected: bool,
    ) -> (r: RunStep)
        ensures
            old(self).entered(*final(self), r, old(self).track_entry(*sync, now_ms, projected)),
    {
        match self.frame.command_track {
            None => self.enter_transport(sync, now_ms),
            Some(track_id) => {
                if projected {
                    self.enter_load(sync, now_ms)
                } else {
                    let (align, first) = align_queue_cursor(track_id);
                    self.align = align;
                    self.stage = CommandStage::Aligning;
                    first
                }
            },
        }
    }

    /// Whether `reply` is what the stage waits for.
    pub open spec fn awaits(self, reply: EngineReply) -> bool {
        match self.stage {
            CommandStage::Acknowledging => reply is Done,
            CommandStage::Resolving => reply is Resolved,
            CommandStage::Projecting => reply is Queue,
            CommandStage::Reordering => reply is Done,
            CommandStage::Aligning => self.align.awaits(reply),
            CommandStage::Loading => self.load.awaits(reply),
            CommandStage::CheckingAudio => reply is Loaded,
            CommandStage::ColdLoading => self.load.awaits(reply),
            CommandStage::Transport => reply is Done,
            CommandStage::CheckingSeek => reply is Playback,
            CommandStage::Seeking => reply is Done,
            CommandStage::Finished => false,
        }
    }

    /// A bound on the replies the command can still take in.
    pub open spec fn steps_left(self) -> nat {
        match self.stage {
            CommandStage::Resolving => 40,
            CommandStage::Projecting => 39,
            CommandStage::Reordering => 38,
            CommandStage::Aligning => 30 + self.align.steps_left(),
            CommandStage::Loading => 20 + self.load.steps_left(),
            CommandStage::CheckingAudio => 19,
            CommandStage::ColdLoading => 10 + self.load.steps_left(),
            CommandStage::Transport => 9,
            CommandStage::CheckingSeek => 8,
            CommandStage::Seeking => 7,
            CommandStage::Acknowledging => 1,
            CommandStage::Finished => 0,
        }
    }

    /// The projection that came back is authoritative and new.
    pub open spec fn is_new_projection(
        self,
        sync: QconnectRemoteSyncState,
        start: Option<usize>,
        order: Option<Vec<usize>>,
    ) -> bool {
        &&& start is Some
        &&& order is Some
        &&& sync.last_materialized_start_index != start || crate::queue::opt_seq(
            sync.last_materialized_core_shuffle_order,
        ) != crate::queue::opt_seq(order)
    }

    /// Take in a reply and decide the next call.
    pub fn step(
        &mut self,
        sync: &mut QconnectRemoteSyncState,
        now_ms: u64,
        reply: EngineReply,
    ) -> (r: RunStep)
        requires
            old(self).awaits(reply),
        ensures
            final(self).frame == old(self).frame,
            r is Finished <==> final(self).stage == CommandStage::Finished,
            final(self).steps_left() < old(self).steps_left(),
            match old(self).stage {
                CommandStage::Acknowledging => {
                    &&& r == RunStep::Finished(reply->Done_0)
                    &&& *final(sync) == *old(sync)
                },
                CommandStage::Resolving => {
                    let start = reply->Resolved_start;
                    let order = reply->Resolved_order;
                    &&& *final(sync) == *old(sync)
                    &&& if old(self).is_new_projection(*old(sync), start, order) {
                        &&& r == RunStep::Call(EngineCall::GetQueueTracks)
                        &&& (*final(self)) == (CommandRun {
                            stage: CommandStage::Projecting,
                            start_index: start->0,
                            order: order->0,
                            ..*old(self)
                        })
                    } else {
                        old(self).entered(
                            *final(self),
                            r,
                            old(self).track_entry(*old(sync), now_ms, false),
                        )
                    }
                },
                CommandStage::Projecting => {
                    let ids = reply->Queue_ids;
                    &&& *final(sync) == *old(sync)
                    &&& if ids@.len() == old(self).queue_len && ids@.len() > 0 {
                        &&& r matches RunStep::Call(
                            EngineCall::ReorderQueue { start_index, order },
                        ) && start_index == old(self).start_index && order@ == old(self).order@
                        &&& (*final(self)) == (CommandRun {
                            stage: CommandStage::Reordering,
                            ..*old(self)
                        })
                    } else {
                        old(self).entered(
                            *final(self),
                            r,
                            old(self).track_entry(*old(sync), now_ms, false),
                        )
                    }
                },
                CommandStage::Reordering => {
                    &&& final(sync).last_materialized_start_index == Some(old(self).start_index)
                    &&& crate::queue::opt_seq(final(sync).last_materialized_core_shuffle_order)
                        == Some(old(self).order@)
                    &&& (*final(sync)) == (QconnectRemoteSyncState {
                        last_materialized_start_index: final(sync).last_materialized_start_index,
                        last_materialized_core_shuffle_order:
                            final(sync).last_materialized_core_shuffle_order,
                        ..*old(sync)
                    })
                    &&& old(self).entered(
                        *final(self),
                        r,
                        old(self).track_entry(*final(sync), now_ms, true),
                    )
                },
                CommandStage::Aligning => {
                    &&& *final(sync) == *old(sync)
                    &&& if final(self).stage == CommandStage::Aligning {
                        &&& r is Call
                        &&& old(self).align.steps_to(final(self).align, reply, r)
                        &&& (*final(self)) == (CommandRun {
                            align: final(self).align,
                            ..*old(self)
                        })
                    } else {
                        &&& exists|result: Result<(), String>|
                            #[trigger] old(self).align.steps_to(
                                final(self).align,
                                reply,
                                RunStep::Finished(result),
                            )
                        &&& (CommandRun { align: final(self).align, ..*old(self) }).entered(
                            *final(self),
                            r,
                            (CommandRun {
                                align: final(self).align,
                                ..*old(self)
                            }).load_entry(*old(sync), now_ms),
                        )
                    }
                },
                CommandStage::Loading => {
                    if final(self).stage == CommandStage::Loading {
                        &&& r matches RunStep::Call(call) && old(self).load.steps_to(
                            final(self).load,
                            *old(sync),
                            *final(sync),
                            now_ms,
                            reply,
                            RemoteLoadStep::Call(call),
                        )
                        &&& (*final(self)) == (CommandRun { load: final(self).load, ..*old(self) })
                    } else {
                        let settled = (CommandRun {
                            load: final(self).load,
                            stream_started_at: final(self).stream_started_at,
                            ..*old(self)
                        });
                        &&& exists|result: Result<bool, String>|
                            #[trigger] old(self).load.steps_to(
                                final(self).load,
                                *old(sync),
                                *final(sync),
                                now_ms,
                                reply,
                                RemoteLoadStep::Settled(result),
                            )
                        &&& final(self).stream_started_at == old(self).started_after(reply)
                        &&& settled.entered(
                            *final(self),
                            r,
                            settled.transport_entry(*old(sync), now_ms),
                        )
                    }
                },
                CommandStage::CheckingAudio => {
                    &&& *final(sync) == *old(sync)
                    &&& if !reply->Loaded_0 && old(self).frame.session_track is Some {
                        &&& r == RunStep::Call(EngineCall::GetPlaybackState)
                        &&& (*final(self)) == (CommandRun {
                            stage: CommandStage::ColdLoading,
                            load: RemoteLoad {
                                track_id: old(self).frame.session_track->0,
                                max_audio_quality: old(self).frame.max_audio_quality,
                                start_position_secs: old(self).frame.start_secs(),
                                force: true,
                                stage: RemoteLoadStage::CheckingPlayback,
                            },
                            ..*old(self)
                        })
                    } else {
                        &&& r == RunStep::Call(EngineCall::Resume)
                        &&& (*final(self)) == (CommandRun {
                            stage: CommandStage::Transport,
                            ..*old(self)
                        })
                    }
                },
                CommandStage::ColdLoading => {
                    if final(self).stage == CommandStage::ColdLoading {
                        &&& r matches RunStep::Call(call) && old(self).load.steps_to(
                            final(self).load,
                            *old(sync),
                            *final(sync),
                            now_ms,
                            reply,
                            RemoteLoadStep::Call(call),
                        )
                        &&& (*final(self)) == (CommandRun { load: final(self).load, ..*old(self) })
                    } else {
                        let settled = (CommandRun {
                            load: final(self).load,
                            stream_started_at: final(self).stream_started_at,
                            ..*old(self)
                        });
                        &&& exists|result: Result<bool, String>|
                            #[trigger] old(self).load.steps_to(
                                final(self).load,
                                *old(sync),
                                *final(sync),
                                now_ms,
                                reply,
                                RemoteLoadStep::Settled(result),
                            )
                        &&& final(self).stream_started_at == old(self).started_after(reply)
                        &&& settled.entered(*final(self), r, settled.seek_entry())
                    }
                },
                CommandStage::Transport => {
                    &&& *final(sync) == *old(sync)
                    &&& match reply->Done_0 {
                        Ok(_) => old(self).entered(*final(self), r, old(self).seek_entry()),
                        Err(why) => {
                            &&& r == RunStep::Finished(Err(why))
                            &&& (*final(self)) == (CommandRun {
                                stage: CommandStage::Finished,
                                ..*old(self)
                            })
                        },
                    }
                },
                CommandStage::CheckingSeek => {
                    &&& *final(sync) == *old(sync)
                    &&& match old(self).frame.seeks_to(
                        old(self).stream_started_at,
                        reply->Playback_0,
                    ) {
                        Some(target) => {
                            &&& r == RunStep::Call(EngineCall::Seek(target))
                            &&& (*final(self)) == (CommandRun {
                                stage: CommandStage::Seeking,
                                ..*old(self)
                            })
                        },
                        None => {
                            &&& r == RunStep::Finished(Ok(()))
                            &&& (*final(self)) == (CommandRun {
                                stage: CommandStage::Finished,
                                ..*old(self)
                            })
                        },
                    }
                },
                CommandStage::Seeking => {
                    &&& r == RunStep::Finished(reply->Done_0)
                    &&& *final(sync) == *old(sync)
                },
                CommandStage::Finished => true,
            },
    {
        match self.stage {
            CommandStage::Resolving => {
                if let EngineReply::Resolved { start, next_start: _, order } = reply {
                    if let Some(start_index) = start {
                        if let Some(order) = order {
                            let same_start = match sync.last_materialized_start_index {
                                Some(last) => last == start_index,
                                None => false,
                            };
                            let known = match &sync.last_materialized_core_shuffle_order {
                                Some(last) => same_start && same_indices(last, &order),
                                None => false,
                            };
                            if !known {
                                self.start_index = start_index;
                                self.order = order;
                                self.stage = CommandStage::Projecting;
                                return RunStep::Call(EngineCall::GetQueueTracks);
                            }
                        }
                    }
                }
                self.enter_track(sync, now_ms, false)
            },
            CommandStage::Projecting => {
                if let EngineReply::Queue { ids, current: _ } = reply {
                    if ids.len() == self.queue_len && ids.len() > 0 {
                        self.stage = CommandStage::Reordering;
                        let order = copy_vec(&self.order);
                        return RunStep::Call(
                            EngineCall::ReorderQueue { start_index: self.start_index, order },
                        );
                    }
                }
                self.enter_track(sync, now_ms, false)
            },
            CommandStage::Reordering => {
                sync.last_materialized_start_index = Some(self.start_index);
                sync.last_materialized_core_shuffle_order = Some(copy_vec(&self.order));
                self.enter_track(sync, now_ms, true)
            },
            CommandStage::Aligning => {
                let mut align = self.align;
                let next = align.step(reply);
                self.align = align;
                match next {
                    RunStep::Call(call) => RunStep::Call(call),
                    RunStep::Finished(_) => self.enter_load(sync, now_ms),
                }
            },
            CommandStage::Loading => {
                let mut load = self.load;
                let next = load.step(sync, now_ms, reply);
                self.load = load;
                match next {
                    RemoteLoadStep::Call(call) => RunStep::Call(call),
                    RemoteLoadStep::Settled(result) => {
                        if let Ok(true) = result {
                            self.stream_started_at = Some(self.load.start_position_secs);
                        }
                        self.enter_transport(sync, now_ms)
                    },
                }
            },
            CommandStage::CheckingAudio => {
                let loaded = match reply {
                    EngineReply::Loaded(loaded) => loaded,
                    _ => true,
                };
                if let Some(track_id) = self.frame.session_track {
                    if !loaded {
                        let start: u64 = self.frame.start_position_secs();
                        let (load, first) = force_remote_track_stream(
                            track_id,
                            self.frame.max_audio_quality,
                            start,
                        );
                        self.load = load;
                        self.stage = CommandStage::ColdLoading;
                        return match first {
                            RemoteLoadStep::Call(call) => RunStep::Call(call),
                            RemoteLoadStep::Settled(_) => self.enter_seek(),
                        };
                    }
                }
                self.stage = CommandStage::Transport;
                RunStep::Call(EngineCall::Resume)
            },
            CommandStage::ColdLoading => {
                let mut load = self.load;
                let next = load.step(sync, now_ms, reply);
                self.load = load;
                match next {
                    RemoteLoadStep::Call(call) => RunStep::Call(call),
                    RemoteLoadStep::Settled(result) => {
                        if let Ok(true) = result {
                            self.stream_started_at = Some(self.load.start_position_secs);
                        }
                        self.enter_seek()
                    },
                }
            },
            CommandStage::Transport => match reply {
                EngineReply::Done(Err(why)) => {
                    self.stage = CommandStage::Finished;
                    RunStep::Finished(Err(why))
                },
                _ => self.enter_seek(),
            },
            CommandStage::CheckingSeek => {
                if let EngineReply::Playback(playback) = reply {
                    if let Some(target) = self.frame.seek_target(
                        self.stream_started_at,
                        &playback,
                    ) {
                        self.stage = CommandStage::Seeking;
                        return RunStep::Call(EngineCall::Seek(target));
                    }
                }
                self.stage = CommandStage::Finished;
                RunStep::Finished(Ok(()))
            },
            _ => {
                self.stage = CommandStage::Finished;
                match reply {
                    EngineReply::Done(result) => RunStep::Finished(result),
                    _ => RunStep::Finished(Ok(())),
                }
            },
        }
    }

    /// Where a stream has been started, after the reply that settled a load.
    pub open spec fn started_after(self, reply: EngineReply) -> Option<u64> {
        if reply matches EngineReply::Done(Ok(_)) {
            Some(self.load.start_position_secs)
        } else {
            self.stream_started_at
        }
    }
}

/// The message for a loop mode that the protocol does not know.
pub open spec fn unsupported_loop_mode(loop_mode: i32) -> Seq<char> {
    "unsupported qconnect loop mode: "@ + crate::text::signed_decimal(loop_mode as int)
}

/// The call that applies a loop mode of the cloud, or why there is none.
pub fn apply_remote_loop_mode(loop_mode: i32) -> (r: Result<EngineCall, String>)
    ensures
        match crate::renderer::repeat_mode_of(loop_mode) {
            Some(mode) => r == Ok::<EngineCall, String>(EngineCall::SetRepeatMode(mode)),
            None => r matches Err(message) && message@ == unsupported_loop_mode(loop_mode),
        },
{
    match qconnect_repeat_mode_from_loop_mode(loop_mode) {
        Some(mode) => Ok(EngineCall::SetRepeatMode(mode)),
        None => {
            let mut message = String::from_str("unsupported qconnect loop mode: ");
            append_signed_decimal(&mut message, loop_mode);
            Err(message)
        },
    }
}

fn blank_frame() -> (r: Frame)
    ensures
        r == (Frame {
            playing_state: None,
            position_ms: None,
            command_position_ms: None,
            command_track: None,
            session_queue_item: None,
            session_track: None,
            next_queue_item: None,
            next_track: None,
            max_audio_quality: None,
        }),
{
    Frame {
        playing_state: None,
        position_ms: None,
        command_position_ms: None,
        command_track: None,
        session_queue_item: None,
        session_track: None,
        next_queue_item: None,
        next_track: None,
        max_audio_quality: None,
    }
}

impl CommandRun {
    fn new(frame: Frame, queue_len: usize, stage: CommandStage) -> (r: CommandRun)
        ensures
            r.stage == stage,
            r.frame == frame,
            r.queue_len == queue_len,
            r.stream_started_at is None,
    {
        CommandRun {
            stage,
            frame,
            stream_started_at: None,
            queue_len,
            start_index: 0,
            order: Vec::new(),
            align: AlignRun { track_id: 0, stage: AlignStage::Settled },
            load: RemoteLoad {
                track_id: 0,
                max_audio_quality: None,
                start_position_secs: 0,
                force: false,
                stage: RemoteLoadStage::Settled,
            },
        }
    }

    /// A command that is a single call, or none.
    fn single(call: Option<EngineCall>) -> (r: (CommandRun, RunStep))
        ensures
            r.0.is_single(r.1, call),
    {
        match call {
            Some(call) => (
                CommandRun::new(blank_frame(), 0, CommandStage::Acknowledging),
                RunStep::Call(call),
            ),
            None => (
                CommandRun::new(blank_frame(), 0, CommandStage::Finished),
                RunStep::Finished(Ok(())),
            ),
        }
    }

    /// The command makes `call` and ends with its result, or ends at once.
    pub open spec fn is_single(self, step: RunStep, call: Option<EngineCall>) -> bool {
        match call {
            Some(call) => {
                &&& self.stage == CommandStage::Acknowledging
                &&& step == RunStep::Call(call)
            },
            None => {
                &&& self.stage == CommandStage::Finished
                &&& step == RunStep::Finished(Ok(()))
            },
        }
    }
}

/// The call that sets an optional volume.
pub open spec fn volume_call(volume: Option<i32>) -> Option<EngineCall> {
    match volume {
        Some(v) => Some(
            EngineCall::SetVolume(crate::engine::clamped_percent(v as int) as i32),
        ),
        None => None,
    }
}

fn set_volume_call(volume: Option<i32>) -> (r: Option<EngineCall>)
    ensures
        r == volume_call(volume),
{
    match volume {
        Some(v) => Some(EngineCall::SetVolume(clamp_percent(v))),
        None => None,
    }
}

/// Start a renderer command.
///
/// Becoming active loads nothing: the cloud's retained view may be stale, and
/// the state frame that follows carries the real track and position. Standing
/// down is ignored within the load window, where it is a replay of the join.
/// A shuffle change flips the flag alone: the cloud owns the order.
pub fn apply_renderer_command(
    sync: &mut QconnectRemoteSyncState,
    now_ms: u64,
    command: &RendererCommand,
    renderer_state: &QConnectRendererState,
) -> (r: (CommandRun, RunStep))
    ensures
        command is SetActive || *final(sync) == *old(sync),
        match *command {
            RendererCommand::SetState {
                playing_state,
                current_position_ms,
                current_track,
                next_track,
            } => {
                let run = r.0;
                &&& run.frame.resolves(
                    playing_state,
                    current_position_ms,
                    current_track,
                    next_track,
                    *renderer_state,
                )
                &&& run.stream_started_at is None
                &&& if run.projects(*old(sync)) {
                    &&& run.stage == CommandStage::Resolving
                    &&& run.queue_len == old(sync).last_remote_queue_state->0.queue_items@.len()
                    &&& run.asks_to_resolve(r.1, old(sync).last_remote_queue_state->0@)
                } else {
                    run.entered(run, r.1, run.track_entry(*old(sync), now_ms, false))
                }
            },
            RendererCommand::SetVolume { volume } => r.0.is_single(
                r.1,
                volume_call(first_of(renderer_state.volume, volume)),
            ),
            RendererCommand::MuteVolume { value } => r.0.is_single(
                r.1,
                if value {
                    Some(EngineCall::SetVolume(0))
                } else {
                    volume_call(renderer_state.volume)
                },
            ),
            RendererCommand::SetLoopMode { loop_mode } => {
                let resolved = match renderer_state.loop_mode {
                    Some(mode) => mode,
                    None => loop_mode,
                };
                match crate::renderer::repeat_mode_of(resolved) {
                    Some(mode) => r.0.is_single(r.1, Some(EngineCall::SetRepeatMode(mode))),
                    None => {
                        &&& r.0.stage == CommandStage::Finished
                        &&& r.1 matches RunStep::Finished(Err(message)) && message@
                            == unsupported_loop_mode(resolved)
                    },
                }
            },
            RendererCommand::SetActive { active } => {
                let replay = !active && crate::renderer::attempt_within(
                    old(sync).last_load_attempt,
                    now_ms,
                    LOAD_ATTEMPT_DEDUP_WINDOW_MS,
                );
                &&& r.0.is_single(
                    r.1,
                    if active || replay {
                        None
                    } else {
                        Some(EngineCall::Stop)
                    },
                )
                &&& (*final(sync)) == (QconnectRemoteSyncState {
                    local_render_active: if replay {
                        old(sync).local_render_active
                    } else {
                        Some(active)
                    },
                    ..*old(sync)
                })
            },
            RendererCommand::SetMaxAudioQuality { .. } => r.0.is_single(r.1, None),
            RendererCommand::SetShuffleMode { shuffle_mode } => r.0.is_single(
                r.1,
                Some(
                    EngineCall::SetShuffleFlag(
                        match renderer_state.shuffle_mode {
                            Some(enabled) => enabled,
                            None => shuffle_mode,
                        },
                    ),
                ),
            ),
        },
{
    match command {
        RendererCommand::SetState {
            playing_state,
            current_position_ms,
            current_track,
            next_track,
        } => {
            let frame = Frame::resolve(
                *playing_state,
                *current_position_ms,
                current_track,
                next_track,
                renderer_state,
            );
            if frame.session_track.is_some() {
                if let Some(queue) = &sync.last_remote_queue_state {
                    if queue.shuffle_mode && queue.queue_items.len() > 0 {
                        let run = CommandRun::new(
                            frame,
                            queue.queue_items.len(),
                            CommandStage::Resolving,
                        );
                        return (
                            run,
                            RunStep::Call(
                                EngineCall::ResolveQueue {
                                    queue: queue.copy(),
                                    queue_item_id: frame.session_queue_item,
                                    track_id: frame.session_track,
                                    next_queue_item_id: frame.next_queue_item,
                                    next_track_id: frame.next_track,
                                },
                            ),
                        );
                    }
                }
            }
            let mut run = CommandRun::new(frame, 0, CommandStage::Resolving);
            let first = run.enter_track(sync, now_ms, false);
            (run, first)
        },
        RendererCommand::SetVolume { volume } => {
            let resolved = if renderer_state.volume.is_some() {
                renderer_state.volume
            } else {
                *volume
            };
            CommandRun::single(set_volume_call(resolved))
        },
        RendererCommand::MuteVolume { value } => {
            if *value {
                CommandRun::single(Some(EngineCall::SetVolume(0)))
            } else {
                CommandRun::single(set_volume_call(renderer_state.volume))
            }
        },
        RendererCommand::SetLoopMode { loop_mode } => {
            let resolved: i32 = match renderer_state.loop_mode {
                Some(mode) => mode,
                None => *loop_mode,
            };
            match apply_remote_loop_mode(resolved) {
                Ok(call) => CommandRun::single(Some(call)),
                Err(message) => (
                    CommandRun::new(blank_frame(), 0, CommandStage::Finished),
                    RunStep::Finished(Err(message)),
                ),
            }
        },
        RendererCommand::SetActive { active } => {
            if *active {
                sync.local_render_active = Some(true);
                return CommandRun::single(None);
            }
            if loaded_within(&sync.last_load_attempt, now_ms, LOAD_ATTEMPT_DEDUP_WINDOW_MS) {
                return CommandRun::single(None);
            }
            sync.local_render_active = Some(false);
            CommandRun::single(Some(EngineCall::Stop))
        },
        RendererCommand::SetMaxAudioQuality { max_audio_quality: _ } => CommandRun::single(None),
        RendererCommand::SetShuffleMode { shuffle_mode } => {
            let enabled = match renderer_state.shuffle_mode {
                Some(enabled) => enabled,
                None => *shuffle_mode,
            };
            CommandRun::single(Some(EngineCall::SetShuffleFlag(enabled)))
        },
    }
}

/// A frame that names no track itself moves no cursor and loads nothing before
/// its transport change, whatever the cloud's retained view says.
pub proof fn law_a_state_only_frame_leaves_the_queue_alone(
    run: CommandRun,
    sync: QconnectRemoteSyncState,
    now_ms: u64,
    projected: bool,
)
    requires
        run.frame.command_track is None,
    ensures
        run.track_entry(sync, now_ms, projected) == run.transport_entry(sync, now_ms),
        run.track_entry(sync, now_ms, projected).stage != CommandStage::Aligning,
        run.track_entry(sync, now_ms, projected).stage != CommandStage::Loading,
{
}

/// A load and the seek behind it agree: where a frame has started its stream,
/// it does not seek, wherever the engine says it is.
pub proof fn law_a_started_stream_is_not_sought(frame: Frame, playback: PlaybackState)
    ensures
        frame.seeks_to(Some(frame.start_secs()), playback) is None,
{
}

/// Right after a load, a stop or pause at no real position reaches the engine
/// as nothing at all.
pub proof fn law_a_handoff_echo_neither_stops_nor_pauses(
    run: CommandRun,
    sync: QconnectRemoteSyncState,
    now_ms: u64,
)
    requires
        run.frame.playing_state == Some(PLAYING_STATE_STOPPED) || run.frame.playing_state == Some(
            PLAYING_STATE_PAUSED,
        ),
        run.frame.echoes_handoff(sync, now_ms),
    ensures
        run.transport_entry(sync, now_ms) == run.seek_entry(),
{
}

/// A position that belongs to another track than the one the engine is on
/// never seeks it.
pub proof fn law_a_position_for_another_track_never_seeks(
    frame: Frame,
    started_at: Option<u64>,
    playback: PlaybackState,
)
    requires
        frame.command_track matches Some(t) && t != playback.track_id,
    ensures
        frame.seeks_to(started_at, playback) is None,
{
}

} // verus!
