//! What this renderer does about the cloud's events: whose turn it is to render,
//! the volume it joined with, and the order of the work an event asks for.

use vstd::prelude::*;

use crate::engine::VolumeMode;
use crate::json::signed_at;
use crate::materialize::{materialize_remote_queue, MaterializeRun};
use crate::queue::{QConnectQueueState, QueueVersion};
use crate::renderer_model::{
    PlaybackState, QConnectRendererState, QconnectRemoteSyncState, RendererCommand, RunStep,
};
use crate::report::{RendererReport, ReportBody};
use crate::text::same_text;

verus! {

/// How long after taking the render a controller's volume still counts as the
/// stale level it remembers rather than a deliberate change.
pub const JOIN_VOLUME_ASSERT_WINDOW_MS: u64 = 5_000;

/// The message that shows every controller's view of a renderer's volume.
pub const VOLUME_CHANGED_MESSAGE: &'static str = "MESSAGE_TYPE_SRVR_CTRL_VOLUME_CHANGED";

/// The renderers of a session, as far as the sink reads them.
#[derive(Debug, Clone, Copy, PartialEq, Eq, Structural)]
pub struct SessionRenderers {
    pub active_renderer_id: Option<i32>,
    pub local_renderer_id: Option<i32>,
}

/// What a session event asks for once it has been applied.
#[derive(Debug, Clone, Copy, PartialEq, Eq)]
pub struct SessionApplyOutcome {
    pub apply_loop_mode: Option<i32>,
    pub sync_local_playback: bool,
    pub remote_projection_renderer_id: Option<i32>,
    pub disconnected_renderer_id: Option<i32>,
    pub watchdog_arm: Option<(i32, u64)>,
}

/// One piece of the work after a session event.
#[derive(Debug, Clone, Copy, PartialEq, Eq, Structural)]
pub enum SessionWork {
    ApplyLoopMode(i32),
    SyncLocalPlayback,
    SyncProjection(i32),
    LatchOwnership,
    FreezeProjection(i32),
    ArmWatchdog(i32, u64),
    CheckPeer,
}

impl SessionApplyOutcome {
    /// The work in its order: the loop mode, the playback that has to make way,
    /// the projection of the active renderer, who renders, then the renderer
    /// that left, the watchdog and the peer.
    pub open spec fn work(self) -> Seq<SessionWork> {
        (match self.apply_loop_mode {
            Some(mode) => seq![SessionWork::ApplyLoopMode(mode)],
            None => Seq::empty(),
        }) + (if self.sync_local_playback {
            seq![SessionWork::SyncLocalPlayback]
        } else {
            Seq::empty()
        }) + (match self.remote_projection_renderer_id {
            Some(id) => seq![SessionWork::SyncProjection(id)],
            None => Seq::empty(),
        }) + seq![SessionWork::LatchOwnership] + (match self.disconnected_renderer_id {
            Some(id) => seq![SessionWork::FreezeProjection(id)],
            None => Seq::empty(),
        }) + (match self.watchdog_arm {
            Some(arm) => seq![SessionWork::ArmWatchdog(arm.0, arm.1)],
            None => Seq::empty(),
        }) + seq![SessionWork::CheckPeer]
    }
}

/// The work that a session event asks for, in its order.
pub fn apply_session_management_event(outcome: SessionApplyOutcome) -> (r: Vec<SessionWork>)
    ensures
        r@ == outcome.work(),
{
    let mut work: Vec<SessionWork> = Vec::new();
    if let Some(mode) = outcome.apply_loop_mode {
        work.push(SessionWork::ApplyLoopMode(mode));
    }
    if outcome.sync_local_playback {
        work.push(SessionWork::SyncLocalPlayback);
    }
    if let Some(id) = outcome.remote_projection_renderer_id {
        work.push(SessionWork::SyncProjection(id));
    }
    work.push(SessionWork::LatchOwnership);
    if let Some(id) = outcome.disconnected_renderer_id {
        work.push(SessionWork::FreezeProjection(id));
    }
    if let Some(arm) = outcome.watchdog_arm {
        work.push(SessionWork::ArmWatchdog(arm.0, arm.1));
    }
    work.push(SessionWork::CheckPeer);
    assert(work@ =~= outcome.work());
    work
}

/// Whether local playback has to stop: another renderer took over, and something
/// is loaded here. Two devices never play at once.
pub fn sync_local_playback_for_renderer_ownership(
    peer_renderer_active: bool,
    playback: &PlaybackState,
) -> (r: bool)
    ensures
        r == (peer_renderer_active && playback.track_id != 0),
{
    peer_renderer_active && playback.track_id != 0
}

/// What to do about the projection of a renderer.
#[derive(Debug, Clone, Copy, PartialEq, Eq, Structural)]
pub enum ProjectionWork {
    /// It is not the active renderer, or too little is known of it.
    Ignore,
    /// Cache the snapshot of its state.
    Cache,
    /// Cache it, and align the local queue cursor to its track.
    CacheAndAlign,
}

/// Decide about the projection of `renderer_id`. The queue cursor follows it
/// only while another device renders.
pub fn sync_active_renderer_projection(
    renderer_id: i32,
    session: SessionRenderers,
    has_queue_state: bool,
    has_renderer_state: bool,
) -> (r: ProjectionWork)
    ensures
        r == (if session.active_renderer_id != Some(renderer_id) || !has_queue_state
            || !has_renderer_state {
            ProjectionWork::Ignore
        } else if session.local_renderer_id != Some(renderer_id) {
            ProjectionWork::CacheAndAlign
        } else {
            ProjectionWork::Cache
        }),
{
    match session.active_renderer_id {
        None => return ProjectionWork::Ignore,
        Some(active) => {
            if active != renderer_id {
                return ProjectionWork::Ignore;
            }
        },
    }
    if !has_queue_state || !has_renderer_state {
        return ProjectionWork::Ignore;
    }
    match session.local_renderer_id {
        Some(local) => {
            if local == renderer_id {
                ProjectionWork::Cache
            } else {
                ProjectionWork::CacheAndAlign
            }
        },
        None => ProjectionWork::CacheAndAlign,
    }
}

/// The track that the local queue cursor is aligned to, once the snapshot of a
/// renderer's state is cached.
pub fn projected_cursor(work: ProjectionWork, snapshot: &QConnectRendererState) -> (r: Option<u64>)
    ensures
        r == (match snapshot.current_track {
            Some(track) => if work == ProjectionWork::CacheAndAlign {
                Some(track.track_id)
            } else {
                None
            },
            None => None,
        }),
{
    match (work, &snapshot.current_track) {
        (ProjectionWork::CacheAndAlign, Some(track)) => Some(track.track_id),
        _ => None,
    }
}

/// What a command is about, noted before it is applied.
#[derive(Debug, Clone, Copy, PartialEq, Eq, Structural)]
pub struct CommandNote {
    pub became_active: bool,
    pub sets_active: bool,
}

/// What follows a command, in this order.
#[derive(Debug, Clone, Copy, PartialEq, Eq, Structural)]
pub struct CommandFollowUp {
    /// Announce that this renderer is active.
    pub report_ready: bool,
    /// Tell the controller the real volume.
    pub report_volume: bool,
    /// Publish anew who renders.
    pub latch_ownership: bool,
}

/// The renderer that an identifier of the wire names, where it can be one.
pub open spec fn wire_renderer(id: i64) -> Option<i32> {
    if i32::MIN <= id <= i32::MAX {
        Some(id as i32)
    } else {
        None
    }
}

/// What the sink remembers between two events.
#[derive(Debug, Clone, Copy, PartialEq, Eq, Structural)]
pub struct DaemonEventSink {
    /// Another device was the active renderer at the last event.
    pub last_peer_active: bool,
    /// When this renderer last became the active one.
    pub became_active_at: Option<u64>,
    /// The volume it joined with has been defended, or needs no defence.
    pub join_volume_asserted: bool,
    /// The session renders here, as published.
    pub is_active: bool,
}

impl DaemonEventSink {
    pub fn new() -> (r: Self)
        ensures
            !r.last_peer_active,
            r.became_active_at is None,
            !r.join_volume_asserted,
            !r.is_active,
    {
        DaemonEventSink {
            last_peer_active: false,
            became_active_at: None,
            join_volume_asserted: false,
            is_active: false,
        }
    }

    /// This renderer became active a short while ago.
    pub open spec fn just_joined(self, now_ms: u64) -> bool {
        self.became_active_at matches Some(at) && now_ms - at < JOIN_VOLUME_ASSERT_WINDOW_MS
    }

    /// The controller shows a volume for this renderer that it does not have,
    /// shortly after it joined, and was not yet told otherwise.
    pub open spec fn defends(
        self,
        renderer_id: Option<i64>,
        theirs: Option<i64>,
        local_renderer_id: Option<i32>,
        ours: i32,
        now_ms: u64,
    ) -> bool {
        &&& !self.join_volume_asserted
        &&& self.just_joined(now_ms)
        &&& renderer_id is Some
        &&& local_renderer_id is Some
        &&& local_renderer_id == wire_renderer(renderer_id->0)
        &&& theirs is Some
        &&& theirs->0 != ours
    }

    /// Defend the volume this renderer joined with, once: whether to report it
    /// again.
    pub fn defend_join_volume(
        &mut self,
        renderer_id: Option<i64>,
        theirs: Option<i64>,
        local_renderer_id: Option<i32>,
        ours: i32,
        now_ms: u64,
    ) -> (r: bool)
        ensures
            r == old(self).defends(renderer_id, theirs, local_renderer_id, ours, now_ms),
            *final(self) == (if r {
                DaemonEventSink { join_volume_asserted: true, ..*old(self) }
            } else {
                *old(self)
            }),
    {
        if self.join_volume_asserted {
            return false;
        }
        let within_window = match self.became_active_at {
            Some(at) => now_ms.saturating_sub(at) < JOIN_VOLUME_ASSERT_WINDOW_MS,
            None => false,
        };
        if !within_window {
            return false;
        }
        let is_us = match (renderer_id, local_renderer_id) {
            (Some(named), Some(local)) => named == local as i64,
            _ => false,
        };
        if !is_us {
            return false;
        }
        match theirs {
            None => false,
            Some(volume) => {
                if volume == ours as i64 {
                    false
                } else {
                    self.join_volume_asserted = true;
                    true
                }
            },
        }
    }

    /// Take in the controllers' view of a volume: whether to report this
    /// renderer's own again.
    pub fn assert_join_volume(
        &mut self,
        payload: &serde_json::Value,
        local_renderer_id: Option<i32>,
        ours: i32,
        now_ms: u64,
    ) -> (r: bool)
        ensures
            r == old(self).defends(
                crate::json::opt_signed(*payload, "/renderer_id"@),
                crate::json::opt_signed(*payload, "/volume"@),
                local_renderer_id,
                ours,
                now_ms,
            ),
            *final(self) == (if r {
                DaemonEventSink { join_volume_asserted: true, ..*old(self) }
            } else {
                *old(self)
            }),
    {
        let renderer_id = signed_at(payload, "/renderer_id");
        let theirs = signed_at(payload, "/volume");
        self.defend_join_volume(renderer_id, theirs, local_renderer_id, ours, now_ms)
    }

    /// Publish whether the session renders here. `role` is what the renderers'
    /// identifiers say; while they cannot tell, the last activation that this
    /// renderer honoured stands.
    pub fn latch_render_ownership(&mut self, role: Option<bool>, sync: &QconnectRemoteSyncState)
        ensures
            *final(self) == (DaemonEventSink {
                is_active: match role {
                    Some(active) => active,
                    None => sync.local_render_active == Some(true),
                },
                ..*old(self)
            }),
    {
        self.is_active = match role {
            Some(active) => active,
            None => match sync.local_render_active {
                Some(active) => active,
                None => false,
            },
        };
    }

    /// Take in whether another device renders now: whether to ask it for its full
    /// state, which is done once, as it takes over.
    pub fn check_peer(&mut self, peer_active_now: bool) -> (r: bool)
        ensures
            r == (peer_active_now && !old(self).last_peer_active),
            *final(self) == (DaemonEventSink { last_peer_active: peer_active_now, ..*old(self) }),
    {
        let ask = peer_active_now && !self.last_peer_active;
        self.last_peer_active = peer_active_now;
        ask
    }

    /// Note a command that is about to be applied. A volume that the controller
    /// sets is its own choice, so there is nothing left to defend.
    pub fn note_command(&mut self, command: &RendererCommand) -> (r: CommandNote)
        ensures
            r.became_active == (*command matches RendererCommand::SetActive { active } && active),
            r.sets_active == (*command is SetActive),
            *final(self) == (if *command is SetVolume {
                DaemonEventSink { join_volume_asserted: true, ..*old(self) }
            } else {
                *old(self)
            }),
    {
        match command {
            RendererCommand::SetVolume { .. } => {
                self.join_volume_asserted = true;
                CommandNote { became_active: false, sets_active: false }
            },
            RendererCommand::SetActive { active } => {
                CommandNote { became_active: *active, sets_active: true }
            },
            _ => CommandNote { became_active: false, sets_active: false },
        }
    }

    /// Take in whether a command was applied. Only now, as the active renderer,
    /// is this one's volume listened to, so it is reported here. Who renders is
    /// published anew even where the command failed.
    pub fn command_applied(&mut self, note: CommandNote, applied: bool, now_ms: u64) -> (r:
        CommandFollowUp)
        ensures
            r == (CommandFollowUp {
                report_ready: note.became_active && applied,
                report_volume: note.became_active && applied,
                latch_ownership: note.sets_active,
            }),
            *final(self) == (if note.became_active && applied {
                DaemonEventSink {
                    became_active_at: Some(now_ms),
                    join_volume_asserted: false,
                    ..*old(self)
                }
            } else {
                *old(self)
            }),
    {
        let joined = note.became_active && applied;
        if joined {
            self.became_active_at = Some(now_ms);
            self.join_volume_asserted = false;
        }
        CommandFollowUp {
            report_ready: joined,
            report_volume: joined,
            latch_ownership: note.sets_active,
        }
    }
}

/// Announce that this renderer is the active one.
pub fn report_active_renderer_ready(queue_version: QueueVersion) -> (r: RendererReport)
    ensures
        r.says(queue_version, ReportBody::Active),
{
    RendererReport::new(queue_version, ReportBody::Active)
}

/// Tell the controller this renderer's volume: the player's real one, or all of
/// it where the volume is locked.
pub fn report_volume(queue_version: QueueVersion, volume_mode: VolumeMode, real_pct: i32) -> (r:
    RendererReport)
    ensures
        r.says(
            queue_version,
            (ReportBody::Volume {
                percent: match volume_mode {
                    VolumeMode::Software => crate::engine::clamped_percent(real_pct as int) as i32,
                    VolumeMode::Locked => 100,
                },
            }),
        ),
{
    let percent: i32 = volume_mode.reported_volume_pct(real_pct);
    RendererReport::new(queue_version, ReportBody::Volume { percent })
}

/// What the cloud tells this renderer, by its kind.
#[derive(Debug)]
pub enum QconnectAppEvent {
    SessionManagement { message_type: String },
    RendererUpdated,
    QueueUpdated,
    RendererCommandApplied,
    /// A diagnosis, a lifecycle change or a renderer that is gone.
    Notice,
}

/// What an event calls for.
#[derive(Debug, Clone, Copy, PartialEq, Eq, Structural)]
pub enum EventWork {
    /// Apply the session event; then, where it shows a volume, see whether that
    /// has to be corrected.
    ApplySession { check_volume: bool },
    /// Cache the renderer's state.
    CacheSnapshot,
    /// Remember the queue and bring it into the local one.
    Materialize,
    /// Apply the command.
    ApplyCommand,
    /// Note it in the log.
    Log,
}

/// Find what an event calls for.
pub fn on_event(event: &QconnectAppEvent) -> (r: EventWork)
    ensures
        r == (match *event {
            QconnectAppEvent::SessionManagement { message_type } => EventWork::ApplySession {
                check_volume: message_type@ == VOLUME_CHANGED_MESSAGE@,
            },
            QconnectAppEvent::RendererUpdated => EventWork::CacheSnapshot,
            QconnectAppEvent::QueueUpdated => EventWork::Materialize,
            QconnectAppEvent::RendererCommandApplied => EventWork::ApplyCommand,
            QconnectAppEvent::Notice => EventWork::Log,
        }),
{
    match event {
        QconnectAppEvent::SessionManagement { message_type } => EventWork::ApplySession {
            check_volume: shows_volume(message_type.as_str()),
        },
        QconnectAppEvent::RendererUpdated => EventWork::CacheSnapshot,
        QconnectAppEvent::QueueUpdated => EventWork::Materialize,
        QconnectAppEvent::RendererCommandApplied => EventWork::ApplyCommand,
        QconnectAppEvent::Notice => EventWork::Log,
    }
}

/// Whether a session message shows a volume that may have to be corrected.
fn shows_volume(message_type: &str) -> (r: bool)
    ensures
        r == (message_type@ == VOLUME_CHANGED_MESSAGE@),
{
    same_text(message_type, VOLUME_CHANGED_MESSAGE)
}

/// The cloud's queue changed: remember it and start bringing it into the local
/// queue.
pub fn queue_updated(sync: &mut QconnectRemoteSyncState, queue: &QConnectQueueState) -> (r: (
    MaterializeRun,
    RunStep,
))
    ensures
        final(sync).last_remote_queue_state is Some,
        final(sync).last_remote_queue_state->0@ == queue@,
        (*final(sync)) == (QconnectRemoteSyncState {
            last_remote_queue_state: final(sync).last_remote_queue_state,
            last_applied_queue_state: final(sync).last_applied_queue_state,
            ..*old(sync)
        }),
        r.0.wf(),
        r.0.queue@ == queue@,
        r.0.renderer_queue_item_id == old(sync).last_renderer_queue_item_id,
        r.0.renderer_track_id == old(sync).last_renderer_track_id,
        r.0.renderer_next_queue_item_id == old(sync).last_renderer_next_queue_item_id,
        r.0.renderer_next_track_id == old(sync).last_renderer_next_track_id,
        r.0.renderer_playing_state == old(sync).last_renderer_playing_state,
        r.0.renderer_max_audio_quality == old(sync).last_renderer_max_audio_quality,
        r.0.cursor == 0,
        r.0.tracks@.len() == 0,
        ({
            let due = old(sync).last_applied_queue_state is None || crate::renderer::queue_differs(
                old(sync).last_applied_queue_state->0@,
                queue@,
            );
            if !due {
                &&& r.0.stage == crate::materialize::MaterializeStage::Finished
                &&& r.1 == RunStep::Finished(Ok(()))
                &&& final(sync).last_applied_queue_state == old(sync).last_applied_queue_state
            } else {
                &&& final(sync).last_applied_queue_state is Some
                &&& final(sync).last_applied_queue_state->0@ == queue@
                &&& if queue.queue_items@.len() == 0 {
                    &&& r.0.stage == crate::materialize::MaterializeStage::Clearing
                    &&& r.1 == RunStep::Call(crate::renderer_model::EngineCall::ClearQueue)
                } else {
                    &&& r.0.stage == crate::materialize::MaterializeStage::FetchingBatch
                    &&& r.1 matches RunStep::Call(
                        crate::renderer_model::EngineCall::FetchTracks(ids),
                    ) && ids@ == crate::materialize::distinct_ids(queue.queue_items@)
                }
            }
        }),
{
    sync.last_remote_queue_state = Some(queue.copy());
    materialize_remote_queue(sync, queue)
}

/// Once the volume has been defended, no later view of it is answered until this
/// renderer joins again: a controller that insists wins.
pub proof fn law_the_join_volume_is_defended_once(
    sink: DaemonEventSink,
    renderer_id: Option<i64>,
    theirs: Option<i64>,
    later_renderer_id: Option<i64>,
    later_theirs: Option<i64>,
    local_renderer_id: Option<i32>,
    ours: i32,
    now_ms: u64,
    later_ms: u64,
)
    requires
        sink.defends(renderer_id, theirs, local_renderer_id, ours, now_ms),
    ensures
        !(DaemonEventSink { join_volume_asserted: true, ..sink }).defends(
            later_renderer_id,
            later_theirs,
            local_renderer_id,
            ours,
            later_ms,
        ),
{
}

/// After the window the volume belongs to whoever holds the slider.
pub proof fn law_the_join_volume_is_not_defended_late(
    sink: DaemonEventSink,
    renderer_id: Option<i64>,
    theirs: Option<i64>,
    local_renderer_id: Option<i32>,
    ours: i32,
    now_ms: u64,
)
    requires
        sink.became_active_at matches Some(at) && now_ms >= at + JOIN_VOLUME_ASSERT_WINDOW_MS,
    ensures
        !sink.defends(renderer_id, theirs, local_renderer_id, ours, now_ms),
{
}

} // verus!
