//! Playback engines: the source queue, the flags an engine shares with its
//! writer, and what each engine does with a request.

use std::collections::VecDeque;
use vstd::prelude::*;
use vstd::string::*;

verus! {

/// Source queue for gapless playback: the writer consumes sources in the order
/// they were appended.
pub struct SourceQueue<S> {
    pub queue: VecDeque<S>,
}

impl<S> View for SourceQueue<S> {
    type V = Seq<S>;

    open spec fn view(&self) -> Seq<S> {
        self.queue@
    }
}

impl<S> SourceQueue<S> {
    pub fn new() -> (r: Self)
        ensures
            r@ == Seq::<S>::empty(),
    {
        SourceQueue { queue: VecDeque::new() }
    }

    /// Push a new source to the back of the queue.
    pub fn push(&mut self, source: S)
        ensures
            final(self)@ == old(self)@.push(source),
    {
        self.queue.push_back(source);
    }

    /// Pop the next source, if there is one.
    pub fn try_pop(&mut self) -> (r: Option<S>)
        ensures
            match r {
                Some(source) => {
                    &&& old(self)@.len() > 0
                    &&& source == old(self)@[0]
                    &&& final(self)@ == old(self)@.drop_first()
                },
                None => old(self)@.len() == 0 && final(self)@ == old(self)@,
            },
    {
        let r = self.queue.pop_front();
        proof {
            if r is Some {
                assert(self@ =~= old(self)@.drop_first());
            } else {
                assert(self@ =~= old(self)@);
            }
        }
        r
    }

    /// What a wait for a source came to, once it is over: the next source, or
    /// `None` where it timed out with nothing there.
    pub fn wait_for_source(&mut self) -> (r: Option<S>)
        ensures
            match r {
                Some(source) => {
                    &&& old(self)@.len() > 0
                    &&& source == old(self)@[0]
                    &&& final(self)@ == old(self)@.drop_first()
                },
                None => old(self)@.len() == 0 && final(self)@ == old(self)@,
            },
    {
        self.try_pop()
    }

    pub fn is_empty(&self) -> (r: bool)
        ensures
            r == (self@.len() == 0),
    {
        self.queue.len() == 0
    }
}

/// What an engine with a writer thread shares with it.
pub struct Line<S> {
    pub is_playing: bool,
    pub should_stop: bool,
    pub position_frames: u64,
    pub duration_frames: u64,
    pub sources: SourceQueue<S>,
    /// The writer moved on to the next source without a gap.
    pub source_transition: bool,
    /// Frames per second that the writer puts out.
    pub sample_rate: u32,
}

impl<S> Line<S> {
    pub fn new(sample_rate: u32) -> (r: Self)
        ensures
            !r.is_playing,
            !r.should_stop,
            r.position_frames == 0,
            r.duration_frames == 0,
            r.sources@.len() == 0,
            !r.source_transition,
            r.sample_rate == sample_rate,
    {
        Line {
            is_playing: false,
            should_stop: false,
            position_frames: 0,
            duration_frames: 0,
            sources: SourceQueue::new(),
            source_transition: false,
            sample_rate,
        }
    }

    /// Nothing plays and nothing is queued.
    pub open spec fn is_idle(self) -> bool {
        !self.is_playing && self.sources@.len() == 0
    }

    /// `after` has `source` at the end of its queue. The first source of an
    /// idle line starts playback over; any other is queued for a gapless
    /// transition.
    pub open spec fn queued_to(self, after: Line<S>, source: S) -> bool {
        &&& after.sources@ == self.sources@.push(source)
        &&& after.sample_rate == self.sample_rate
        &&& after.duration_frames == self.duration_frames
        &&& if self.is_idle() {
            after.is_playing && !after.should_stop && after.position_frames == 0
                && !after.source_transition
        } else {
            &&& after.is_playing == self.is_playing
            &&& after.should_stop == self.should_stop
            &&& after.position_frames == self.position_frames
            &&& after.source_transition == self.source_transition
        }
    }

    /// The line once a stop is under way.
    pub open spec fn stopped(self) -> Line<S> {
        Line { should_stop: true, is_playing: false, ..self }
    }

    fn enqueue(&mut self, source: S)
        ensures
            old(self).queued_to(*final(self), source),
    {
        let is_first = self.sources.is_empty() && !self.is_playing;
        self.sources.push(source);
        if is_first {
            self.position_frames = 0;
            self.should_stop = false;
            self.source_transition = false;
            self.is_playing = true;
        }
    }

    /// Begin to stop; false when that is under way already.
    fn begin_stop(&mut self) -> (r: bool)
        ensures
            r == !old(self).should_stop,
            old(self).should_stop ==> *final(self) == *old(self),
            !old(self).should_stop ==> *final(self) == old(self).stopped(),
    {
        if self.should_stop {
            return false;
        }
        self.should_stop = true;
        self.is_playing = false;
        true
    }
}

/// What became of appending a source.
pub enum Appended<S> {
    /// Hand it to the output library, which keeps its own queue.
    Delegate(S),
    Queued,
}

/// What stopping an engine takes.
#[derive(Debug, Clone, Copy, PartialEq, Eq, Structural)]
pub enum StopAction {
    /// The output library stops by itself.
    Delegate,
    /// A stop is under way already.
    AlreadyStopped,
    /// Join the writer, but no longer than the grace period; then stop the
    /// stream.
    JoinBounded,
    /// Join the writer.
    Join,
    /// Join the writer, then stop the stream.
    JoinThenStop,
}

/// How a volume reaches the output.
#[derive(Debug, Clone, Copy, PartialEq, Eq, Structural)]
pub enum VolumeRoute {
    /// The output library applies the curved gain.
    Sink,
    /// The card's mixer takes the fraction as it is.
    HardwareMixer,
    /// The writer applies the curved gain.
    Writer,
    /// The volume is fixed.
    Fixed,
}

/// A playback engine.
pub enum PlaybackEngine<S> {
    /// The output library mixes and queues.
    Rodio,
    /// Direct to the card, with a gapless source queue.
    AlsaDirect { line: Line<S>, hardware_volume: bool },
    /// Resampled to the graph's rate.
    Jack { line: Line<S> },
    /// Pre-packed DSD words, written verbatim.
    AlsaDop { line: Line<S> },
}

impl<S> PlaybackEngine<S> {
    pub fn new_rodio() -> (r: Self)
        ensures
            r is Rodio,
    {
        PlaybackEngine::Rodio
    }

    pub fn new_alsa_direct(sample_rate: u32, hardware_volume: bool) -> (r: Self)
        ensures
            r matches PlaybackEngine::AlsaDirect { line, hardware_volume: h } && line.is_idle()
                && !line.should_stop && line.position_frames == 0 && line.duration_frames == 0
                && !line.source_transition && line.sample_rate == sample_rate && h
                == hardware_volume,
    {
        PlaybackEngine::AlsaDirect { line: Line::new(sample_rate), hardware_volume }
    }

    pub fn new_jack(graph_rate: u32) -> (r: Self)
        ensures
            r matches PlaybackEngine::Jack { line } && line.is_idle() && !line.should_stop
                && line.position_frames == 0 && line.duration_frames == 0
                && !line.source_transition && line.sample_rate == graph_rate,
    {
        PlaybackEngine::Jack { line: Line::new(graph_rate) }
    }

    pub fn new_alsa_dop(carrier_rate: u32) -> (r: Self)
        ensures
            r matches PlaybackEngine::AlsaDop { line } && line.is_idle() && !line.should_stop
                && line.position_frames == 0 && line.duration_frames == 0
                && !line.source_transition && line.sample_rate == carrier_rate,
    {
        PlaybackEngine::AlsaDop { line: Line::new(carrier_rate) }
    }

    /// What the engine shares with its writer, if it has one.
    pub open spec fn line(self) -> Option<Line<S>> {
        match self {
            PlaybackEngine::Rodio => None,
            PlaybackEngine::AlsaDirect { line, .. } => Some(line),
            PlaybackEngine::Jack { line } => Some(line),
            PlaybackEngine::AlsaDop { line } => Some(line),
        }
    }

    /// The same engine around another line.
    pub open spec fn same_kind(self, other: PlaybackEngine<S>) -> bool {
        match (self, other) {
            (PlaybackEngine::Rodio, PlaybackEngine::Rodio) => true,
            (
                PlaybackEngine::AlsaDirect { hardware_volume: a, .. },
                PlaybackEngine::AlsaDirect { hardware_volume: b, .. },
            ) => a == b,
            (PlaybackEngine::Jack { .. }, PlaybackEngine::Jack { .. }) => true,
            (PlaybackEngine::AlsaDop { .. }, PlaybackEngine::AlsaDop { .. }) => true,
            _ => false,
        }
    }

    /// Queue a DSD source.
    pub fn append_dop(&mut self, source: S) -> (r: Result<(), String>)
        ensures
            final(self).same_kind(*old(self)),
            match *old(self) {
                PlaybackEngine::AlsaDop { line } => r is Ok && line.queued_to(
                    final(self).line()->0,
                    source,
                ),
                _ => *final(self) == *old(self) && (r matches Err(message) && message@
                    == "append_dop on a non-DoP engine"@),
            },
    {
        match self {
            PlaybackEngine::AlsaDop { line } => {
                line.enqueue(source);
                Ok(())
            },
            _ => Err(String::from_str("append_dop on a non-DoP engine")),
        }
    }

    /// Whether this engine writes DSD words.
    pub fn is_dop(&self) -> (r: bool)
        ensures
            r == (self is AlsaDop),
    {
        matches!(self, PlaybackEngine::AlsaDop { .. })
    }

    /// Append an audio source.
    pub fn append(&mut self, source: S) -> (r: Result<Appended<S>, String>)
        ensures
            final(self).same_kind(*old(self)),
            match *old(self) {
                PlaybackEngine::Rodio => *final(self) == *old(self) && r == Ok::<
                    Appended<S>,
                    String,
                >(Appended::Delegate(source)),
                PlaybackEngine::AlsaDirect { line, .. } => (r matches Ok(Appended::Queued))
                    && line.queued_to(final(self).line()->0, source),
                PlaybackEngine::Jack { line } => (r matches Ok(Appended::Queued))
                    && line.queued_to(final(self).line()->0, source),
                PlaybackEngine::AlsaDop { .. } => *final(self) == *old(self) && (r matches Err(
                    message,
                ) && message@ == "cannot append a PCM source to a DoP engine"@),
            },
    {
        match self {
            PlaybackEngine::Rodio => Ok(Appended::Delegate(source)),
            PlaybackEngine::AlsaDirect { line, hardware_volume: _ } => {
                line.enqueue(source);
                Ok(Appended::Queued)
            },
            PlaybackEngine::Jack { line } => {
                line.enqueue(source);
                Ok(Appended::Queued)
            },
            PlaybackEngine::AlsaDop { line: _ } => Err(
                String::from_str("cannot append a PCM source to a DoP engine"),
            ),
        }
    }

    fn set_playing(&mut self, playing: bool)
        ensures
            final(self).same_kind(*old(self)),
            final(self).line() == (match old(self).line() {
                Some(line) => Some(Line { is_playing: playing, ..line }),
                None => None,
            }),
    {
        match self {
            PlaybackEngine::Rodio => {},
            PlaybackEngine::AlsaDirect { line, hardware_volume: _ } => {
                line.is_playing = playing;
            },
            PlaybackEngine::Jack { line } => {
                line.is_playing = playing;
            },
            PlaybackEngine::AlsaDop { line } => {
                line.is_playing = playing;
            },
        }
    }

    /// Resume; the output library's own engine is resumed by the host.
    pub fn play(&mut self)
        ensures
            final(self).same_kind(*old(self)),
            final(self).line() == (match old(self).line() {
                Some(line) => Some(Line { is_playing: true, ..line }),
                None => None,
            }),
    {
        self.set_playing(true);
    }

    /// Pause; the output library's own engine is paused by the host.
    pub fn pause(&mut self)
        ensures
            final(self).same_kind(*old(self)),
            final(self).line() == (match old(self).line() {
                Some(line) => Some(Line { is_playing: false, ..line }),
                None => None,
            }),
    {
        self.set_playing(false);
    }

    /// Stop playback: what the host has left to do.
    pub fn stop_inner(&mut self) -> (r: StopAction)
        ensures
            final(self).same_kind(*old(self)),
            match old(self).line() {
                None => r == StopAction::Delegate && *final(self) == *old(self),
                Some(line) => if line.should_stop {
                    r == StopAction::AlreadyStopped && *final(self) == *old(self)
                } else {
                    &&& r == (match *old(self) {
                        PlaybackEngine::AlsaDirect { .. } => StopAction::JoinBounded,
                        PlaybackEngine::Jack { .. } => StopAction::Join,
                        _ => StopAction::JoinThenStop,
                    })
                    &&& final(self).line() == Some(line.stopped())
                },
            },
    {
        match self {
            PlaybackEngine::Rodio => StopAction::Delegate,
            PlaybackEngine::AlsaDirect { line, hardware_volume: _ } => {
                if line.begin_stop() {
                    StopAction::JoinBounded
                } else {
                    StopAction::AlreadyStopped
                }
            },
            PlaybackEngine::Jack { line } => {
                if line.begin_stop() {
                    StopAction::Join
                } else {
                    StopAction::AlreadyStopped
                }
            },
            PlaybackEngine::AlsaDop { line } => {
                if line.begin_stop() {
                    StopAction::JoinThenStop
                } else {
                    StopAction::AlreadyStopped
                }
            },
        }
    }

    /// How a volume reaches this engine's output.
    pub fn set_volume(&self) -> (r: VolumeRoute)
        ensures
            r == (match *self {
                PlaybackEngine::Rodio => VolumeRoute::Sink,
                PlaybackEngine::AlsaDirect { hardware_volume, .. } => if hardware_volume {
                    VolumeRoute::HardwareMixer
                } else {
                    VolumeRoute::Writer
                },
                _ => VolumeRoute::Fixed,
            }),
    {
        match self {
            PlaybackEngine::Rodio => VolumeRoute::Sink,
            PlaybackEngine::AlsaDirect { line: _, hardware_volume } => {
                if *hardware_volume {
                    VolumeRoute::HardwareMixer
                } else {
                    VolumeRoute::Writer
                }
            },
            _ => VolumeRoute::Fixed,
        }
    }

    /// Whether all sources are consumed and nothing plays; `None` where only
    /// the output library knows.
    pub fn empty(&self) -> (r: Option<bool>)
        ensures
            r == (match self.line() {
                Some(line) => Some(line.is_idle()),
                None => None,
            }),
    {
        match self {
            PlaybackEngine::Rodio => None,
            PlaybackEngine::AlsaDirect { line, hardware_volume: _ } => Some(
                !line.is_playing && line.sources.is_empty(),
            ),
            PlaybackEngine::Jack { line } => Some(!line.is_playing && line.sources.is_empty()),
            PlaybackEngine::AlsaDop { line } => Some(!line.is_playing && line.sources.is_empty()),
        }
    }

    /// Whether a gapless transition just happened; true once for each.
    pub fn take_source_transition(&mut self) -> (r: bool)
        ensures
            final(self).same_kind(*old(self)),
            r == (old(self).line() matches Some(line) && line.source_transition),
            final(self).line() == (match old(self).line() {
                Some(line) => Some(Line { source_transition: false, ..line }),
                None => None,
            }),
    {
        match self {
            PlaybackEngine::Rodio => false,
            PlaybackEngine::AlsaDirect { line, hardware_volume: _ } => {
                let r = line.source_transition;
                line.source_transition = false;
                r
            },
            PlaybackEngine::Jack { line } => {
                let r = line.source_transition;
                line.source_transition = false;
                r
            },
            PlaybackEngine::AlsaDop { line } => {
                let r = line.source_transition;
                line.source_transition = false;
                r
            },
        }
    }

    /// Current position in seconds, where this engine counts frames.
    pub fn position_secs(&self) -> (r: Option<u64>)
        requires
            self matches PlaybackEngine::AlsaDirect { line, .. } ==> line.sample_rate > 0,
        ensures
            r == (match self.line() {
                Some(line) => Some(whole_secs(line.position_frames, line.sample_rate)),
                None => None,
            }),
    {
        match self {
            PlaybackEngine::Rodio => None,
            PlaybackEngine::AlsaDirect { line, hardware_volume: _ } => Some(
                line.position_frames / line.sample_rate as u64,
            ),
            PlaybackEngine::Jack { line } => Some(
                secs_of(line.position_frames, line.sample_rate),
            ),
            PlaybackEngine::AlsaDop { line } => Some(
                secs_of(line.position_frames, line.sample_rate),
            ),
        }
    }

    /// Duration in seconds, where this engine counts frames.
    pub fn duration_secs(&self) -> (r: Option<u64>)
        requires
            self matches PlaybackEngine::AlsaDirect { line, .. } ==> line.sample_rate > 0,
        ensures
            r == (match *self {
                PlaybackEngine::AlsaDirect { line, .. } => Some(
                    whole_secs(line.duration_frames, line.sample_rate),
                ),
                PlaybackEngine::Jack { line } => Some(
                    whole_secs(line.duration_frames, line.sample_rate),
                ),
                _ => None,
            }),
    {
        match self {
            PlaybackEngine::AlsaDirect { line, hardware_volume: _ } => Some(
                line.duration_frames / line.sample_rate as u64,
            ),
            PlaybackEngine::Jack { line } => Some(
                secs_of(line.duration_frames, line.sample_rate),
            ),
            _ => None,
        }
    }

    /// Whether this engine writes PCM straight to the card.
    pub fn is_alsa_direct(&self) -> (r: bool)
        ensures
            r == (self is AlsaDirect),
    {
        matches!(self, PlaybackEngine::AlsaDirect { .. })
    }
}

/// Whole seconds in `frames`; an unknown rate counts one frame a second.
pub open spec fn whole_secs(frames: u64, sample_rate: u32) -> u64 {
    if sample_rate == 0 {
        frames
    } else {
        frames / sample_rate as u64
    }
}

fn secs_of(frames: u64, sample_rate: u32) -> (r: u64)
    ensures
        r == whole_secs(frames, sample_rate),
{
    if sample_rate == 0 {
        frames
    } else {
        frames / sample_rate as u64
    }
}

/// How long a stop waits for a writer that may be stuck in the driver.
pub const WRITER_EXIT_GRACE_MS: u64 = 3_000;

/// What the wait for a writer does next.
#[derive(Debug, Clone, Copy, PartialEq, Eq, Structural)]
pub enum JoinStep {
    /// The writer is done: join it.
    Join,
    /// Look again in a moment.
    Wait,
    /// It is stuck against a device that stopped draining: leave it.
    Abandon,
}

/// Wait for a writer, but not for ever.
pub fn join_step(finished: bool, waited_ms: u64) -> (r: JoinStep)
    ensures
        r == (if finished {
            JoinStep::Join
        } else if waited_ms < WRITER_EXIT_GRACE_MS {
            JoinStep::Wait
        } else {
            JoinStep::Abandon
        }),
{
    if finished {
        JoinStep::Join
    } else if waited_ms < WRITER_EXIT_GRACE_MS {
        JoinStep::Wait
    } else {
        JoinStep::Abandon
    }
}

/// Should a writer that drained at a natural end resume for the source it has
/// just picked up? Only when no stop is in progress: resuming would defeat the
/// pause gate by which the writer notices the stop.
pub fn should_resume_after_drain(resume_pending: bool, should_stop: bool, is_playing: bool) -> (r:
    bool)
    ensures
        r == (resume_pending && !should_stop && !is_playing),
{
    resume_pending && !should_stop && !is_playing
}

/// Stopping twice is stopping once: a stop that is under way is noticed, and
/// would change nothing.
pub proof fn law_a_second_stop_changes_nothing<S>(line: Line<S>)
    ensures
        line.stopped().should_stop,
        line.stopped().stopped() == line.stopped(),
        line.stopped().sources == line.sources,
        line.stopped().position_frames == line.position_frames,
{
}

/// A queue after these sources were pushed, one by one.
pub open spec fn after_pushes<S>(queue: Seq<S>, sources: Seq<S>) -> Seq<S>
    decreases sources.len(),
{
    if sources.len() == 0 {
        queue
    } else {
        after_pushes(queue, sources.drop_last()).push(sources.last())
    }
}

/// A queue after `n` pops.
pub open spec fn after_pops<S>(queue: Seq<S>, n: nat) -> Seq<S>
    decreases n,
{
    if n == 0 {
        queue
    } else {
        after_pops(queue, (n - 1) as nat).drop_first()
    }
}

proof fn lemma_pushes_append<S>(queue: Seq<S>, sources: Seq<S>)
    ensures
        after_pushes(queue, sources) == queue + sources,
    decreases sources.len(),
{
    if sources.len() == 0 {
        assert(queue + sources =~= queue);
    } else {
        lemma_pushes_append(queue, sources.drop_last());
        assert((queue + sources.drop_last()).push(sources.last()) =~= queue + sources);
    }
}

proof fn lemma_pops_skip<S>(queue: Seq<S>, n: nat)
    requires
        n <= queue.len(),
    ensures
        after_pops(queue, n) == queue.skip(n as int),
    decreases n,
{
    if n == 0 {
        assert(queue.skip(0) =~= queue);
    } else {
        lemma_pops_skip(queue, (n - 1) as nat);
        assert(queue.skip(n - 1).drop_first() =~= queue.skip(n as int));
    }
}

/// Sources come out in the order they went in, behind what was queued before.
pub proof fn law_sources_play_in_order<S>(queue: Seq<S>, sources: Seq<S>, i: nat)
    requires
        i < sources.len(),
    ensures
        after_pops(after_pushes(queue, sources), queue.len() + i).len() > 0,
        after_pops(after_pushes(queue, sources), queue.len() + i)[0] == sources[i as int],
{
    lemma_pushes_append(queue, sources);
    lemma_pops_skip(queue + sources, queue.len() + i);
}

} // verus!
