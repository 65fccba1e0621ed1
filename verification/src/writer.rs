//! The writer behind a playback engine: when it waits, pauses, fills and
//! drains, and how it moves from one source to the next.

use vstd::prelude::*;

use crate::playback_engine::{should_resume_after_drain, Line};

verus! {

/// Frames a direct writer puts out at a time.
pub const ALSA_CHUNK_FRAMES: usize = 8192;

/// Frames a graph feeder or a DSD writer puts out at a time.
pub const SMALL_CHUNK_FRAMES: usize = 4096;

/// Channels of the graph.
pub const JACK_CHANNELS: usize = 2;

/// What a writer does next.
#[derive(Debug, Clone, Copy, PartialEq, Eq, Structural)]
pub enum WriterStep {
    /// A stop is in progress.
    Exit,
    /// There is no source: wait a moment for one.
    WaitForSource,
    /// Paused: sleep a moment, then ask again whether to go on.
    Sleep,
    /// Fill a chunk of this many samples from the source, and write it.
    Fill { samples: usize },
}

/// The single long-lived writer of a direct engine.
pub struct AlsaWriter<S> {
    pub current: Option<S>,
    /// Frames written of the current source.
    pub total_frames: u64,
    /// This writer itself ended playback at a natural end, so the next source
    /// it picks up has to turn it back on.
    pub resume_pending: bool,
    pub channels: u16,
}

impl<S> AlsaWriter<S> {
    /// Only a writer without a source waits to resume, so it never resumes what
    /// a user paused.
    pub open spec fn wf(self) -> bool {
        self.channels > 0 && (self.resume_pending ==> self.current is None)
    }

    pub fn new(channels: u16) -> (r: Self)
        requires
            channels > 0,
        ensures
            r.wf(),
            r.current is None,
            r.total_frames == 0,
            !r.resume_pending,
            r.channels == channels,
    {
        AlsaWriter { current: None, total_frames: 0, resume_pending: false, channels }
    }

    /// The pause gate, where a paused writer notices a stop.
    pub open spec fn gate_step(self, line: Line<S>) -> WriterStep {
        if line.is_playing {
            WriterStep::Fill { samples: (ALSA_CHUNK_FRAMES * self.channels) as usize }
        } else if line.should_stop {
            WriterStep::Exit
        } else {
            WriterStep::Sleep
        }
    }

    pub fn gate(&self, line: &Line<S>) -> (r: WriterStep)
        ensures
            r == self.gate_step(*line),
    {
        if line.is_playing {
            WriterStep::Fill { samples: ALSA_CHUNK_FRAMES * self.channels as usize }
        } else if line.should_stop {
            WriterStep::Exit
        } else {
            WriterStep::Sleep
        }
    }

    /// What the writer does at the top of its loop.
    pub fn next(&self, line: &Line<S>) -> (r: WriterStep)
        ensures
            r == (if line.should_stop {
                WriterStep::Exit
            } else if self.current is None {
                WriterStep::WaitForSource
            } else {
                self.gate_step(*line)
            }),
    {
        if line.should_stop {
            WriterStep::Exit
        } else if self.current.is_none() {
            WriterStep::WaitForSource
        } else {
            self.gate(line)
        }
    }

    /// The writer turns playback back on for the source it picks up.
    pub open spec fn resumes(self, line: Line<S>) -> bool {
        self.resume_pending && !line.should_stop && !line.is_playing
    }

    /// A wait for a source is over; true when there was one. A late hand-off,
    /// queued while the writer was draining, is played rather than held
    /// forever, but never against a stop in progress.
    pub fn on_wait(&mut self, line: &mut Line<S>) -> (r: bool)
        requires
            old(self).wf(),
            old(self).current is None,
        ensures
            final(self).wf(),
            final(self).channels == old(self).channels,
            r == (old(line).sources@.len() > 0),
            !r ==> *final(self) == *old(self) && final(line).same_flags(*old(line))
                && final(line).sources@ == old(line).sources@,
            r ==> {
                &&& final(self).current == Some(old(line).sources@[0])
                &&& final(line).sources@ == old(line).sources@.drop_first()
                &&& final(self).total_frames == 0
                &&& !final(self).resume_pending
                &&& final(line).is_playing == (old(line).is_playing || old(self).resumes(
                    *old(line),
                ))
                &&& final(line).position_frames == 0
                &&& final(line).should_stop == old(line).should_stop
                &&& final(line).duration_frames == old(line).duration_frames
                &&& final(line).source_transition == old(line).source_transition
                &&& final(line).sample_rate == old(line).sample_rate
            },
    {
        match line.sources.wait_for_source() {
            Some(source) => {
                if self.resume_pending {
                    let resume = should_resume_after_drain(
                        self.resume_pending,
                        line.should_stop,
                        line.is_playing,
                    );
                    self.resume_pending = false;
                    if resume {
                        line.is_playing = true;
                    }
                }
                self.current = Some(source);
                self.total_frames = 0;
                line.position_frames = 0;
                true
            },
            None => false,
        }
    }

    /// The frames in `samples`.
    pub open spec fn frames_in(self, samples: usize) -> int {
        samples as int / self.channels as int
    }

    /// A chunk of `samples` has been written; `ended` says that the source ran
    /// out with it. True when nothing is left to play: drain the device, then
    /// report it drained. Otherwise the next source follows without a gap.
    pub fn on_written(&mut self, line: &mut Line<S>, samples: usize, ended: bool) -> (r: bool)
        requires
            old(self).wf(),
            old(self).current is Some,
            old(self).total_frames + samples <= u64::MAX,
        ensures
            final(self).wf(),
            final(self).channels == old(self).channels,
            !final(self).resume_pending,
            final(line).is_playing == old(line).is_playing,
            final(line).should_stop == old(line).should_stop,
            final(line).sample_rate == old(line).sample_rate,
            r == (ended && old(line).sources@.len() == 0),
            final(line).duration_frames == (if samples > 0 {
                old(self).total_frames + old(self).frames_in(samples)
            } else {
                old(line).duration_frames as int
            }),
            ({
                let handed_over = ended && old(line).sources@.len() > 0;
                if handed_over {
                    &&& final(self).current == Some(old(line).sources@[0])
                    &&& final(line).sources@ == old(line).sources@.drop_first()
                    &&& final(self).total_frames == 0
                    &&& final(line).position_frames == 0
                    &&& final(line).source_transition
                } else {
                    &&& final(self).current == old(self).current
                    &&& final(line).sources@ == old(line).sources@
                    &&& final(line).source_transition == old(line).source_transition
                    &&& final(self).total_frames == (if samples > 0 {
                        old(self).total_frames + old(self).frames_in(samples)
                    } else {
                        old(self).total_frames as int
                    })
                    &&& final(line).position_frames == (if samples > 0 {
                        old(self).total_frames + old(self).frames_in(samples)
                    } else {
                        old(line).position_frames as int
                    })
                }
            }),
    {
        if samples > 0 {
            let frames: u64 = (samples / self.channels as usize) as u64;
            assert(frames <= samples) by (nonlinear_arith)
                requires
                    frames == samples as int / self.channels as int,
                    self.channels > 0,
                    samples >= 0,
            ;
            self.total_frames = self.total_frames + frames;
            line.position_frames = self.total_frames;
            line.duration_frames = self.total_frames;
        }
        if ended {
            match line.sources.try_pop() {
                Some(source) => {
                    self.current = Some(source);
                    self.total_frames = 0;
                    line.position_frames = 0;
                    line.source_transition = true;
                    return false;
                },
                None => {
                    return true;
                },
            }
        }
        false
    }

    /// The device is drained: playback is over until another source arrives.
    pub fn on_drained(&mut self, line: &mut Line<S>)
        requires
            old(self).wf(),
        ensures
            final(self).wf(),
            (*final(self)) == (AlsaWriter {
                current: None,
                resume_pending: true,
                ..*old(self)
            }),
            (*final(line)) == (Line { is_playing: false, ..*old(line) }),
    {
        self.current = None;
        line.is_playing = false;
        self.resume_pending = true;
    }

    /// The writer ends, on a stop or a failed write.
    pub fn on_exit(&self, line: &mut Line<S>)
        ensures
            (*final(line)) == (Line { is_playing: false, ..*old(line) }),
    {
        line.is_playing = false;
    }
}

impl<S> Line<S> {
    /// Everything but the sources is the same in `other`.
    pub open spec fn same_flags(self, other: Line<S>) -> bool {
        &&& self.is_playing == other.is_playing
        &&& self.should_stop == other.should_stop
        &&& self.position_frames == other.position_frames
        &&& self.duration_frames == other.duration_frames
        &&& self.source_transition == other.source_transition
        &&& self.sample_rate == other.sample_rate
    }
}

/// The single long-lived feeder of a graph engine.
pub struct JackFeeder<S> {
    pub current: Option<S>,
    pub total_frames: u64,
}

impl<S> JackFeeder<S> {
    pub fn new() -> (r: Self)
        ensures
            r.current is None,
            r.total_frames == 0,
    {
        JackFeeder { current: None, total_frames: 0 }
    }

    pub open spec fn gate_step(self, line: Line<S>) -> WriterStep {
        if line.is_playing {
            WriterStep::Fill { samples: (SMALL_CHUNK_FRAMES * JACK_CHANNELS) as usize }
        } else if line.should_stop {
            WriterStep::Exit
        } else {
            WriterStep::Sleep
        }
    }

    /// The pause gate, where a paused feeder notices a stop.
    pub fn gate(&self, line: &Line<S>) -> (r: WriterStep)
        ensures
            r == self.gate_step(*line),
    {
        if line.is_playing {
            WriterStep::Fill { samples: SMALL_CHUNK_FRAMES * JACK_CHANNELS }
        } else if line.should_stop {
            WriterStep::Exit
        } else {
            WriterStep::Sleep
        }
    }

    /// What the feeder does at the top of its loop.
    pub fn next(&self, line: &Line<S>) -> (r: WriterStep)
        ensures
            r == (if line.should_stop {
                WriterStep::Exit
            } else if self.current is None {
                WriterStep::WaitForSource
            } else {
                self.gate_step(*line)
            }),
    {
        if line.should_stop {
            WriterStep::Exit
        } else if self.current.is_none() {
            WriterStep::WaitForSource
        } else {
            self.gate(line)
        }
    }

    /// A wait for a source is over; true when there was one.
    pub fn on_wait(&mut self, line: &mut Line<S>) -> (r: bool)
        requires
            old(self).current is None,
        ensures
            r == (old(line).sources@.len() > 0),
            !r ==> *final(self) == *old(self) && final(line).same_flags(*old(line))
                && final(line).sources@ == old(line).sources@,
            r ==> {
                &&& final(self).current == Some(old(line).sources@[0])
                &&& final(self).total_frames == 0
                &&& final(line).sources@ == old(line).sources@.drop_first()
                &&& final(line).same_flags((Line { position_frames: 0, ..*old(line) }))
            },
    {
        match line.sources.wait_for_source() {
            Some(source) => {
                self.current = Some(source);
                self.total_frames = 0;
                line.position_frames = 0;
                true
            },
            None => false,
        }
    }

    /// The ring took `frames` of the chunk, of which `written` samples had gone
    /// before: how many have gone now. None means that the ring is full.
    pub fn on_ring(&mut self, line: &mut Line<S>, written: usize, frames: usize) -> (r: usize)
        requires
            old(self).total_frames + frames <= u64::MAX,
            written + frames * JACK_CHANNELS <= usize::MAX,
        ensures
            r == written + frames * JACK_CHANNELS,
            final(self).current == old(self).current,
            final(self).total_frames == old(self).total_frames + frames,
            frames == 0 ==> *final(line) == *old(line),
            frames > 0 ==> (*final(line)) == (Line {
                position_frames: final(self).total_frames,
                duration_frames: final(self).total_frames,
                ..*old(line)
            }),
    {
        if frames == 0 {
            return written;
        }
        self.total_frames = self.total_frames + frames as u64;
        line.position_frames = self.total_frames;
        line.duration_frames = self.total_frames;
        written + frames * JACK_CHANNELS
    }

    /// The source ran out: the next one follows without a gap, or playback is
    /// over.
    pub fn on_source_end(&mut self, line: &mut Line<S>)
        ensures
            if old(line).sources@.len() > 0 {
                &&& final(self).current == Some(old(line).sources@[0])
                &&& final(self).total_frames == 0
                &&& final(line).sources@ == old(line).sources@.drop_first()
                &&& final(line).same_flags(
                    (Line { position_frames: 0, source_transition: true, ..*old(line) }),
                )
            } else {
                &&& final(self).current is None
                &&& final(self).total_frames == old(self).total_frames
                &&& final(line).sources@ == old(line).sources@
                &&& final(line).same_flags((Line { is_playing: false, ..*old(line) }))
            },
    {
        match line.sources.try_pop() {
            Some(source) => {
                self.current = Some(source);
                self.total_frames = 0;
                line.position_frames = 0;
                line.source_transition = true;
            },
            None => {
                self.current = None;
                line.is_playing = false;
            },
        }
    }

    /// The feeder ends on a stop.
    pub fn on_exit(&self, line: &mut Line<S>)
        ensures
            (*final(line)) == (Line { is_playing: false, ..*old(line) }),
    {
        line.is_playing = false;
    }
}

/// What a DSD writer does next.
#[derive(Debug, Clone, Copy, PartialEq, Eq, Structural)]
pub enum DopStep {
    /// A stop is in progress: write this many frames of DSD silence and end.
    Exit { silence_frames: usize },
    WaitForSource,
    /// Paused: write this many frames of DSD silence, so the DAC stays locked.
    Silence { frames: usize },
    /// Fill a chunk of this many words from the source, and write it verbatim.
    Fill { words: usize },
}

/// The single long-lived writer of a DSD engine.
pub struct DopWriter<S> {
    pub current: Option<S>,
    /// A source has been picked up before.
    pub had_source: bool,
    pub channels: u16,
    /// Frames per second of the carrier.
    pub carrier: u32,
}

impl<S> DopWriter<S> {
    pub fn new(channels: u16, carrier: u32) -> (r: Self)
        ensures
            r.current is None,
            !r.had_source,
            r.channels == channels,
            r.carrier == carrier,
    {
        DopWriter { current: None, had_source: false, channels, carrier }
    }

    /// Frames in the 150 ms of silence that closes a stream.
    pub open spec fn closing_silence(self) -> int {
        self.carrier * 150 / 1000
    }

    /// What the writer does with a source: DSD silence while paused.
    pub open spec fn gate_step(self, line: Line<S>) -> DopStep {
        if line.is_playing {
            DopStep::Fill { words: (SMALL_CHUNK_FRAMES * self.channels) as usize }
        } else {
            DopStep::Silence { frames: (self.carrier / 10) as usize }
        }
    }

    pub fn gate(&self, line: &Line<S>) -> (r: DopStep)
        ensures
            r == self.gate_step(*line),
    {
        if line.is_playing {
            DopStep::Fill { words: SMALL_CHUNK_FRAMES * self.channels as usize }
        } else {
            DopStep::Silence { frames: (self.carrier / 10) as usize }
        }
    }

    fn closing_frames(&self) -> (r: usize)
        ensures
            r == self.closing_silence(),
    {
        ((self.carrier as u64) * 150 / 1000) as usize
    }

    /// What the writer does at the top of its loop.
    pub fn next(&self, line: &Line<S>) -> (r: DopStep)
        ensures
            r == (if line.should_stop {
                DopStep::Exit { silence_frames: self.closing_silence() as usize }
            } else if self.current is None {
                DopStep::WaitForSource
            } else {
                self.gate_step(*line)
            }),
    {
        if line.should_stop {
            DopStep::Exit { silence_frames: self.closing_frames() }
        } else if self.current.is_none() {
            DopStep::WaitForSource
        } else {
            self.gate(line)
        }
    }

    /// A wait for a source is over; true when there was one. Any but the first
    /// is a transition.
    pub fn on_wait(&mut self, line: &mut Line<S>) -> (r: bool)
        requires
            old(self).current is None,
        ensures
            r == (old(line).sources@.len() > 0),
            !r ==> *final(self) == *old(self) && final(line).same_flags(*old(line))
                && final(line).sources@ == old(line).sources@,
            r ==> {
                &&& (*final(self)) == (DopWriter {
                    current: Some(old(line).sources@[0]),
                    had_source: true,
                    ..*old(self)
                })
                &&& final(line).sources@ == old(line).sources@.drop_first()
                &&& final(line).same_flags(
                    (Line {
                        position_frames: 0,
                        source_transition: old(line).source_transition || old(self).had_source,
                        ..*old(line)
                    }),
                )
            },
    {
        match line.sources.wait_for_source() {
            Some(source) => {
                self.current = Some(source);
                if self.had_source {
                    line.source_transition = true;
                }
                self.had_source = true;
                line.position_frames = 0;
                true
            },
            None => false,
        }
    }

    /// A chunk of `words` has been written; `ended` says that the source ran
    /// out with it. Where nothing is left to play: the frames of DSD silence to
    /// pad with, and then to report padded. Until then the line still plays.
    pub fn on_written(&mut self, line: &mut Line<S>, words: usize, ended: bool) -> (r: Option<
        usize,
    >)
        requires
            old(self).channels > 0,
            old(line).position_frames + words <= u64::MAX,
        ensures
            (*final(self)) == (DopWriter {
                current: if ended {
                    None
                } else {
                    old(self).current
                },
                ..*old(self)
            }),
            r == (if ended && old(line).sources@.len() == 0 {
                Some(old(self).closing_silence() as usize)
            } else {
                None
            }),
            (*final(line)) == (Line {
                position_frames: (old(line).position_frames + words as int / old(
                    self).channels as int) as u64,
                ..*old(line)
            }),
    {
        let frames: u64 = (words / self.channels as usize) as u64;
        assert(frames <= words) by (nonlinear_arith)
            requires
                frames == words as int / self.channels as int,
                self.channels > 0,
                words >= 0,
        ;
        line.position_frames = line.position_frames + frames;
        if ended {
            self.current = None;
            if line.sources.is_empty() {
                return Some(self.closing_frames());
            }
        }
        None
    }

    /// The closing silence has been written: playback is over.
    pub fn on_padded(&self, line: &mut Line<S>)
        ensures
            (*final(line)) == (Line { is_playing: false, ..*old(line) }),
    {
        line.is_playing = false;
    }

    /// A write failed hard: going on would lose the markers and leave the DAC
    /// playing noise, so the writer stops.
    pub fn on_write_failed(&self, line: &mut Line<S>)
        ensures
            (*final(line)) == (Line { is_playing: false, should_stop: true, ..*old(line) }),
    {
        line.is_playing = false;
        line.should_stop = true;
    }
}

/// A source handed over while the writer was draining plays, though nobody
/// pressed play again; one handed over against a stop in progress does not; and
/// a source that a user paused is left paused, for a writer that holds one never
/// turns playback on.
pub proof fn law_a_late_hand_off_plays_unless_stopping<S>(writer: AlsaWriter<S>, line: Line<S>)
    requires
        writer.wf(),
        !line.is_playing,
    ensures
        (AlsaWriter { current: None, resume_pending: true, ..writer }).resumes(line)
            == !line.should_stop,
        writer.current is Some ==> !writer.resumes(line),
{
}

} // verus!
