//! What holds of playback engines, their writers and their sources, call by call.

use vstd::prelude::*;

use crate::decode::{
    DecodeAction, DecodeOutcome, InMemorySource, IncrementalStreamingSource, PacketAction,
    PacketOutcome, TrackParams,
};
use crate::playback_engine::{
    join_step, should_resume_after_drain, Appended, JoinStep, Line, PlaybackEngine, SourceQueue,
    StopAction, VolumeRoute,
};
use crate::writer::{AlsaWriter, DopStep, DopWriter, JackFeeder, WriterStep};

verus! {

/// The position of an engine that counts frames is the number of whole seconds they
/// last at its own rate; an engine of the output library tells none.
pub proof fn law_a_position_is_its_frames_in_seconds<S>(engine: PlaybackEngine<S>, r: Option<u64>)
    requires
        call_ensures(PlaybackEngine::<S>::position_secs, (&engine,), r),
    ensures
        match engine {
            PlaybackEngine::Rodio => r is None,
            PlaybackEngine::AlsaDirect { line, .. } => lasts(line.position_frames, line, r),
            PlaybackEngine::Jack { line } => lasts(line.position_frames, line, r),
            PlaybackEngine::AlsaDop { line } => lasts(line.position_frames, line, r),
        },
{
    if let Some(line) = engine.line() {
        lemma_whole_secs(line.position_frames, line.sample_rate);
    }
}

/// The duration of an engine that counts frames is the number of whole seconds they
/// last at its own rate; the other engines tell none.
pub proof fn law_a_duration_is_its_frames_in_seconds<S>(engine: PlaybackEngine<S>, r: Option<u64>)
    requires
        call_ensures(PlaybackEngine::<S>::duration_secs, (&engine,), r),
    ensures
        match engine {
            PlaybackEngine::AlsaDirect { line, .. } => lasts(line.duration_frames, line, r),
            PlaybackEngine::Jack { line } => lasts(line.duration_frames, line, r),
            _ => r is None,
        },
{
    if let Some(line) = engine.line() {
        lemma_whole_secs(line.duration_frames, line.sample_rate);
    }
}

/// `frames` last the whole seconds in `secs`, and less than one more, at the rate of
/// `line`.
pub open spec fn lasts<S>(frames: u64, line: Line<S>, secs: Option<u64>) -> bool {
    &&& secs is Some
    &&& line.sample_rate > 0 ==> secs->0 * line.sample_rate <= frames < (secs->0 + 1)
        * line.sample_rate
    &&& line.sample_rate == 0 ==> secs->0 == frames
}

proof fn lemma_whole_secs(frames: u64, rate: u32)
    ensures
        rate > 0 ==> {
            let s = crate::playback_engine::whole_secs(frames, rate);
            s * rate <= frames < (s + 1) * rate
        },
{
    if rate > 0 {
        let f = frames as int;
        let r = rate as int;
        assert((f / r) * r <= f < (f / r + 1) * r) by (nonlinear_arith)
            requires
                r > 0,
                f >= 0,
        ;
    }
}

/// A source goes behind all those queued before it, and none is lost: in a queue of
/// `n` it comes out after `n` others.
pub proof fn law_a_queue_is_first_in_first_out<S>(
    queue: &mut SourceQueue<S>,
    later: &mut SourceQueue<S>,
    source: S,
    first: Option<S>,
)
    requires
        call_ensures(SourceQueue::<S>::push, (queue, source), ()),
        call_ensures(SourceQueue::<S>::try_pop, (later,), first),
        *old(later) == *final(queue),
    ensures
        first == Some(
            if old(queue).queue@.len() == 0 {
                source
            } else {
                old(queue).queue@[0]
            },
        ),
        final(later).queue@.len() == old(queue).queue@.len(),
        forall|i: int|
            0 <= i < old(queue).queue@.len() - 1 ==> #[trigger] final(later).queue@[i] == old(queue).queue@[i + 1],
        old(queue).queue@.len() > 0 ==> final(later).queue@.last() == source,
{
}

/// A wait that finds nothing takes nothing, and one that finds something takes the
/// source that waited longest.
pub proof fn law_a_wait_takes_the_first_source<S>(queue: &mut SourceQueue<S>, r: Option<S>)
    requires
        call_ensures(SourceQueue::<S>::wait_for_source, (queue,), r),
    ensures
        r is None <==> old(queue).queue@.len() == 0,
        r is None ==> final(queue).queue@ == old(queue).queue@,
        r matches Some(source) ==> seq![source] + final(queue).queue@ == old(queue).queue@,
{
    if r is Some {
        assert(seq![r->0] + final(queue).queue@ =~= old(queue).queue@);
    }
}

/// Appending PCM: the output library is handed the source, an engine with a queue
/// keeps it behind the others, a DSD engine refuses it and stays as it was. The
/// first source of an idle engine starts it from the beginning; any other leaves
/// what plays alone.
pub proof fn law_an_appended_source_plays_in_turn<S>(
    engine: &mut PlaybackEngine<S>,
    source: S,
    r: Result<Appended<S>, String>,
)
    requires
        call_ensures(PlaybackEngine::<S>::append, (engine, source), r),
    ensures
        r is Err <==> *old(engine) is AlsaDop,
        r is Err ==> *final(engine) == *old(engine) && r->Err_0@
            == "cannot append a PCM source to a DoP engine"@,
        *old(engine) is AlsaDirect || *old(engine) is Jack ==> (r matches Ok(Appended::Queued)),
        *old(engine) is Rodio ==> r == Ok::<Appended<S>, String>(Appended::Delegate(source))
            && *final(engine) is Rodio,
        match *old(engine) {
            PlaybackEngine::AlsaDirect { line, hardware_volume } => *final(engine) matches PlaybackEngine::AlsaDirect { line: after, hardware_volume: h } && h
                == hardware_volume && joins_the_queue(line, after, source),
            PlaybackEngine::Jack { line } => *final(engine) matches PlaybackEngine::Jack {
                line: after,
            } && joins_the_queue(line, after, source),
            _ => true,
        },
{
}

/// Appending DSD: only a DSD engine takes it, and queues it as any engine does.
pub proof fn law_a_dsd_source_plays_in_turn<S>(
    engine: &mut PlaybackEngine<S>,
    source: S,
    r: Result<(), String>,
)
    requires
        call_ensures(PlaybackEngine::<S>::append_dop, (engine, source), r),
    ensures
        r is Ok <==> *old(engine) is AlsaDop,
        r is Err ==> *final(engine) == *old(engine) && r->Err_0@
            == "append_dop on a non-DoP engine"@,
        *old(engine) matches PlaybackEngine::AlsaDop { line } ==> *final(engine) matches PlaybackEngine::AlsaDop { line: after } && joins_the_queue(line, after, source),
{
}

/// `source` waits behind the sources of `before`. Where nothing played and nothing
/// waited it plays at once, from frame 0; otherwise nothing else changes.
pub open spec fn joins_the_queue<S>(before: Line<S>, after: Line<S>, source: S) -> bool {
    let old_queue = before.sources.queue@;
    let new_queue = after.sources.queue@;
    &&& new_queue.len() == old_queue.len() + 1
    &&& new_queue.last() == source
    &&& new_queue.drop_last() =~= old_queue
    &&& after.sample_rate == before.sample_rate
    &&& after.duration_frames == before.duration_frames
    &&& !before.is_playing && old_queue.len() == 0 ==> after.is_playing && !after.should_stop
        && after.position_frames == 0 && !after.source_transition
    &&& before.is_playing || old_queue.len() > 0 ==> after.is_playing == before.is_playing
        && after.should_stop == before.should_stop && after.position_frames
        == before.position_frames && after.source_transition == before.source_transition
}

/// A pause undoes a play and a play a pause, and neither touches the queue, the
/// position or a stop in progress.
pub proof fn law_play_and_pause_switch_playback_alone<S>(
    played: &mut PlaybackEngine<S>,
    paused: &mut PlaybackEngine<S>,
)
    requires
        call_ensures(PlaybackEngine::<S>::play, (played,), ()),
        call_ensures(PlaybackEngine::<S>::pause, (paused,), ()),
        *old(paused) == *final(played),
    ensures
        match *old(played) {
            PlaybackEngine::Rodio => *final(played) is Rodio && *final(paused) is Rodio,
            PlaybackEngine::AlsaDirect { line, hardware_volume } => {
                &&& *final(played) == (PlaybackEngine::AlsaDirect {
                    line: Line { is_playing: true, ..line },
                    hardware_volume,
                })
                &&& *final(paused) == (PlaybackEngine::AlsaDirect {
                    line: Line { is_playing: false, ..line },
                    hardware_volume,
                })
            },
            PlaybackEngine::Jack { line } => {
                &&& *final(played) == (PlaybackEngine::Jack {
                    line: Line { is_playing: true, ..line },
                })
                &&& *final(paused) == (PlaybackEngine::Jack {
                    line: Line { is_playing: false, ..line },
                })
            },
            PlaybackEngine::AlsaDop { line } => {
                &&& *final(played) == (PlaybackEngine::AlsaDop {
                    line: Line { is_playing: true, ..line },
                })
                &&& *final(paused) == (PlaybackEngine::AlsaDop {
                    line: Line { is_playing: false, ..line },
                })
            },
        },
{
}

/// A stop turns playback off and tells the writer once: the next stop finds it under
/// way and changes nothing. Only the direct engine's join is bounded, only the two
/// that own a card stop its stream, and the queue and the position stay.
pub proof fn law_a_stop_is_told_once<S>(
    engine: &mut PlaybackEngine<S>,
    again: &mut PlaybackEngine<S>,
    r: StopAction,
    later: StopAction,
)
    requires
        call_ensures(PlaybackEngine::<S>::stop_inner, (engine,), r),
        call_ensures(PlaybackEngine::<S>::stop_inner, (again,), later),
        *old(again) == *final(engine),
    ensures
        *final(again) == *final(engine),
        later == (if *old(engine) is Rodio {
            StopAction::Delegate
        } else {
            StopAction::AlreadyStopped
        }),
        match *old(engine) {
            PlaybackEngine::Rodio => r == StopAction::Delegate && *final(engine) is Rodio,
            PlaybackEngine::AlsaDirect { line, hardware_volume } => {
                &&& !line.should_stop ==> r == StopAction::JoinBounded && *final(engine) == (
                PlaybackEngine::AlsaDirect {
                    line: Line { is_playing: false, should_stop: true, ..line },
                    hardware_volume,
                })
                &&& line.should_stop ==> r == StopAction::AlreadyStopped && *final(engine) == *old(engine)
            },
            PlaybackEngine::Jack { line } => {
                &&& !line.should_stop ==> r == StopAction::Join && *final(engine) == (
                PlaybackEngine::Jack {
                    line: Line { is_playing: false, should_stop: true, ..line },
                })
                &&& line.should_stop ==> r == StopAction::AlreadyStopped && *final(engine) == *old(engine)
            },
            PlaybackEngine::AlsaDop { line } => {
                &&& !line.should_stop ==> r == StopAction::JoinThenStop && *final(engine) == (
                PlaybackEngine::AlsaDop {
                    line: Line { is_playing: false, should_stop: true, ..line },
                })
                &&& line.should_stop ==> r == StopAction::AlreadyStopped && *final(engine) == *old(engine)
            },
        },
{
}

/// A volume never scales DSD words nor the graph's samples; a direct engine hands it
/// to the card's mixer exactly where it was made to.
pub proof fn law_a_volume_goes_where_it_may<S>(engine: PlaybackEngine<S>, r: VolumeRoute)
    requires
        call_ensures(PlaybackEngine::<S>::set_volume, (&engine,), r),
    ensures
        r == VolumeRoute::Fixed <==> engine is AlsaDop || engine is Jack,
        r == VolumeRoute::Sink <==> engine is Rodio,
        r == VolumeRoute::HardwareMixer <==> (engine matches PlaybackEngine::AlsaDirect {
            hardware_volume,
            ..
        } && hardware_volume),
{
}

/// An engine is empty once nothing plays and nothing waits, and a transition is told
/// exactly once.
pub proof fn law_a_transition_is_told_once<S>(
    engine: &mut PlaybackEngine<S>,
    again: &mut PlaybackEngine<S>,
    r: bool,
    later: bool,
    empty: Option<bool>,
)
    requires
        call_ensures(PlaybackEngine::<S>::take_source_transition, (engine,), r),
        call_ensures(PlaybackEngine::<S>::take_source_transition, (again,), later),
        *old(again) == *final(engine),
        call_ensures(PlaybackEngine::<S>::empty, (&*final(again),), empty),
    ensures
        !later,
        match *old(engine) {
            PlaybackEngine::Rodio => !r && empty is None,
            PlaybackEngine::AlsaDirect { line, .. } => r == line.source_transition && empty == Some(
                !line.is_playing && line.sources.queue@.len() == 0,
            ),
            PlaybackEngine::Jack { line } => r == line.source_transition && empty == Some(
                !line.is_playing && line.sources.queue@.len() == 0,
            ),
            PlaybackEngine::AlsaDop { line } => r == line.source_transition && empty == Some(
                !line.is_playing && line.sources.queue@.len() == 0,
            ),
        },
{
}

/// A writer that is done is joined; one that is not is waited for, for three seconds
/// and no longer.
pub proof fn law_a_stuck_writer_is_abandoned(finished: bool, waited_ms: u64, r: JoinStep)
    requires
        call_ensures(join_step, (finished, waited_ms), r),
    ensures
        r == JoinStep::Join <==> finished,
        r == JoinStep::Wait ==> waited_ms < 3_000,
        r == JoinStep::Abandon ==> waited_ms >= 3_000,
{
}

/// A drained writer resumes for a late source, but never against a stop and never
/// twice.
pub proof fn law_a_drained_writer_resumes(
    resume_pending: bool,
    should_stop: bool,
    is_playing: bool,
    r: bool,
)
    requires
        call_ensures(should_resume_after_drain, (resume_pending, should_stop, is_playing), r),
    ensures
        should_stop ==> !r,
        is_playing ==> !r,
        !resume_pending ==> !r,
        !should_stop && !is_playing ==> r == resume_pending,
{
}

/// A direct writer: a stop ends it, without a source it waits for one, a pause makes
/// it sleep, and otherwise it fills 8192 frames of its channels.
pub proof fn law_a_direct_writer_fills_while_it_plays<S>(
    writer: AlsaWriter<S>,
    line: Line<S>,
    r: WriterStep,
    gated: WriterStep,
)
    requires
        call_ensures(AlsaWriter::<S>::next, (&writer, &line), r),
        call_ensures(AlsaWriter::<S>::gate, (&writer, &line), gated),
    ensures
        line.should_stop ==> r == WriterStep::Exit,
        !line.should_stop && writer.current is None ==> r == WriterStep::WaitForSource,
        !line.should_stop && writer.current is Some ==> r == gated,
        line.is_playing ==> (gated matches WriterStep::Fill { samples } && samples == 8192
            * writer.channels),
        !line.is_playing && line.should_stop ==> gated == WriterStep::Exit,
        !line.is_playing && !line.should_stop ==> gated == WriterStep::Sleep,
{
}

/// A graph feeder goes as a direct writer does, 4096 stereo frames at a time.
pub proof fn law_a_graph_feeder_fills_while_it_plays<S>(
    feeder: JackFeeder<S>,
    line: Line<S>,
    r: WriterStep,
    gated: WriterStep,
)
    requires
        call_ensures(JackFeeder::<S>::next, (&feeder, &line), r),
        call_ensures(JackFeeder::<S>::gate, (&feeder, &line), gated),
    ensures
        line.should_stop ==> r == WriterStep::Exit,
        !line.should_stop && feeder.current is None ==> r == WriterStep::WaitForSource,
        !line.should_stop && feeder.current is Some ==> r == gated,
        line.is_playing ==> gated == (WriterStep::Fill { samples: 8192 }),
        !line.is_playing && line.should_stop ==> gated == WriterStep::Exit,
        !line.is_playing && !line.should_stop ==> gated == WriterStep::Sleep,
{
}

/// A DSD writer never goes quiet: paused it writes a tenth of a second of DSD
/// silence, and on a stop it closes with 150 ms of it.
pub proof fn law_a_dsd_writer_is_never_quiet<S>(
    writer: DopWriter<S>,
    line: Line<S>,
    r: DopStep,
    gated: DopStep,
)
    requires
        call_ensures(DopWriter::<S>::next, (&writer, &line), r),
        call_ensures(DopWriter::<S>::gate, (&writer, &line), gated),
    ensures
        line.should_stop ==> (r matches DopStep::Exit { silence_frames } && silence_frames * 1000
            <= writer.carrier * 150 < (silence_frames + 1) * 1000),
        !line.should_stop && writer.current is None ==> r == DopStep::WaitForSource,
        !line.should_stop && writer.current is Some ==> r == gated,
        line.is_playing ==> (gated matches DopStep::Fill { words } && words == 4096
            * writer.channels),
        !line.is_playing ==> (gated matches DopStep::Silence { frames } && frames * 10
            <= writer.carrier < (frames + 1) * 10),
{
    assert(writer.carrier * 150 / 1000 <= u32::MAX);
}

/// A direct writer that waited takes the first source and counts from 0. It turns
/// playback on only where it had itself turned it off, and never against a stop.
pub proof fn law_a_direct_writer_takes_the_first_source<S>(
    writer: &mut AlsaWriter<S>,
    line: &mut Line<S>,
    r: bool,
)
    requires
        call_ensures(AlsaWriter::<S>::on_wait, (writer, line), r),
    ensures
        r == (old(line).sources.queue@.len() > 0),
        !r ==> *final(writer) == *old(writer) && final(line).sources.queue@ == old(line).sources.queue@ && final(line).is_playing == old(line).is_playing && final(line).position_frames == old(line).position_frames,
        r ==> {
            &&& old(line).sources.queue@ == seq![final(writer).current->0] + final(line).sources.queue@
            &&& final(writer).current is Some
            &&& final(writer).total_frames == 0
            &&& final(line).position_frames == 0
            &&& !final(writer).resume_pending
            &&& old(line).is_playing ==> final(line).is_playing
            &&& !old(line).is_playing ==> final(line).is_playing == (old(writer).resume_pending
                && !old(line).should_stop)
        },
        final(line).should_stop == old(line).should_stop,
        final(line).source_transition == old(line).source_transition,
{
    if r {
        assert(seq![final(writer).current->0] + final(line).sources.queue@ =~= old(line).sources.queue@);
    }
}

/// What a direct writer has written counts in whole frames; a source that runs out
/// is followed by the next without a gap, from frame 0, and playback ends only where
/// none is left.
pub proof fn law_a_direct_writer_counts_and_hands_over<S>(
    writer: &mut AlsaWriter<S>,
    line: &mut Line<S>,
    samples: usize,
    ended: bool,
    drain: bool,
)
    requires
        call_ensures(AlsaWriter::<S>::on_written, (writer, line, samples, ended), drain),
        old(writer).channels > 0,
    ensures
        drain <==> ended && old(line).sources.queue@.len() == 0,
        final(line).is_playing == old(line).is_playing,
        final(line).should_stop == old(line).should_stop,
        samples > 0 ==> counts(
            old(writer).total_frames,
            final(line).duration_frames,
            samples,
            old(writer).channels,
        ),
        ended && !drain ==> {
            &&& final(writer).current is Some
            &&& old(line).sources.queue@ == seq![final(writer).current->0] + final(line).sources.queue@
            &&& final(line).position_frames == 0
            &&& final(writer).total_frames == 0
            &&& final(line).source_transition
        },
        !ended || drain ==> {
            &&& final(writer).current == old(writer).current
            &&& final(line).sources.queue@ == old(line).sources.queue@
            &&& final(line).source_transition == old(line).source_transition
            &&& samples > 0 ==> final(line).position_frames == final(line).duration_frames && final(writer).total_frames == final(line).duration_frames
            &&& samples == 0 ==> final(line).position_frames == old(line).position_frames && final(writer).total_frames == old(writer).total_frames
        },
{
    lemma_counts(old(writer).total_frames, samples, old(writer).channels);
    if ended && !drain {
        assert(seq![final(writer).current->0] + final(line).sources.queue@ =~= old(line).sources.queue@);
    }
}

/// `after` is `before` and the whole frames in `samples`.
pub open spec fn counts(before: u64, after: u64, samples: usize, channels: u16) -> bool {
    (after - before) * channels <= samples < (after - before + 1) * channels
}

proof fn lemma_counts(before: u64, samples: usize, channels: u16)
    ensures
        channels > 0 ==> {
            let n = samples as int / channels as int;
            n * channels <= samples < (n + 1) * channels
        },
{
    if channels > 0 {
        let s = samples as int;
        let c = channels as int;
        assert((s / c) * c <= s < (s / c + 1) * c) by (nonlinear_arith)
            requires
                c > 0,
                s >= 0,
        ;
    }
}

/// A drained writer stops playing and will resume for the next source by itself; a
/// writer that ends stops playing and leaves the rest.
pub proof fn law_a_drained_line_stops<S>(
    writer: &mut AlsaWriter<S>,
    line: &mut Line<S>,
    exiting: AlsaWriter<S>,
    left: &mut Line<S>,
)
    requires
        call_ensures(AlsaWriter::<S>::on_drained, (writer, line), ()),
        call_ensures(AlsaWriter::<S>::on_exit, (&exiting, left), ()),
    ensures
        final(writer).current is None,
        final(writer).resume_pending,
        final(writer).channels == old(writer).channels,
        *final(line) == (Line { is_playing: false, ..*old(line) }),
        *final(left) == (Line { is_playing: false, ..*old(left) }),
{
}

/// A graph feeder that waited takes the first source, from frame 0, and leaves
/// playback as it was.
pub proof fn law_a_graph_feeder_takes_the_first_source<S>(
    feeder: &mut JackFeeder<S>,
    line: &mut Line<S>,
    r: bool,
)
    requires
        call_ensures(JackFeeder::<S>::on_wait, (feeder, line), r),
    ensures
        r == (old(line).sources.queue@.len() > 0),
        !r ==> *final(feeder) == *old(feeder) && final(line).position_frames == old(line).position_frames && final(line).sources.queue@ == old(line).sources.queue@,
        r ==> final(feeder).current is Some && old(line).sources.queue@ == seq![
            final(feeder).current->0,
        ] + final(line).sources.queue@ && final(feeder).total_frames == 0 && final(line).position_frames == 0,
        final(line).is_playing == old(line).is_playing,
        final(line).should_stop == old(line).should_stop,
        final(line).source_transition == old(line).source_transition,
{
    if r {
        assert(seq![final(feeder).current->0] + final(line).sources.queue@ =~= old(line).sources.queue@);
    }
}

/// What the ring took is counted frame by frame, two samples each; a source that
/// runs out is followed by the next, or ends playback where there is none.
pub proof fn law_a_graph_feeder_counts_and_hands_over<S>(
    feeder: &mut JackFeeder<S>,
    line: &mut Line<S>,
    written: usize,
    frames: usize,
    r: usize,
    ending: &mut JackFeeder<S>,
    left: &mut Line<S>,
)
    requires
        call_ensures(JackFeeder::<S>::on_ring, (feeder, line, written, frames), r),
        call_ensures(JackFeeder::<S>::on_source_end, (ending, left), ()),
    ensures
        r == written + 2 * frames,
        final(feeder).total_frames == old(feeder).total_frames + frames,
        final(feeder).current == old(feeder).current,
        frames > 0 ==> final(line).position_frames == final(feeder).total_frames,
        frames == 0 ==> *final(line) == *old(line),
        final(line).is_playing == old(line).is_playing,
        final(line).sources.queue@ == old(line).sources.queue@,
        old(left).sources.queue@.len() > 0 ==> {
            &&& final(ending).current is Some
            &&& old(left).sources.queue@ == seq![final(ending).current->0] + final(left).sources.queue@
            &&& final(left).source_transition
            &&& final(left).position_frames == 0
            &&& final(left).is_playing == old(left).is_playing
        },
        old(left).sources.queue@.len() == 0 ==> final(ending).current is None && !final(left).is_playing && final(left).source_transition == old(left).source_transition && final(left).position_frames == old(left).position_frames,
        final(left).should_stop == old(left).should_stop,
{
    if old(left).sources.queue@.len() > 0 {
        assert(seq![final(ending).current->0] + final(left).sources.queue@ =~= old(left).sources.queue@);
    }
}

/// A DSD writer that waited takes the first source, from frame 0; only the first one
/// ever is no transition, and a pause stays a pause.
pub proof fn law_a_dsd_writer_takes_the_first_source<S>(
    writer: &mut DopWriter<S>,
    line: &mut Line<S>,
    r: bool,
)
    requires
        call_ensures(DopWriter::<S>::on_wait, (writer, line), r),
    ensures
        r == (old(line).sources.queue@.len() > 0),
        !r ==> *final(writer) == *old(writer) && final(line).source_transition == old(line).source_transition && final(line).sources.queue@ == old(line).sources.queue@,
        r ==> {
            &&& final(writer).current is Some
            &&& final(writer).had_source
            &&& old(line).sources.queue@ == seq![final(writer).current->0] + final(line).sources.queue@
            &&& final(line).position_frames == 0
            &&& old(writer).had_source ==> final(line).source_transition
            &&& !old(writer).had_source ==> final(line).source_transition == old(line).source_transition
        },
        final(line).is_playing == old(line).is_playing,
        final(line).should_stop == old(line).should_stop,
{
    if r {
        assert(seq![final(writer).current->0] + final(line).sources.queue@ =~= old(line).sources.queue@);
    }
}

/// What a DSD writer has written counts in whole frames on top of the position. It
/// pads with 150 ms of silence exactly where nothing is left, and playback ends only
/// once that is out; a write that fails ends it at once, with a stop.
pub proof fn law_a_dsd_writer_counts_and_pads<S>(
    writer: &mut DopWriter<S>,
    line: &mut Line<S>,
    words: usize,
    ended: bool,
    padding: Option<usize>,
    padded: DopWriter<S>,
    quiet: &mut Line<S>,
    failing: DopWriter<S>,
    broken: &mut Line<S>,
)
    requires
        call_ensures(DopWriter::<S>::on_written, (writer, line, words, ended), padding),
        old(writer).channels > 0,
        old(line).position_frames + words <= u64::MAX,
        call_ensures(DopWriter::<S>::on_padded, (&padded, quiet), ()),
        call_ensures(DopWriter::<S>::on_write_failed, (&failing, broken), ()),
    ensures
        counts(
            old(line).position_frames,
            final(line).position_frames,
            words,
            old(writer).channels,
        ),
        padding is Some <==> ended && old(line).sources.queue@.len() == 0,
        padding matches Some(frames) ==> frames * 1000 <= old(writer).carrier * 150 < (frames + 1)
            * 1000,
        ended ==> final(writer).current is None,
        !ended ==> final(writer).current == old(writer).current,
        final(line).is_playing == old(line).is_playing,
        final(line).sources.queue@ == old(line).sources.queue@,
        *final(quiet) == (Line { is_playing: false, ..*old(quiet) }),
        *final(broken) == (Line { is_playing: false, should_stop: true, ..*old(broken) }),
{
    lemma_counts(old(line).position_frames, words, old(writer).channels);
    let w = words as int;
    let c = old(writer).channels as int;
    assert(w / c <= w) by (nonlinear_arith)
        requires
            c > 0,
            w >= 0,
    ;
}

/// A source decodes ahead for half a second of its own format and no more, and not
/// once it is finished.
pub proof fn law_a_source_decodes_half_a_second_ahead(
    streaming: IncrementalStreamingSource,
    whole: InMemorySource,
    queued: u64,
    r: bool,
    s: bool,
)
    requires
        call_ensures(IncrementalStreamingSource::wants_more, (&streaming, queued), r),
        call_ensures(InMemorySource::wants_more, (&whole, queued), s),
    ensures
        streaming.finished ==> !r,
        whole.finished ==> !s,
        !streaming.finished ==> (r <==> 2 * (queued + 1) <= streaming.sample_rate
            * streaming.channels),
        !whole.finished ==> (s <==> 2 * (queued + 1) <= whole.sample_rate * whole.channels),
{
}

/// A track without a rate cannot be decoded, and one without a channel count is
/// stereo; a source starts unfinished, on the track it was given.
pub proof fn law_a_source_takes_its_track(
    track: Option<TrackParams>,
    streaming: Result<IncrementalStreamingSource, String>,
    whole: Result<InMemorySource, String>,
)
    requires
        call_ensures(IncrementalStreamingSource::new, (track,), streaming),
        call_ensures(InMemorySource::new, (track,), whole),
    ensures
        track is None ==> streaming->Err_0@ == "Symphonia: no supported audio tracks in stream"@
            && whole->Err_0@ == "Symphonia: no supported audio tracks"@,
        track is Some && track->0.sample_rate is None ==> streaming->Err_0@
            == "No sample rate in codec params"@ && whole->Err_0@
            == "No sample rate in codec params"@,
        streaming is Ok <==> track is Some && track->0.sample_rate is Some,
        whole is Ok <==> track is Some && track->0.sample_rate is Some,
        streaming matches Ok(source) ==> Some(source.sample_rate) == track->0.sample_rate
            && source.track_id == track->0.id && !source.finished && !source.stalled
            && source.packets_decoded == 0 && (track->0.channels matches Some(n) ==> source.channels
            == n) && (track->0.channels is None ==> source.channels == 2),
        whole matches Ok(source) ==> Some(source.sample_rate) == track->0.sample_rate
            && source.track_id == track->0.id && !source.finished && (track->0.channels matches Some(
            n,
        ) ==> source.channels == n) && (track->0.channels is None ==> source.channels == 2),
{
}

/// A streaming source decodes the packets of its own track alone, waits where it
/// would block and ends on any other failure. A stall counts as one underrun, and
/// only once it has decoded something.
pub proof fn law_a_stream_waits_and_does_not_end(
    source: &mut IncrementalStreamingSource,
    outcome: PacketOutcome,
    r: PacketAction,
)
    requires
        call_ensures(IncrementalStreamingSource::on_packet, (source, outcome), r),
    ensures
        r == PacketAction::Decode <==> outcome == PacketOutcome::Packet(old(source).track_id),
        r == PacketAction::Stop <==> outcome == PacketOutcome::IoError || outcome
            == PacketOutcome::OtherError,
        r is Wait <==> outcome == PacketOutcome::WouldBlock,
        r matches PacketAction::Wait { record_underrun } ==> (record_underrun <==> !old(source).stalled && old(source).packets_decoded > 0),
        final(source).finished == (old(source).finished || r == PacketAction::Stop),
        r is Wait && old(source).packets_decoded > 0 ==> final(source).stalled,
        r is Wait && old(source).packets_decoded == 0 ==> final(source).stalled == old(source).stalled,
        !(r is Wait) ==> final(source).stalled == old(source).stalled,
        final(source).track_id == old(source).track_id,
        final(source).packets_decoded == old(source).packets_decoded,
        final(source).sample_rate == old(source).sample_rate,
        final(source).channels == old(source).channels,
{
}

/// A source that is there as a whole never waits: anything but a packet ends it.
pub proof fn law_a_whole_source_never_waits(
    source: &mut InMemorySource,
    outcome: PacketOutcome,
    r: PacketAction,
)
    requires
        call_ensures(InMemorySource::on_packet, (source, outcome), r),
    ensures
        !(r is Wait),
        r == PacketAction::Decode <==> outcome == PacketOutcome::Packet(old(source).track_id),
        r == PacketAction::Stop <==> !(outcome is Packet),
        final(source).finished == (old(source).finished || !(outcome is Packet)),
        final(source).track_id == old(source).track_id,
        final(source).sample_rate == old(source).sample_rate,
        final(source).channels == old(source).channels,
{
}

/// A packet that cannot be decoded is skipped, a reset is honored, and only a real
/// failure ends a source. A decoded packet counts and ends a stall; a seek starts
/// the source anew.
pub proof fn law_only_a_failure_ends_decoding(
    source: &mut IncrementalStreamingSource,
    whole: &mut InMemorySource,
    outcome: DecodeOutcome,
    r: DecodeAction,
    s: DecodeAction,
    sought: &mut IncrementalStreamingSource,
    whole_sought: &mut InMemorySource,
)
    requires
        call_ensures(IncrementalStreamingSource::on_decoded, (source, outcome), r),
        old(source).packets_decoded < u64::MAX,
        call_ensures(InMemorySource::on_decoded, (whole, outcome), s),
        call_ensures(IncrementalStreamingSource::seek_to, (sought,), ()),
        call_ensures(InMemorySource::seek_to, (whole_sought,), ()),
    ensures
        r == s,
        r == DecodeAction::Stop <==> outcome == DecodeOutcome::OtherError,
        r == DecodeAction::Reset <==> outcome == DecodeOutcome::ResetRequired,
        r == DecodeAction::Skip <==> outcome == DecodeOutcome::DecodeError,
        final(source).finished == (old(source).finished || outcome == DecodeOutcome::OtherError),
        final(whole).finished == (old(whole).finished || outcome == DecodeOutcome::OtherError),
        final(source).packets_decoded - old(source).packets_decoded == (if outcome
            == DecodeOutcome::Samples {
            1int
        } else {
            0
        }),
        final(source).stalled == (old(source).stalled && outcome != DecodeOutcome::Samples),
        final(source).track_id == old(source).track_id,
        !final(sought).finished,
        final(sought).packets_decoded == 0,
        final(sought).track_id == old(sought).track_id,
        final(sought).sample_rate == old(sought).sample_rate,
        final(sought).channels == old(sought).channels,
        final(sought).stalled == old(sought).stalled,
        final(source).sample_rate == old(source).sample_rate,
        final(source).channels == old(source).channels,
        final(whole).track_id == old(whole).track_id,
        final(whole).sample_rate == old(whole).sample_rate,
        final(whole).channels == old(whole).channels,
        final(whole_sought).sample_rate == old(whole_sought).sample_rate,
        final(whole_sought).channels == old(whole_sought).channels,
        !final(whole_sought).finished,
        final(whole_sought).track_id == old(whole_sought).track_id,
{
}

/// Telling a transition clears it and nothing else.
pub proof fn law_a_told_transition_is_cleared<S>(engine: &mut PlaybackEngine<S>, r: bool)
    requires
        call_ensures(PlaybackEngine::<S>::take_source_transition, (engine,), r),
    ensures
        match *old(engine) {
            PlaybackEngine::Rodio => *final(engine) is Rodio,
            PlaybackEngine::AlsaDirect { line, hardware_volume } => *final(engine) == (
            PlaybackEngine::AlsaDirect {
                line: Line { source_transition: false, ..line },
                hardware_volume,
            }),
            PlaybackEngine::Jack { line } => *final(engine) == (PlaybackEngine::Jack {
                line: Line { source_transition: false, ..line },
            }),
            PlaybackEngine::AlsaDop { line } => *final(engine) == (PlaybackEngine::AlsaDop {
                line: Line { source_transition: false, ..line },
            }),
        },
{
}

/// What a direct writer does not speak of stays as it was.
pub proof fn law_a_direct_writer_leaves_the_rest<S>(
    writer: &mut AlsaWriter<S>,
    line: &mut Line<S>,
    taken: bool,
    writing: &mut AlsaWriter<S>,
    played: &mut Line<S>,
    samples: usize,
    ended: bool,
    drain: bool,
    drained: &mut AlsaWriter<S>,
    silent: &mut Line<S>,
)
    requires
        call_ensures(AlsaWriter::<S>::on_wait, (writer, line), taken),
        call_ensures(AlsaWriter::<S>::on_written, (writing, played, samples, ended), drain),
        call_ensures(AlsaWriter::<S>::on_drained, (drained, silent), ()),
    ensures
        final(writer).channels == old(writer).channels,
        final(line).duration_frames == old(line).duration_frames,
        final(line).sample_rate == old(line).sample_rate,
        final(writing).channels == old(writing).channels,
        !final(writing).resume_pending,
        final(played).sample_rate == old(played).sample_rate,
        samples == 0 ==> final(played).duration_frames == old(played).duration_frames,
        final(drained).total_frames == old(drained).total_frames,
{
}

/// What a graph feeder does not speak of stays as it was; what the ring took is the
/// position and the length, and a source that follows is counted from 0.
pub proof fn law_a_graph_feeder_leaves_the_rest<S>(
    feeder: &mut JackFeeder<S>,
    line: &mut Line<S>,
    taken: bool,
    ringing: &mut JackFeeder<S>,
    played: &mut Line<S>,
    written: usize,
    frames: usize,
    r: usize,
    ending: &mut JackFeeder<S>,
    left: &mut Line<S>,
)
    requires
        call_ensures(JackFeeder::<S>::on_wait, (feeder, line), taken),
        call_ensures(JackFeeder::<S>::on_ring, (ringing, played, written, frames), r),
        call_ensures(JackFeeder::<S>::on_source_end, (ending, left), ()),
    ensures
        final(line).duration_frames == old(line).duration_frames,
        final(line).sample_rate == old(line).sample_rate,
        frames > 0 ==> final(played).duration_frames == final(ringing).total_frames,
        final(played).should_stop == old(played).should_stop,
        final(played).source_transition == old(played).source_transition,
        final(played).sample_rate == old(played).sample_rate,
        old(left).sources.queue@.len() > 0 ==> final(ending).total_frames == 0,
        old(left).sources.queue@.len() == 0 ==> final(ending).total_frames == old(ending).total_frames && final(left).sources.queue@ == old(left).sources.queue@,
        final(left).duration_frames == old(left).duration_frames,
        final(left).sample_rate == old(left).sample_rate,
{
}

/// What a DSD writer does not speak of stays as it was.
pub proof fn law_a_dsd_writer_leaves_the_rest<S>(
    writer: &mut DopWriter<S>,
    line: &mut Line<S>,
    taken: bool,
    writing: &mut DopWriter<S>,
    played: &mut Line<S>,
    words: usize,
    ended: bool,
    padding: Option<usize>,
)
    requires
        call_ensures(DopWriter::<S>::on_wait, (writer, line), taken),
        call_ensures(DopWriter::<S>::on_written, (writing, played, words, ended), padding),
    ensures
        final(writer).channels == old(writer).channels,
        final(writer).carrier == old(writer).carrier,
        final(line).duration_frames == old(line).duration_frames,
        final(line).sample_rate == old(line).sample_rate,
        !taken ==> final(line).position_frames == old(line).position_frames,
        final(writing).channels == old(writing).channels,
        final(writing).carrier == old(writing).carrier,
        final(writing).had_source == old(writing).had_source,
        final(played).should_stop == old(played).should_stop,
        final(played).duration_frames == old(played).duration_frames,
        final(played).source_transition == old(played).source_transition,
        final(played).sample_rate == old(played).sample_rate,
{
}

} // verus!
