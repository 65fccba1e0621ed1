use qbz::playback_engine::{
    join_step, should_resume_after_drain, Appended, JoinStep, Line, PlaybackEngine, SourceQueue,
    StopAction, VolumeRoute,
};
use qbz::writer::{AlsaWriter, DopStep, DopWriter, JackFeeder, WriterStep};

#[test]
fn a_stop_in_progress_beats_a_late_hand_off() {
    // resume_pending, should_stop, is_playing
    assert!(!should_resume_after_drain(true, true, false), "stop wins");
    assert!(!should_resume_after_drain(true, true, true), "stop wins");
}

#[test]
fn a_late_hand_off_resumes_when_nothing_is_stopping() {
    assert!(should_resume_after_drain(true, false, false));
}

#[test]
fn nothing_to_do_when_already_playing_or_not_pending() {
    assert!(!should_resume_after_drain(true, false, true));
    assert!(!should_resume_after_drain(false, false, false));
    assert!(!should_resume_after_drain(false, true, false));
}

#[test]
fn sources_come_out_in_order() {
    let mut queue = SourceQueue::new();
    assert!(queue.is_empty());
    queue.push('a');
    queue.push('b');
    assert_eq!(queue.try_pop(), Some('a'));
    assert_eq!(queue.wait_for_source(), Some('b'));
    assert_eq!(queue.try_pop(), None);
    assert!(queue.is_empty());
}

fn line(engine: &PlaybackEngine<char>) -> &Line<char> {
    match engine {
        PlaybackEngine::Rodio => panic!("no line"),
        PlaybackEngine::AlsaDirect { line, .. } => line,
        PlaybackEngine::Jack { line } => line,
        PlaybackEngine::AlsaDop { line } => line,
    }
}

#[test]
fn the_first_source_starts_playback_and_the_next_is_queued() {
    let mut engine = PlaybackEngine::new_alsa_direct(44_100, false);
    assert!(engine.is_alsa_direct());
    assert_eq!(engine.empty(), Some(true));
    assert!(matches!(engine.append('a'), Ok(Appended::Queued)));
    assert!(line(&engine).is_playing);
    assert_eq!(engine.empty(), Some(false));
    engine.pause();
    assert!(matches!(engine.append('b'), Ok(Appended::Queued)));
    assert!(!line(&engine).is_playing, "a paused engine stays paused");
    engine.play();
    assert!(line(&engine).is_playing);
}

#[test]
fn each_engine_takes_its_own_sources() {
    let mut rodio = PlaybackEngine::new_rodio();
    assert!(matches!(rodio.append('a'), Ok(Appended::Delegate('a'))));
    assert_eq!(rodio.empty(), None);
    assert_eq!(rodio.append_dop('a'), Err("append_dop on a non-DoP engine".to_string()));
    let mut dop = PlaybackEngine::new_alsa_dop(176_400);
    assert!(dop.is_dop());
    assert!(dop.append_dop('d').is_ok());
    match dop.append('a') {
        Err(why) => assert_eq!(why, "cannot append a PCM source to a DoP engine"),
        Ok(_) => panic!("a DoP engine takes no PCM"),
    }
}

#[test]
fn a_stop_is_done_once() {
    let mut direct: PlaybackEngine<char> = PlaybackEngine::new_alsa_direct(44_100, false);
    assert_eq!(direct.stop_inner(), StopAction::JoinBounded);
    assert_eq!(direct.stop_inner(), StopAction::AlreadyStopped);
    let mut jack: PlaybackEngine<char> = PlaybackEngine::new_jack(48_000);
    assert_eq!(jack.stop_inner(), StopAction::Join);
    let mut dop: PlaybackEngine<char> = PlaybackEngine::new_alsa_dop(176_400);
    assert_eq!(dop.stop_inner(), StopAction::JoinThenStop);
    let mut rodio: PlaybackEngine<char> = PlaybackEngine::new_rodio();
    assert_eq!(rodio.stop_inner(), StopAction::Delegate);
}

#[test]
fn a_writer_that_is_stuck_is_left_behind() {
    assert_eq!(join_step(false, 2_999), JoinStep::Wait);
    assert_eq!(join_step(false, 3_000), JoinStep::Abandon);
    assert_eq!(join_step(true, 3_000), JoinStep::Join);
}

#[test]
fn a_volume_finds_its_way() {
    let route = |engine: PlaybackEngine<char>| engine.set_volume();
    assert_eq!(route(PlaybackEngine::new_rodio()), VolumeRoute::Sink);
    assert_eq!(
        route(PlaybackEngine::new_alsa_direct(44_100, true)),
        VolumeRoute::HardwareMixer
    );
    assert_eq!(route(PlaybackEngine::new_alsa_direct(44_100, false)), VolumeRoute::Writer);
    assert_eq!(route(PlaybackEngine::new_jack(48_000)), VolumeRoute::Fixed);
    assert_eq!(route(PlaybackEngine::new_alsa_dop(176_400)), VolumeRoute::Fixed);
}

#[test]
fn positions_are_whole_seconds() {
    let mut line: Line<char> = Line::new(44_100);
    line.position_frames = 44_100 * 3 - 1;
    line.duration_frames = 44_100 * 5;
    let engine = PlaybackEngine::AlsaDirect { line, hardware_volume: false };
    assert_eq!(engine.position_secs(), Some(2));
    assert_eq!(engine.duration_secs(), Some(5));
    assert_eq!(PlaybackEngine::<char>::new_rodio().position_secs(), None);
    assert_eq!(PlaybackEngine::<char>::new_alsa_dop(176_400).duration_secs(), None);
}

#[test]
fn a_direct_writer_plays_one_source_after_the_other() {
    let mut engine = PlaybackEngine::new_alsa_direct(44_100, false);
    engine.append('a').ok();
    let PlaybackEngine::AlsaDirect { mut line, .. } = engine else { panic!() };
    let mut writer = AlsaWriter::new(2);
    assert_eq!(writer.next(&line), WriterStep::WaitForSource);
    assert!(writer.on_wait(&mut line));
    assert_eq!(writer.next(&line), WriterStep::Fill { samples: 16_384 });
    assert!(!writer.on_written(&mut line, 16_384, false));
    assert_eq!(line.position_frames, 8_192);
    // The next source follows without a gap.
    line.sources.push('b');
    assert!(!writer.on_written(&mut line, 100, true));
    assert_eq!(writer.current, Some('b'));
    assert!(line.source_transition);
    assert_eq!(line.position_frames, 0);
    assert_eq!(line.duration_frames, 8_242);
    // Nothing left: drain.
    assert!(writer.on_written(&mut line, 0, true));
    writer.on_drained(&mut line);
    assert!(!line.is_playing);
    assert_eq!(writer.next(&line), WriterStep::WaitForSource);
    assert!(!writer.on_wait(&mut line));
    // A late hand-off plays.
    line.sources.push('c');
    assert!(writer.on_wait(&mut line));
    assert!(line.is_playing);
    // A pause sleeps, and a stop is noticed there.
    line.is_playing = false;
    assert_eq!(writer.next(&line), WriterStep::Sleep);
    line.should_stop = true;
    assert_eq!(writer.gate(&line), WriterStep::Exit);
    assert_eq!(writer.next(&line), WriterStep::Exit);
}

#[test]
fn a_hand_off_against_a_stop_does_not_play() {
    let mut line = Line::new(44_100);
    let mut writer = AlsaWriter::new(2);
    writer.on_drained(&mut line);
    line.sources.push('c');
    line.should_stop = true;
    assert!(writer.on_wait(&mut line));
    assert!(!line.is_playing);
}

#[test]
fn a_graph_feeder_counts_what_the_ring_took() {
    let mut line = Line::new(48_000);
    let mut feeder = JackFeeder::new();
    line.sources.push('a');
    line.is_playing = true;
    assert!(feeder.on_wait(&mut line));
    assert_eq!(feeder.next(&line), WriterStep::Fill { samples: 8_192 });
    assert_eq!(feeder.on_ring(&mut line, 0, 1_000), 2_000);
    assert_eq!(feeder.on_ring(&mut line, 2_000, 0), 2_000);
    assert_eq!(line.position_frames, 1_000);
    line.sources.push('b');
    feeder.on_source_end(&mut line);
    assert_eq!(feeder.current, Some('b'));
    assert!(line.source_transition && line.is_playing);
    feeder.on_source_end(&mut line);
    assert_eq!(feeder.current, None);
    assert!(!line.is_playing);
}

#[test]
fn a_dsd_writer_keeps_the_dac_locked() {
    let mut line = Line::new(176_400);
    let mut writer = DopWriter::new(2, 176_400);
    assert_eq!(writer.next(&line), DopStep::WaitForSource);
    line.sources.push('a');
    assert!(writer.on_wait(&mut line));
    assert!(!line.source_transition, "the first source is no transition");
    assert_eq!(writer.next(&line), DopStep::Silence { frames: 17_640 });
    line.is_playing = true;
    assert_eq!(writer.next(&line), DopStep::Fill { words: 8_192 });
    line.sources.push('b');
    assert_eq!(writer.on_written(&mut line, 8_192, true), None);
    assert_eq!(line.position_frames, 4_096);
    assert!(writer.on_wait(&mut line));
    assert!(line.source_transition);
    assert_eq!(line.position_frames, 0);
    // Nothing left: 150 ms of silence.
    assert_eq!(writer.on_written(&mut line, 10, true), Some(26_460));
    assert!(line.is_playing, "the line plays until the silence is out");
    writer.on_padded(&mut line);
    assert!(!line.is_playing);
    writer.on_write_failed(&mut line);
    assert_eq!(writer.next(&line), DopStep::Exit { silence_frames: 26_460 });
}

#[test]
fn a_transition_is_told_once() {
    let mut engine: PlaybackEngine<char> = PlaybackEngine::new_jack(48_000);
    assert!(!engine.take_source_transition());
    if let PlaybackEngine::Jack { line } = &mut engine {
        line.source_transition = true;
    }
    assert!(engine.take_source_transition());
    assert!(!engine.take_source_transition());
}
