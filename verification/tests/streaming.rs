use qbz::media_source::{
    BufferWriter, BufferedMediaSource, FetchPlan, ReadStep, SeekStep, SeekTarget, StreamErrorKind,
};
use qbz::stream_buffer::BufferState;
use qbz::stream_config::{
    max_initial_buffer_bytes, raw_initial_buffer_for_speed, set_max_initial_buffer_bytes,
    InitialBufferCap, SpeedBand, StreamingConfig,
};

fn config(initial_buffer_bytes: usize, max_buffer_bytes: usize) -> StreamingConfig {
    StreamingConfig { initial_buffer_bytes, max_buffer_bytes }
}

/// An open-ended plan, the shape a live body always has.
fn to_eof(offset: u64) -> FetchPlan {
    FetchPlan { offset, end: None }
}

/// Drive a range-capable buffer the way a feeder does: point the write head at
/// the plan and push the bytes.
fn feed(writer: &BufferWriter, state: &mut BufferState, plan: FetchPlan, data: &[u8]) {
    writer.begin_at(state, plan.offset);
    writer.push_chunk(state, data);
}

fn read(source: &mut BufferedMediaSource, state: &mut BufferState, len: usize) -> Vec<u8> {
    match source.read(state, len) {
        ReadStep::Bytes(data) => data,
        ReadStep::Failed(err) => panic!("read failed: {err:?}"),
        ReadStep::Wait { requested } => panic!("read would wait (requested: {requested})"),
    }
}

fn seek(source: &mut BufferedMediaSource, state: &mut BufferState, offset: u64) -> u64 {
    match source.seek(state, SeekTarget::Start(offset)) {
        SeekStep::At(pos) => pos,
        SeekStep::Failed(err) => panic!("seek failed: {err:?}"),
        SeekStep::Wait { requested } => panic!("seek would wait (requested: {requested})"),
    }
}

/// A seek that has to wait, and whether it asked for a range.
fn seek_waits(source: &mut BufferedMediaSource, state: &mut BufferState, offset: u64) -> bool {
    match source.seek(state, SeekTarget::Start(offset)) {
        SeekStep::Wait { requested } => requested,
        SeekStep::At(pos) => panic!("seek is already at {pos}"),
        SeekStep::Failed(err) => panic!("seek failed: {err:?}"),
    }
}

#[test]
fn first_error_wins_over_later_generic_abort() {
    let (source, writer, mut state) =
        BufferedMediaSource::new(StreamingConfig::from_seconds(1), None);
    writer.error(&mut state, "root cause".to_string());
    writer.error(&mut state, "CMAF stream aborted before completion".to_string());
    assert_eq!(source.download_error(&state).as_deref(), Some("root cause"));
}

#[test]
fn feeder_error_is_visible_to_waiters_before_min_buffer() {
    let (source, writer, mut state) =
        BufferedMediaSource::new(StreamingConfig::from_seconds(1), None);
    assert!(!source.has_min_buffer(&state));
    assert!(source.download_error(&state).is_none());
    writer.error(&mut state, "feeder died".to_string());
    assert_eq!(source.download_error(&state).as_deref(), Some("feeder died"));
    assert!(!source.has_min_buffer(&state));
    match source.wait_for_initial_buffer(&state) {
        Some(Err(err)) => assert_eq!(err.message, "feeder died"),
        _ => panic!("the wait must end with the feeder's error"),
    }
}

#[test]
fn raw_initial_buffer_for_speed_follows_documented_ladder() {
    // From 10 MB/s up, from 5, from 2, from 1, and below.
    assert_eq!(raw_initial_buffer_for_speed(SpeedBand::VeryFast), 256 * 1024);
    assert_eq!(raw_initial_buffer_for_speed(SpeedBand::Fast), 384 * 1024);
    assert_eq!(raw_initial_buffer_for_speed(SpeedBand::Normal), 512 * 1024);
    assert_eq!(raw_initial_buffer_for_speed(SpeedBand::Slow), 1024 * 1024);
    assert_eq!(raw_initial_buffer_for_speed(SpeedBand::VerySlow), 2 * 1024 * 1024);
}

#[test]
fn from_speed_mbps_with_cap_passes_through_when_under_cap() {
    let cfg = StreamingConfig::from_speed_band(SpeedBand::VerySlow, 4 * 1024 * 1024);
    assert_eq!(cfg.initial_buffer_bytes, 2 * 1024 * 1024);
}

#[test]
fn from_speed_mbps_with_cap_clamps_slow_connection_to_low_memory_cap() {
    let cfg = StreamingConfig::from_speed_band(SpeedBand::VerySlow, 256 * 1024);
    assert_eq!(cfg.initial_buffer_bytes, 256 * 1024);

    let cfg = StreamingConfig::from_speed_band(SpeedBand::Slow, 256 * 1024);
    assert_eq!(cfg.initial_buffer_bytes, 256 * 1024);
}

#[test]
fn from_speed_mbps_with_cap_no_op_for_normal_profile() {
    let cap = 2 * 1024 * 1024;
    for band in [
        SpeedBand::VerySlow,
        SpeedBand::Slow,
        SpeedBand::Normal,
        SpeedBand::Fast,
        SpeedBand::VeryFast,
    ] {
        let cfg = StreamingConfig::from_speed_band(band, cap);
        assert_eq!(
            cfg.initial_buffer_bytes,
            raw_initial_buffer_for_speed(band),
            "cap should not bind for {band:?}"
        );
    }
}

#[test]
fn from_speed_mbps_with_cap_max_buffer_unchanged() {
    let cfg = StreamingConfig::from_speed_band(SpeedBand::VerySlow, 64 * 1024);
    assert_eq!(cfg.max_buffer_bytes, 100 * 1024 * 1024);
}

#[test]
fn the_initial_buffer_cap_is_what_was_set() {
    let mut cap = InitialBufferCap::default();
    let before = max_initial_buffer_bytes(&cap);
    set_max_initial_buffer_bytes(&mut cap, 64 * 1024);
    assert_ne!(before, 64 * 1024);
    assert_eq!(max_initial_buffer_bytes(&cap), 64 * 1024);
}

#[test]
fn test_basic_read_write() {
    let (mut source, writer, mut state) = BufferedMediaSource::new(config(10, 100), Some(20));

    writer.push_chunk(&mut state, b"Hello");
    writer.push_chunk(&mut state, b"World");

    // A read ends where the caller's buffer does.
    assert_eq!(read(&mut source, &mut state, 5), b"Hello");
    assert_eq!(read(&mut source, &mut state, 5), b"World");
}

#[test]
fn test_seek_within_buffer() {
    let (mut source, writer, mut state) = BufferedMediaSource::new(config(5, 100), Some(10));

    writer.push_chunk(&mut state, b"0123456789");
    writer.complete(&mut state);

    assert_eq!(read(&mut source, &mut state, 5), b"01234");

    seek(&mut source, &mut state, 0);
    assert_eq!(read(&mut source, &mut state, 5), b"01234");

    seek(&mut source, &mut state, 3);
    assert_eq!(read(&mut source, &mut state, 5), b"34567");
}

#[test]
fn seeks_are_relative_to_the_reader_and_to_the_end() {
    let (mut source, writer, mut state) = BufferedMediaSource::new(config(5, 100), Some(10));
    writer.push_chunk(&mut state, b"0123456789");
    read(&mut source, &mut state, 4);
    assert!(matches!(source.seek(&mut state, SeekTarget::Current(-2)), SeekStep::At(2)));
    assert!(matches!(source.seek(&mut state, SeekTarget::End(-1)), SeekStep::At(9)));
    assert_eq!(read(&mut source, &mut state, 5), b"9");
    match source.seek(&mut state, SeekTarget::Current(-11)) {
        SeekStep::Failed(err) => {
            assert_eq!(err.kind, StreamErrorKind::InvalidInput);
            assert_eq!(err.message, "Seek position before start of stream");
        },
        _ => panic!("a position before the start"),
    }
    // Past the signed range a start offset is no position at all.
    match source.seek(&mut state, SeekTarget::Start(u64::MAX)) {
        SeekStep::Failed(err) => assert_eq!(err.kind, StreamErrorKind::InvalidInput),
        _ => panic!("a position before the start"),
    }
}

#[test]
fn a_seek_from_an_unknown_end_is_not_supported() {
    let (mut source, writer, mut state) = BufferedMediaSource::new(config(5, 100), None);
    writer.push_chunk(&mut state, b"0123");
    match source.seek(&mut state, SeekTarget::End(0)) {
        SeekStep::Failed(err) => {
            assert_eq!(err.kind, StreamErrorKind::Unsupported);
            assert_eq!(
                err.message,
                "Cannot seek from end while streaming without known size"
            );
        },
        _ => panic!("the end is unknown"),
    }
    // Once the download is complete, the write head is the end.
    writer.complete(&mut state);
    assert!(matches!(source.seek(&mut state, SeekTarget::End(-1)), SeekStep::At(3)));
}

/// A stream whose feeder stopped with bytes 10..20 missing.
fn holed() -> (BufferedMediaSource, BufferState) {
    let (source, writer, mut state) =
        BufferedMediaSource::new_seekable(config(4, 100), Some(30));
    writer.push_chunk(&mut state, b"0123456789");
    feed(&writer, &mut state, to_eof(20), b"UUUUUUUUUU");
    writer.complete(&mut state);
    (source, state)
}

#[test]
fn a_seek_into_a_hole_of_a_finished_stream_fails() {
    let (mut source, mut state) = holed();
    match source.seek(&mut state, SeekTarget::Start(15)) {
        SeekStep::Failed(err) => {
            assert_eq!(err.kind, StreamErrorKind::InvalidInput);
            assert_eq!(err.message, "Seek position beyond end of stream");
        },
        _ => panic!("byte 15 will never come"),
    }
    // The end of the stream itself is a place to stand.
    seek(&mut source, &mut state, 30);
    assert_eq!(read(&mut source, &mut state, 4), b"");
}

#[test]
fn a_byte_that_never_comes_is_an_unexpected_end() {
    let (mut source, mut state) = holed();
    assert_eq!(read(&mut source, &mut state, 30), b"0123456789");
    match source.read(&mut state, 1) {
        ReadStep::Failed(err) => {
            assert_eq!(err.kind, StreamErrorKind::UnexpectedEof);
            assert_eq!(
                err.message,
                "stream byte 10 is not buffered and the feeder has stopped"
            );
        },
        _ => panic!("byte 10 will never come"),
    }
}

#[test]
fn a_finished_sequential_stream_ends_at_its_last_byte() {
    // A sequential stream's size is an estimate: only the feeder's word ends it.
    let (mut source, writer, mut state) = BufferedMediaSource::new(config(4, 100), Some(2));
    writer.push_chunk(&mut state, b"0123");
    assert_eq!(read(&mut source, &mut state, 9), b"0123");
    assert!(matches!(source.read(&mut state, 1), ReadStep::Wait { requested: false }));
    writer.complete(&mut state);
    assert_eq!(read(&mut source, &mut state, 1), b"");
}

#[test]
fn test_complete_data_retrieval() {
    let (source, writer, mut state) = BufferedMediaSource::new(config(5, 100), Some(10));

    writer.push_chunk(&mut state, b"Hello");
    assert!(source.take_complete_data(&state).is_none());

    writer.push_chunk(&mut state, b"World");
    writer.complete(&mut state);

    let data = source.take_complete_data(&state).unwrap();
    assert_eq!(data, b"HelloWorld");
}

#[test]
fn test_blocking_read() {
    let (mut source, writer, mut state) = BufferedMediaSource::new(config(5, 100), None);

    // Nothing there: the reader waits, and asks for nothing.
    assert!(matches!(source.read(&mut state, 7), ReadStep::Wait { requested: false }));

    writer.push_chunk(&mut state, b"Delayed");
    writer.complete(&mut state);

    let data = read(&mut source, &mut state, 7);
    assert_eq!(data.len(), 7);
    assert_eq!(data, b"Delayed");
}

#[test]
fn error_unblocks_reader_with_io_error() {
    let (mut source, writer, mut state) = BufferedMediaSource::new(config(5, 100), None);
    writer.error(&mut state, "cdn failed".into());
    match source.read(&mut state, 8) {
        ReadStep::Failed(err) => {
            assert_eq!(err.kind, StreamErrorKind::Other);
            assert!(err.message.contains("cdn failed"), "{}", err.message);
        },
        _ => panic!("the error must reach the reader"),
    }
}

#[test]
fn sequential_source_never_asks_for_a_range() {
    let (source, writer, mut state) = BufferedMediaSource::new(config(4, 100), Some(100));
    assert!(!source.supports_range_requests(&state));
    writer.push_chunk(&mut state, b"0123");
    assert!(writer.take_request(&mut state).is_none());
    assert!(writer.next_plan(&mut state).is_none());
}

#[test]
fn read_far_ahead_asks_the_feeder_to_re_open_there() {
    let (source, writer, mut state) =
        BufferedMediaSource::new_seekable(config(4, 8 * 1024 * 1024), Some(64 * 1024 * 1024));
    assert!(source.supports_range_requests(&state));
    writer.push_chunk(&mut state, &[7u8; 1024]);

    // The reader jumps 32 MB ahead: a real seek.
    let target = 32 * 1024 * 1024;
    let mut reader = source.create_reader(&mut state);
    assert!(seek_waits(&mut reader, &mut state, target));

    // The feeder sees the request and serves it.
    let plan = writer.take_request(&mut state).expect("a request");
    assert_eq!(plan.offset, target);
    assert_eq!(plan.range_header(), format!("bytes={target}-"));
    feed(&writer, &mut state, plan, b"jump");

    assert_eq!(seek(&mut reader, &mut state, target), target);
    assert_eq!(read(&mut reader, &mut state, 4), b"jump");
    // Reads are measured from the resume point now, not from byte 0.
    assert_eq!(source.primary_offset(&state), target);
    assert_eq!(source.head_bytes(&state), 1024);
    assert_eq!(source.buffer_size(&state), 1024 + 4);
}

#[test]
fn short_forward_hop_waits_instead_of_re_opening() {
    let (source, writer, mut state) =
        BufferedMediaSource::new_seekable(config(4, 8 * 1024 * 1024), Some(4 * 1024 * 1024));
    writer.push_chunk(&mut state, &[1u8; 1024]);

    let mut reader = source.create_reader(&mut state);
    assert!(!seek_waits(&mut reader, &mut state, 64 * 1024));
    assert!(
        writer.take_request(&mut state).is_none(),
        "a 64KB hop should be waited out, not re-requested"
    );

    // The sequential download reaches the reader on its own.
    writer.push_chunk(&mut state, &[2u8; 64 * 1024]);
    seek(&mut reader, &mut state, 64 * 1024);
    assert_eq!(read(&mut reader, &mut state, 2), [2u8, 2u8]);
}

#[test]
fn bisection_probe_just_ahead_of_the_head_waits_for_it() {
    let (source, writer, mut state) =
        BufferedMediaSource::new_seekable(config(4, 100 * 1024 * 1024), Some(72_332_363));
    feed(&writer, &mut state, to_eof(34_165_359), &[9u8; 15_619]);
    assert_eq!(source.primary_offset(&state), 0);

    let mut reader = source.create_reader(&mut state);
    assert!(!seek_waits(&mut reader, &mut state, 35_002_642));
    assert!(
        writer.take_request(&mut state).is_none(),
        "an 803 KB hop must be waited out - re-opening there strands the probes behind it"
    );

    // The live body reaches it on its own, and the probes that converge back
    // down are then served from the buffer, not the network.
    writer.push_chunk(&mut state, &vec![8u8; 900_000]);
    seek(&mut reader, &mut state, 35_002_642);
    assert_eq!(read(&mut reader, &mut state, 1), [8]);
    let mut back = source.create_reader(&mut state);
    assert_eq!(seek(&mut back, &mut state, 34_584_000), 34_584_000);
    assert_eq!(seek(&mut back, &mut state, 34_374_679), 34_374_679);
    assert!(writer.take_request(&mut state).is_none());
}

#[test]
fn a_backward_probe_fetches_from_before_itself() {
    let (source, writer, mut state) =
        BufferedMediaSource::new_seekable(config(4, 200 * 1024 * 1024), Some(108_323_214));
    feed(&writer, &mut state, to_eof(32_311_596), &[9u8; 19_801]);

    let mut reader = source.create_reader(&mut state);
    assert!(seek_waits(&mut reader, &mut state, 31_475_334));
    let plan = writer.take_request(&mut state).expect("a request");
    // Fetched from a megabyte before the probe, not from the probe.
    assert_eq!(plan.offset, 31_475_334 - 1024 * 1024);
    // But the buffer-fill gate still measures from where playback is.
    assert_eq!(source.primary_offset(&state), 31_475_334);

    // Streaming that body through the probe covers the rest of the walk, so
    // nothing below it asks for the network again.
    feed(&writer, &mut state, plan, &vec![7u8; 1024 * 1024 + 64]);
    seek(&mut reader, &mut state, 31_475_334);
    assert_eq!(read(&mut reader, &mut state, 1), [7]);
    let mut back = source.create_reader(&mut state);
    assert_eq!(seek(&mut back, &mut state, 31_057_203), 31_057_203);
    assert_eq!(seek(&mut back, &mut state, 30_848_137), 30_848_137);
    assert!(
        writer.take_request(&mut state).is_none(),
        "the descending walk must be served from the buffer, not re-opened"
    );
}

#[test]
fn holes_are_backfilled_before_the_stream_reports_complete() {
    let (source, writer, mut state) =
        BufferedMediaSource::new_seekable(config(4, 100), Some(30));

    // Header, then a jump to byte 20 that runs to EOF: bytes 10..20 are the hole
    // a resume leaves behind.
    writer.push_chunk(&mut state, b"0123456789");
    feed(&writer, &mut state, to_eof(20), b"UUUUUUUUUU");

    assert!(!source.is_complete(&state));
    assert!(source.take_complete_data(&state).is_none());

    // The feeder is handed the hole, bounded so it stops at the data already
    // held.
    let plan = writer.next_plan(&mut state).unwrap();
    assert_eq!(plan.offset, 10);
    assert_eq!(plan.end, Some(20));
    assert_eq!(plan.range_header(), "bytes=10-19");
    assert_eq!(plan.byte_len(), Some(10));
    feed(&writer, &mut state, plan, b"__________");

    // Nothing missing: the buffer is a whole file again.
    assert!(writer.next_plan(&mut state).is_none());
    assert!(source.is_complete(&state));
    assert_eq!(
        source.take_complete_data(&state).as_deref(),
        Some(&b"0123456789__________UUUUUUUUUU"[..])
    );
}

#[test]
fn a_pending_request_outranks_backfill() {
    let mb: u64 = 1024 * 1024;
    let (source, writer, mut state) =
        BufferedMediaSource::new_seekable(config(4, 16 * 1024 * 1024), Some(8 * mb));
    // Header plus a jumped-to tail: 1 MB .. 6 MB is the hole waiting to be
    // backfilled.
    writer.push_chunk(&mut state, &vec![1u8; mb as usize]);
    feed(&writer, &mut state, to_eof(6 * mb), &vec![6u8; 2 * mb as usize]);

    // A reader now needs a byte inside that hole.
    let mut reader = source.create_reader(&mut state);
    assert!(seek_waits(&mut reader, &mut state, 4 * mb));

    // Playback comes first: the feeder is sent to the probe, a lookbehind early,
    // and runs to EOF, not to the bounded gap that starts at 1 MB.
    let plan = writer.next_plan(&mut state).unwrap();
    assert_eq!(plan.offset, 3 * mb);
    assert_eq!(plan.end, None, "the live body runs to EOF, not to a bound");
    assert_eq!(source.primary_offset(&state), 4 * mb);
    feed(&writer, &mut state, plan, &vec![3u8; mb as usize + 16]);
    assert_eq!(seek(&mut reader, &mut state, 4 * mb), 4 * mb);

    // What is left of the hole is what backfill picks up next.
    let gap = writer.next_plan(&mut state).unwrap();
    assert_eq!((gap.offset, gap.end), (mb, Some(3 * mb)));
}

#[test]
fn overlapping_refetch_does_not_duplicate_bytes() {
    let (source, writer, mut state) =
        BufferedMediaSource::new_seekable(config(4, 100), Some(20));
    writer.push_chunk(&mut state, b"0123456789");
    // A decoder bisecting for a seek point can send us back over bytes already
    // held; the overlap is dropped, not appended twice.
    feed(&writer, &mut state, to_eof(5), b"56789ABCDE");
    assert_eq!(source.buffer_size(&state), 15);
    let mut reader = source.create_reader(&mut state);
    assert_eq!(read(&mut reader, &mut state, 15), b"0123456789ABCDE");
}

#[test]
fn feeder_stops_once_the_last_reader_is_gone() {
    let (source, writer, mut state) =
        BufferedMediaSource::new_seekable(config(4, 100), Some(30));
    writer.push_chunk(&mut state, b"0123456789");
    // A hole remains, so there is still work...
    feed(&writer, &mut state, to_eof(20), b"UUUUUUUUUU");
    assert!(writer.next_plan(&mut state).is_some());
    // ...but nobody left to play it for.
    assert!(source.close(&mut state), "the last reader is gone");
    assert!(writer.next_plan(&mut state).is_none());
}

#[test]
fn min_buffer_is_measured_from_the_resume_point() {
    let (source, writer, mut state) =
        BufferedMediaSource::new_seekable(config(8, 8 * 1024 * 1024), Some(64 * 1024 * 1024));
    writer.push_chunk(&mut state, &[0u8; 1024]);
    // 1024 bytes from byte 0 clears the 8-byte floor.
    assert!(source.has_min_buffer(&state));

    let target = 32 * 1024 * 1024;
    let mut reader = source.create_reader(&mut state);
    assert!(seek_waits(&mut reader, &mut state, target));
    let plan = writer.take_request(&mut state).expect("a request");
    // The jump moved the playback offset: what lies behind no longer counts,
    // only what is buffered at the resume point.
    assert!(!source.has_min_buffer(&state));
    feed(&writer, &mut state, plan, &[1u8; 4]);
    assert!(!source.has_min_buffer(&state));
    writer.push_chunk(&mut state, &[1u8; 4]);
    assert!(source.has_min_buffer(&state));
    seek(&mut reader, &mut state, target);
}

#[test]
fn range_header_covers_bounded_and_open_ended_plans() {
    assert_eq!(to_eof(0).range_header(), "bytes=0-");
    assert_eq!(FetchPlan { offset: 100, end: Some(200) }.range_header(), "bytes=100-199");
    // A degenerate bound reads to EOF rather than emitting "bytes=100-99".
    assert_eq!(FetchPlan { offset: 100, end: Some(100) }.range_header(), "bytes=100-");
    assert!(to_eof(0).is_whole_file());
    assert!(!to_eof(1).is_whole_file());
}

#[test]
fn a_superseded_reader_asks_for_nothing() {
    let (source, writer, mut state) =
        BufferedMediaSource::new_seekable(config(4, 100), Some(64 * 1024 * 1024));
    writer.push_chunk(&mut state, b"0123");
    let mut first = source.create_reader(&mut state);
    let mut second = source.create_reader(&mut state);
    assert!(!seek_waits(&mut first, &mut state, 32 * 1024 * 1024));
    assert!(writer.take_request(&mut state).is_none());
    assert!(seek_waits(&mut second, &mut state, 32 * 1024 * 1024));
    // A request that was taken is not made again while its body streams.
    assert!(writer.take_request(&mut state).is_some());
    assert!(!seek_waits(&mut second, &mut state, 32 * 1024 * 1024));
    assert!(writer.take_request(&mut state).is_none());
}

#[test]
fn trimming_keeps_the_head_and_what_lies_ahead() {
    let (source, writer, mut state) = BufferedMediaSource::new(config(4, 100), Some(20));
    writer.push_chunk(&mut state, b"0123456789ABCDEFGHIJ");
    state.trim_behind(15, 5, 4);
    let mut reader = source.create_reader(&mut state);
    assert_eq!(read(&mut reader, &mut state, 20), b"0123");
    seek(&mut reader, &mut state, 10);
    assert_eq!(read(&mut reader, &mut state, 20), b"ABCDEFGHIJ");
    assert_eq!(source.buffer_size(&state), 14);
}

#[test]
fn the_head_is_readable_before_the_download_is_done() {
    let (source, writer, mut state) =
        BufferedMediaSource::new_seekable(StreamingConfig::fast_start(), Some(100));
    assert!(source.get_buffered_data(&state).is_none());
    writer.push_chunk(&mut state, b"head");
    writer.begin_at(&mut state, 50);
    writer.push_chunk(&mut state, b"tail");
    assert_eq!(source.get_buffered_data(&state).as_deref(), Some(&b"head"[..]));
    assert!(source.take_complete_data(&state).is_none());
    assert_eq!(source.buffer_size(&state), 8);
    assert_eq!(source.head_bytes(&state), 4);
    assert_eq!(StreamingConfig::fast_start().initial_buffer_bytes, 256 * 1024);
}
