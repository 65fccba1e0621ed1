use qbz::media_source::{BufferedMediaSource, FetchPlan, SeekStep, SeekTarget};
use qbz::remote_stream::{
    describe_error_chain, is_header_flood_error, probe_format, probe_size, BodyEnd, FeedError,
    FeedStep, Feeder, ProbeError, StreamFormat,
};
use qbz::stream_buffer::BufferState;
use qbz::stream_config::StreamingConfig;

const CONFIG: StreamingConfig =
    StreamingConfig { initial_buffer_bytes: 4, max_buffer_bytes: 100 };

fn stream(total: Option<u64>) -> (BufferedMediaSource, Feeder, BufferState) {
    let (source, writer, state) = BufferedMediaSource::new_seekable(CONFIG, total);
    (source, Feeder::new(writer), state)
}

#[test]
fn a_head_reply_gives_the_size() {
    assert_eq!(probe_size(200, Some("123")), Ok(123));
    assert_eq!(probe_size(200, Some("12x")), Err(ProbeError::MissingContentLength));
    assert_eq!(probe_size(200, None), Err(ProbeError::MissingContentLength));
    assert_eq!(probe_size(404, Some("123")), Err(ProbeError::HeadStatus(404)));
    assert_eq!(probe_size(200, Some("+7")), Ok(7));
    assert_eq!(
        probe_size(200, Some("18446744073709551616")),
        Err(ProbeError::MissingContentLength)
    );
}

#[test]
fn a_flac_header_gives_the_format() {
    let mut bytes = vec![0u8; 42];
    bytes[..4].copy_from_slice(b"fLaC");
    // 96 kHz, two channels, 24 bits.
    bytes[18] = 0x17;
    bytes[19] = 0x70;
    bytes[20] = 0x03;
    bytes[21] = 0x70;
    let format = StreamFormat { sample_rate: 96_000, channels: 2, bit_depth: 24 };
    assert_eq!(probe_format(206, &bytes), Ok(format));
    let cd = StreamFormat { sample_rate: 44_100, channels: 2, bit_depth: 16 };
    assert_eq!(probe_format(200, b"ID3"), Ok(cd));
    assert_eq!(probe_format(200, &bytes[..25]), Ok(cd));
    assert_eq!(probe_format(416, &bytes), Err(ProbeError::RangeStatus(416)));
}

#[test]
fn a_whole_file_needs_one_plain_request() {
    let (source, mut feeder, mut state) = stream(Some(10));
    assert_eq!(feeder.request_range(), None);
    assert!(feeder.on_response(&mut state, 200).is_ok());
    assert_eq!(feeder.on_chunk(&mut state, b"01234"), None);
    assert_eq!(feeder.on_chunk(&mut state, b"56789"), None);
    assert_eq!(feeder.on_body_end(&mut state, BodyEnd::Ended), FeedStep::Done);
    assert!(source.is_complete(&state));
    assert_eq!(source.take_complete_data(&state).as_deref(), Some(&b"0123456789"[..]));
}

#[test]
fn a_body_that_breaks_is_resumed_where_it_died() {
    let (source, mut feeder, mut state) = stream(Some(10));
    feeder.on_response(&mut state, 200).unwrap();
    feeder.on_chunk(&mut state, b"0123");
    assert_eq!(feeder.on_body_end(&mut state, BodyEnd::Failed), FeedStep::Open);
    assert_eq!(feeder.request_range().as_deref(), Some("bytes=4-"));
    feeder.on_response(&mut state, 206).unwrap();
    feeder.on_chunk(&mut state, b"456789");
    assert_eq!(feeder.on_body_end(&mut state, BodyEnd::Ended), FeedStep::Done);
    assert_eq!(source.take_complete_data(&state).as_deref(), Some(&b"0123456789"[..]));
}

#[test]
fn a_server_that_ignores_the_range_sends_the_whole_file() {
    let (source, mut feeder, mut state) = stream(Some(10));
    feeder.on_response(&mut state, 200).unwrap();
    feeder.on_chunk(&mut state, b"0123");
    feeder.on_body_end(&mut state, BodyEnd::Failed);
    // 200, not 206: the body starts at byte 0 again.
    feeder.on_response(&mut state, 200).unwrap();
    feeder.on_chunk(&mut state, b"0123456789");
    assert_eq!(feeder.on_body_end(&mut state, BodyEnd::Ended), FeedStep::Done);
    assert_eq!(source.take_complete_data(&state).as_deref(), Some(&b"0123456789"[..]));
}

#[test]
fn a_body_after_an_ignored_range_lands_where_it_belongs() {
    let (source, mut feeder, mut state) = stream(Some(10));
    feeder.on_response(&mut state, 200).unwrap();
    feeder.on_chunk(&mut state, b"0123");
    feeder.on_body_end(&mut state, BodyEnd::Failed);
    // The range is ignored and nothing comes.
    feeder.on_response(&mut state, 200).unwrap();
    assert_eq!(feeder.on_body_end(&mut state, BodyEnd::Ended), FeedStep::Open);
    // The retry is honored: its bytes belong at 4, not at the start.
    assert_eq!(feeder.request_range().as_deref(), Some("bytes=4-"));
    feeder.on_response(&mut state, 206).unwrap();
    feeder.on_chunk(&mut state, b"456789");
    assert_eq!(feeder.on_body_end(&mut state, BodyEnd::Ended), FeedStep::Done);
    assert_eq!(source.take_complete_data(&state).as_deref(), Some(&b"0123456789"[..]));
}

#[test]
fn a_jump_is_followed_and_the_hole_filled_later() {
    let mb: u64 = 1024 * 1024;
    let (source, mut feeder, mut state) = stream(Some(8 * mb));
    let mut reader = source.create_reader(&mut state);
    feeder.on_response(&mut state, 200).unwrap();
    assert_eq!(feeder.on_chunk(&mut state, &vec![1u8; mb as usize]), None);
    assert!(matches!(
        reader.seek(&mut state, SeekTarget::Start(6 * mb)),
        SeekStep::Wait { requested: true }
    ));
    let end = feeder.on_wake(&mut state).expect("a reader jumped");
    assert_eq!(end, BodyEnd::Restart(FetchPlan { offset: 6 * mb, end: None }));
    assert_eq!(feeder.on_wake(&mut state), None);
    assert_eq!(feeder.on_body_end(&mut state, end), FeedStep::Open);
    feeder.on_response(&mut state, 206).unwrap();
    feeder.on_chunk(&mut state, &vec![6u8; 2 * mb as usize]);
    assert_eq!(feeder.on_body_end(&mut state, BodyEnd::Ended), FeedStep::Open);
    assert_eq!(feeder.plan, FetchPlan { offset: mb, end: Some(6 * mb) });
    feeder.on_response(&mut state, 206).unwrap();
    // The plan's bound ends the body.
    assert_eq!(
        feeder.on_chunk(&mut state, &vec![3u8; 5 * mb as usize]),
        Some(BodyEnd::Ended)
    );
    assert_eq!(feeder.on_body_end(&mut state, BodyEnd::Ended), FeedStep::Done);
    assert!(source.is_complete(&state));
    assert_eq!(source.head_bytes(&state), 8 * mb);
}

#[test]
fn bodies_that_yield_nothing_end_the_feeder() {
    let (_source, mut feeder, mut state) = stream(Some(10));
    feeder.on_response(&mut state, 200).unwrap();
    assert_eq!(feeder.on_body_end(&mut state, BodyEnd::Ended), FeedStep::Open);
    assert_eq!(feeder.on_body_end(&mut state, BodyEnd::Ended), FeedStep::Open);
    assert_eq!(
        feeder.on_body_end(&mut state, BodyEnd::Ended),
        FeedStep::Fail(FeedError::NoProgress { offset: 0, empty_bodies: 3 })
    );

    let (_source, mut feeder, mut state) = stream(Some(10));
    feeder.on_response(&mut state, 200).unwrap();
    assert_eq!(feeder.on_body_end(&mut state, BodyEnd::Failed), FeedStep::Open);
    assert_eq!(feeder.on_body_end(&mut state, BodyEnd::Failed), FeedStep::Open);
    assert_eq!(
        feeder.on_body_end(&mut state, BodyEnd::Failed),
        FeedStep::Fail(FeedError::BodyFailed { offset: 0 })
    );
}

#[test]
fn a_refused_request_is_an_error() {
    let (_source, mut feeder, mut state) = stream(Some(10));
    assert_eq!(feeder.on_response(&mut state, 403), Err(FeedError::Status(403)));
}

#[test]
fn an_aborted_feeder_tells_its_readers() {
    let (source, feeder, mut state) = stream(Some(10));
    feeder.abort(&mut state);
    assert_eq!(
        source.download_error(&state).as_deref(),
        Some("remote stream aborted before completion")
    );
}

#[test]
fn an_error_is_told_with_its_causes() {
    let causes = vec!["a".to_string(), "b".to_string(), "c".to_string()];
    assert_eq!(describe_error_chain(&causes), "a: b: c");
    assert_eq!(describe_error_chain(&Vec::new()), "");
}

#[test]
fn a_header_flood_is_told_by_its_message() {
    assert!(is_header_flood_error("request failed: Message HEAD is too large"));
    assert!(is_header_flood_error("TOO MANY HEADERS"));
    assert!(!is_header_flood_error("too many header"));
    assert!(!is_header_flood_error(""));
}
