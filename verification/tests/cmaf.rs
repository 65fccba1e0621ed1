use qbz::cmaf::{
    decrypt_segment_into, decrypt_segments_into, progress_tick, raw_bundle, segment_url,
    stream_source, streaming_info, track_size, FileUrl, InitInfo, SegmentTableEntry,
};
use qbz::cmaf_download::{
    finish_disk_download, is_transient_status, order_segments, ArrivedSegment, FetchAttempt,
    FetchFailure, FetchRun, FetchStep, FileRange, SegmentOrder, WritePacer,
};

/// Bytes of the box that carries a segment's frame table.
const SEGMENT_UUID: [u8; 16] = [
    0x3b, 0x42, 0x12, 0x92, 0x56, 0xf3, 0x5f, 0x75, 0x92, 0x36, 0x63, 0xb6, 0x9a, 0x1f, 0x52, 0xb2,
];

const KEY: [u8; 16] = [7u8; 16];

/// A keystream of key and counter block: its own inverse, and as long as its
/// input.
fn cipher(key: [u8; 16], iv: Vec<u8>, frame: Vec<u8>) -> Vec<u8> {
    frame
        .iter()
        .enumerate()
        .map(|(i, b)| b ^ key[i % 16] ^ iv.get(i % 8).copied().unwrap_or(0) ^ (i as u8))
        .collect()
}

/// Build one syntactically valid encrypted segment: a `uuid` box carrying the
/// frame table, followed by an `mdat` box carrying the audio. `frames` is
/// (payload, encrypted); a tail of `trailing` unencrypted bytes follows the last
/// frame.
fn segment(frames: &[(Vec<u8>, bool)], trailing: usize) -> Vec<u8> {
    let iv_size: usize = 8;
    let mut uuid_payload: Vec<u8> = Vec::new();
    uuid_payload.extend_from_slice(&[0u8; 4]);
    let data_offset_pos = uuid_payload.len();
    uuid_payload.extend_from_slice(&[0u8; 4]);
    uuid_payload.push(iv_size as u8);
    let n = frames.len();
    uuid_payload.extend_from_slice(&[(n >> 16) as u8, (n >> 8) as u8, n as u8]);
    for (i, (payload, encrypted)) in frames.iter().enumerate() {
        uuid_payload.extend_from_slice(&(payload.len() as u32).to_be_bytes());
        uuid_payload.extend_from_slice(&[0u8; 2]);
        uuid_payload.extend_from_slice(&(if *encrypted { 1u16 } else { 0u16 }).to_be_bytes());
        uuid_payload.extend_from_slice(&[i as u8 + 1; 8]);
    }

    let uuid_box_len = 8 + 16 + uuid_payload.len();
    // The offset is measured from the start of the uuid box, and the audio begins
    // at the mdat payload, which follows the whole uuid box.
    let data_offset_raw = (uuid_box_len + 8) as u32;
    uuid_payload[data_offset_pos..data_offset_pos + 4]
        .copy_from_slice(&data_offset_raw.to_be_bytes());

    let mut mdat_payload: Vec<u8> = Vec::new();
    for (payload, _) in frames {
        mdat_payload.extend_from_slice(payload);
    }
    mdat_payload.extend(std::iter::repeat(0xABu8).take(trailing));

    let mut out: Vec<u8> = Vec::new();
    out.extend_from_slice(&(uuid_box_len as u32).to_be_bytes());
    out.extend_from_slice(b"uuid");
    out.extend_from_slice(&SEGMENT_UUID);
    out.extend_from_slice(&uuid_payload);
    out.extend_from_slice(&((mdat_payload.len() + 8) as u32).to_be_bytes());
    out.extend_from_slice(b"mdat");
    out.extend_from_slice(&mdat_payload);
    out
}

fn fixture() -> Vec<Vec<u8>> {
    vec![
        segment(&[(vec![1u8; 64], true), (vec![2u8; 48], false)], 0),
        segment(&[(vec![3u8; 96], true)], 7),
        segment(
            &[(vec![4u8; 32], false), (vec![5u8; 32], true), (vec![6u8; 16], true)],
            3,
        ),
    ]
}

#[test]
fn one_at_a_time_matches_the_whole_batch() {
    let segments = fixture();

    let mut batch = Vec::new();
    decrypt_segments_into(&segments, KEY, &mut batch, &cipher).expect("batch");

    let mut streamed = Vec::new();
    for (i, seg) in segments.iter().enumerate() {
        decrypt_segment_into(seg, i + 1, KEY, &mut streamed, &cipher).expect("one at a time");
    }

    assert!(!batch.is_empty(), "fixture produced no audio — parser drift?");
    assert_eq!(batch, streamed);
}

#[test]
fn the_fixture_actually_carries_every_frame() {
    let mut out = Vec::new();
    decrypt_segments_into(&fixture(), KEY, &mut out, &cipher).expect("decrypt");
    // 64+48 + 96+7 + 32+32+16+3 = 298 bytes of frames and trailing audio.
    assert_eq!(out.len(), 298);
}

#[test]
fn order_changes_the_output() {
    let segments = fixture();
    let mut forward = Vec::new();
    let mut reversed = Vec::new();
    for (i, seg) in segments.iter().enumerate() {
        decrypt_segment_into(seg, i + 1, KEY, &mut forward, &cipher).expect("fwd");
    }
    for (i, seg) in segments.iter().rev().enumerate() {
        decrypt_segment_into(seg, i + 1, KEY, &mut reversed, &cipher).expect("rev");
    }
    assert_ne!(forward, reversed);
}

#[test]
fn only_marked_frames_are_decrypted() {
    let mut out = Vec::new();
    let seg = segment(&[(vec![9u8; 4], false), (vec![9u8; 4], true)], 2);
    decrypt_segment_into(&seg, 1, KEY, &mut out, &cipher).expect("decrypt");
    assert_eq!(out[..4], [9u8; 4]);
    // The second frame's counter block is 2 throughout.
    assert_eq!(out[4..8], [9 ^ 7 ^ 2, 9 ^ 7 ^ 2 ^ 1, 9 ^ 7 ^ 2 ^ 2, 9 ^ 7 ^ 2 ^ 3]);
    assert_eq!(out[8..], [0xABu8; 2]);
}

#[test]
fn a_frame_beyond_the_segment_is_an_overflow() {
    let mut seg = segment(&[(vec![1u8; 8], false), (vec![2u8; 8], false)], 0);
    // The size of the second frame, behind the box header, the table header and
    // the first entry.
    seg[52..56].copy_from_slice(&9u32.to_be_bytes());
    let mut out = vec![0xEEu8];
    let err = decrypt_segment_into(&seg, 4, KEY, &mut out, &cipher).unwrap_err();
    assert_eq!(err, "CMAF seg 4 frame overflow");
    // What fitted is there.
    assert_eq!(out, [0xEE, 1, 1, 1, 1, 1, 1, 1, 1]);
}

#[test]
fn a_segment_without_a_frame_table_is_refused() {
    let mut out = Vec::new();
    let err = decrypt_segment_into(&[0u8; 4], 2, KEY, &mut out, &cipher).unwrap_err();
    assert!(err.starts_with("CMAF seg 2 parse: "), "{err}");
    assert!(out.is_empty());
    // The batch stops at the first that fails, and says which.
    let mut segments = fixture();
    segments[1] = vec![0u8; 4];
    let err = decrypt_segments_into(&segments, KEY, &mut out, &cipher).unwrap_err();
    assert!(err.starts_with("CMAF seg 2 parse: "), "{err}");
    assert_eq!(out.len(), 112);
}

#[test]
fn the_disk_sink_and_the_memory_sink_agree() {
    let segments = fixture();
    let mut in_memory = Vec::new();
    for (i, seg) in segments.iter().enumerate() {
        decrypt_segment_into(seg, i + 1, KEY, &mut in_memory, &cipher).expect("memory sink");
    }

    // One buffer per segment, written in order and paced.
    let mut on_disk: Vec<u8> = Vec::new();
    let mut pacer = WritePacer::new(0);
    for (i, seg) in segments.iter().enumerate() {
        let mut chunk = Vec::new();
        decrypt_segment_into(seg, i + 1, KEY, &mut chunk, &cipher).expect("file sink");
        let (range, _) = pacer.chunk_written(chunk.len());
        assert_eq!(range.offset, on_disk.len());
        on_disk.extend_from_slice(&chunk);
    }
    let (_, written) = pacer.finish();

    assert!(!in_memory.is_empty(), "fixture produced no audio");
    assert_eq!(in_memory, on_disk, "disk and memory assembly diverged");
    assert_eq!(written, on_disk.len(), "byte count must match what was written");
}

#[test]
fn a_range_is_waited_for_once_the_next_is_on_its_way() {
    let mut pacer = WritePacer::new(42);
    let (first, waited) = pacer.chunk_written(10);
    assert_eq!(first, FileRange { offset: 42, len: 10 });
    assert_eq!(waited, None);
    let (second, waited) = pacer.chunk_written(5);
    assert_eq!(second, FileRange { offset: 52, len: 5 });
    assert_eq!(waited, Some(first));
    assert_eq!(pacer.finish(), (Some(second), 57));
}

#[test]
fn segments_are_taken_in_order_only() {
    let mut order = SegmentOrder::new();
    assert!(order.accept("tag", 1).is_ok());
    assert_eq!(
        order.accept("tag", 3),
        Err("[tag] segments arrived out of order: expected 2, got 3".to_string())
    );
    assert!(order.accept("tag", 2).is_ok());
}

#[test]
fn arrived_segments_are_put_in_order() {
    let arrived = [3u8, 1, 2]
        .iter()
        .map(|n| ArrivedSegment { number: *n, data: vec![*n; 2] })
        .collect();
    let sorted: Vec<(u8, Vec<u8>)> =
        order_segments(arrived).into_iter().map(|s| (s.number, s.data)).collect();
    assert_eq!(sorted, [(1, vec![1, 1]), (2, vec![2, 2]), (3, vec![3, 3])]);
}

#[test]
fn a_short_file_is_not_published() {
    assert_eq!(finish_disk_download(9, 100, Ok(100), Ok(())), Ok(()));
    assert_eq!(
        finish_disk_download(9, 100, Ok(98), Ok(())),
        Err(
            "CMAF-DISK track 9: wrote 98 bytes, segment table said 100 -- refusing to publish a \
             short file"
                .to_string()
        )
    );
    assert_eq!(
        finish_disk_download(9, 100, Ok(100), Err("fetch".to_string())),
        Err("fetch".to_string())
    );
    assert_eq!(
        finish_disk_download(9, 100, Err("disk".to_string()), Err("fetch".to_string())),
        Err("disk".to_string())
    );
}

fn file_url() -> FileUrl {
    FileUrl {
        url_template: Some("https://cdn/$SEGMENT$?s=$SEGMENT$".to_string()),
        key: Some("k".to_string()),
        n_segments: 12,
        format_id: None,
        sampling_rate: Some(96_000),
        bits_depth: None,
        bit_depth: Some(24),
    }
}

#[test]
fn a_stream_needs_a_template_and_a_key() {
    let (template, key) = stream_source(&file_url()).expect("both are there");
    assert_eq!(segment_url(&template, 0), "https://cdn/0?s=0");
    assert_eq!(segment_url(&template, 117), "https://cdn/117?s=117");
    assert_eq!(key, "k");
    let no_key = FileUrl { key: None, ..file_url() };
    assert_eq!(stream_source(&no_key), Err("No key in file/url response".to_string()));
    let neither = FileUrl { key: None, url_template: None, ..file_url() };
    assert_eq!(stream_source(&neither), Err("No url_template in file/url response".to_string()));
}

#[test]
fn a_stream_has_the_format_that_was_asked_for_unless_told_otherwise() {
    let init = InitInfo {
        flac_header: vec![1, 2, 3],
        segment_table: vec![
            SegmentTableEntry { byte_len: 10 },
            SegmentTableEntry { byte_len: 20 },
        ],
    };
    assert_eq!(track_size(&init.flac_header, &init.segment_table), 33);
    let info = streaming_info(&file_url(), "t".to_string(), KEY, init, 27, 8);
    assert_eq!(info.format_id, 27);
    assert_eq!(info.sampling_rate, Some(96_000));
    assert_eq!(info.bit_depth, Some(24));
    assert_eq!(info.n_segments, 12);
    assert_eq!(info.init_fetch_ms, 8);
    let told = FileUrl { format_id: Some(7), bits_depth: Some(16), ..file_url() };
    let bundle = raw_bundle(&told, vec![9], fixture(), KEY, "i".to_string(), 27);
    assert_eq!(bundle.format_id, 7);
    assert_eq!(bundle.bit_depth, Some(16));
    assert_eq!(bundle.segments.len(), 3);
}

#[test]
fn progress_counts_finished_segments() {
    let tick = progress_tick(4, 12, 1_000);
    assert_eq!(
        (tick.segments_completed, tick.n_segments, tick.bytes_this_segment),
        (5, 12, 1_000)
    );
}

fn refused(status: u16) -> FetchAttempt {
    FetchAttempt::Response { status, body: vec![9] }
}

#[test]
fn failures_that_may_pass_are_tried_again() {
    let mut run = FetchRun::new(3);
    assert!(matches!(run.step(refused(503)), FetchStep::Retry { failed: 1 }));
    let lost = FetchAttempt::Network("reset".to_string());
    assert!(matches!(run.step(lost), FetchStep::Retry { failed: 2 }));
    let fetched = FetchAttempt::Response { status: 200, body: vec![1, 2] };
    assert!(matches!(run.step(fetched), FetchStep::Done(body) if body == vec![1, 2]));
}

#[test]
fn a_final_refusal_is_not_tried_again() {
    for status in [403, 404] {
        let mut run = FetchRun::new(3);
        let step = run.step(refused(status));
        assert!(matches!(step, FetchStep::GiveUp(FetchFailure::Status(s)) if s == status));
    }
    assert!(is_transient_status(429) && is_transient_status(500) && is_transient_status(599));
    assert!(!is_transient_status(404) && !is_transient_status(600));
}

#[test]
fn a_fetch_gives_up_after_its_last_attempt() {
    let mut run = FetchRun::new(2);
    assert!(matches!(run.step(refused(429)), FetchStep::Retry { failed: 1 }));
    let step = run.step(refused(429));
    assert!(matches!(step, FetchStep::GiveUp(FetchFailure::Status(429))));
    let mut run = FetchRun::new(1);
    let step = run.step(FetchAttempt::Network("reset".to_string()));
    assert!(matches!(step, FetchStep::GiveUp(FetchFailure::Network(why)) if why == "reset"));
}

#[test]
fn segments_with_one_number_keep_the_order_they_arrived_in() {
    let arrived = [(2u8, 1u8), (1, 2), (2, 3), (1, 4), (2, 5)]
        .iter()
        .map(|&(number, tag)| ArrivedSegment { number, data: vec![tag] })
        .collect();
    let ordered: Vec<(u8, u8)> =
        order_segments(arrived).iter().map(|s| (s.number, s.data[0])).collect();
    assert_eq!(ordered, vec![(1, 2), (1, 4), (2, 1), (2, 3), (2, 5)]);
}

#[test]
fn a_batch_fails_as_its_first_bad_segment_does() {
    let mut segments = fixture();
    segments[1].truncate(12);
    let mut batch = vec![1, 2, 3];
    let failed = decrypt_segments_into(&segments, KEY, &mut batch, &cipher).unwrap_err();

    let mut first = Vec::new();
    decrypt_segment_into(&segments[0], 1, KEY, &mut first, &cipher).expect("the first is whole");
    let mut second = Vec::new();
    let alone = decrypt_segment_into(&segments[1], 2, KEY, &mut second, &cipher).unwrap_err();

    assert_eq!(failed, alone);
    assert_eq!(batch, [vec![1, 2, 3], first, second].concat());
}
