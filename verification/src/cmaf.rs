//! Assembling a track from its CMAF segments: where each frame's bytes go, which
//! of them are decrypted, and what makes a download complete.

use vstd::prelude::*;
use vstd::string::*;

use crate::cmaf_segment::{parse_segment_crypto, FrameEntry, SegmentCrypto, SegmentError};
use crate::text::{append_decimal, replace_all};

verus! {

/// Segments in flight at once.
pub const CMAF_PREFETCH_CONCURRENCY: usize = 3;

/// How long a download slot rests after a segment, to stay under the server's
/// limits.
pub const SEGMENT_COOLDOWN_MS: u64 = 500;

/// A single progress tick.
#[derive(Debug, Clone, Copy)]
pub struct CmafProgressUpdate {
    /// Cumulative, from 1 on.
    pub segments_completed: u32,
    pub n_segments: u32,
    pub bytes_this_segment: u64,
}

/// The tick after one more segment.
pub fn progress_tick(completed_before: u32, n_segments: u8, bytes_this_segment: u64) -> (r:
    CmafProgressUpdate)
    requires
        completed_before < u32::MAX,
    ensures
        r.segments_completed == completed_before + 1,
        r.n_segments == n_segments,
        r.bytes_this_segment == bytes_this_segment,
{
    CmafProgressUpdate {
        segments_completed: completed_before + 1,
        n_segments: n_segments as u32,
        bytes_this_segment,
    }
}

/// One row of an init segment's table.
#[derive(Debug, Clone, Copy)]
pub struct SegmentTableEntry {
    /// Decrypted bytes of the segment.
    pub byte_len: u32,
}

/// What the service says of a track's stream.
#[derive(Debug)]
pub struct FileUrl {
    pub url_template: Option<String>,
    pub key: Option<String>,
    pub n_segments: u8,
    pub format_id: Option<u32>,
    pub sampling_rate: Option<u32>,
    pub bits_depth: Option<u32>,
    pub bit_depth: Option<u32>,
}

/// What the init segment says of a track.
#[derive(Debug)]
pub struct InitInfo {
    pub flac_header: Vec<u8>,
    pub segment_table: Vec<SegmentTableEntry>,
}

/// Enough to start streaming a track.
pub struct CmafStreamingInfo {
    pub url_template: String,
    pub n_segments: u8,
    pub content_key: [u8; 16],
    pub flac_header: Vec<u8>,
    pub segment_table: Vec<SegmentTableEntry>,
    pub format_id: u32,
    pub sampling_rate: Option<u32>,
    pub bit_depth: Option<u32>,
    /// How long the init segment took to fetch.
    pub init_fetch_ms: u64,
}

/// Raw, still encrypted segments with what it takes to open them.
pub struct CmafRawBundle {
    pub init_bytes: Vec<u8>,
    pub segments: Vec<Vec<u8>>,
    pub content_key: [u8; 16],
    pub infos: String,
    pub format_id: u32,
    pub sampling_rate: Option<u32>,
    pub bit_depth: Option<u32>,
    pub n_segments: u8,
}

/// Where a downloaded track's bytes should go.
#[derive(Debug)]
pub enum TrackDestination {
    /// Assemble in memory and hand the buffer back.
    Memory,
    /// Write straight to this path as the download proceeds.
    File(String),
}

/// What a download produced.
#[derive(Debug)]
pub enum DownloadedTrack {
    Memory(Vec<u8>),
    File(String),
}

/// The stream's URL template and wrapped key, or what is missing.
pub fn stream_source(file_url: &FileUrl) -> (r: Result<(String, String), String>)
    ensures
        match (file_url.url_template, file_url.key) {
            (None, _) => r matches Err(why) && why@ == "No url_template in file/url response"@,
            (Some(_), None) => r matches Err(why) && why@ == "No key in file/url response"@,
            (Some(template), Some(key)) => r matches Ok(pair) && pair.0@ == template@ && pair.1@
                == key@,
        },
{
    match &file_url.url_template {
        None => Err(String::from_str("No url_template in file/url response")),
        Some(template) => match &file_url.key {
            None => Err(String::from_str("No key in file/url response")),
            Some(key) => Ok((template.clone(), key.clone())),
        },
    }
}

/// The URL of segment `index`; the init segment is number 0.
pub fn segment_url(url_template: &str, index: u8) -> (r: String)
    ensures
        r@ == crate::text::replaced_from(
            url_template@,
            "$SEGMENT$"@,
            crate::text::decimal(index as nat),
            0,
        ),
{
    let mut number = String::new();
    append_decimal(&mut number, index as u64);
    assert(Seq::<char>::empty() + crate::text::decimal(index as nat) =~= crate::text::decimal(
        index as nat,
    ));
    proof {
        reveal_strlit("$SEGMENT$");
    }
    replace_all(url_template, "$SEGMENT$", number.as_str())
}

/// The depth the service reports, under either of its names.
pub open spec fn reported_depth(file_url: FileUrl) -> Option<u32> {
    if file_url.bits_depth is Some {
        file_url.bits_depth
    } else {
        file_url.bit_depth
    }
}

/// The format the service reports, or the one that was asked for.
pub open spec fn reported_format(file_url: FileUrl, asked: u32) -> u32 {
    match file_url.format_id {
        Some(id) => id,
        None => asked,
    }
}

/// Put together what streaming a track takes.
pub fn streaming_info(
    file_url: &FileUrl,
    url_template: String,
    content_key: [u8; 16],
    init: InitInfo,
    asked_format: u32,
    init_fetch_ms: u64,
) -> (r: CmafStreamingInfo)
    ensures
        r.url_template == url_template,
        r.n_segments == file_url.n_segments,
        r.content_key == content_key,
        r.flac_header == init.flac_header,
        r.segment_table == init.segment_table,
        r.format_id == reported_format(*file_url, asked_format),
        r.sampling_rate == file_url.sampling_rate,
        r.bit_depth == reported_depth(*file_url),
        r.init_fetch_ms == init_fetch_ms,
{
    CmafStreamingInfo {
        url_template,
        n_segments: file_url.n_segments,
        content_key,
        flac_header: init.flac_header,
        segment_table: init.segment_table,
        format_id: match file_url.format_id {
            Some(id) => id,
            None => asked_format,
        },
        sampling_rate: file_url.sampling_rate,
        bit_depth: if file_url.bits_depth.is_some() {
            file_url.bits_depth
        } else {
            file_url.bit_depth
        },
        init_fetch_ms,
    }
}

/// Put together what storing a track offline takes.
pub fn raw_bundle(
    file_url: &FileUrl,
    init_bytes: Vec<u8>,
    segments: Vec<Vec<u8>>,
    content_key: [u8; 16],
    infos: String,
    asked_format: u32,
) -> (r: CmafRawBundle)
    ensures
        r.init_bytes == init_bytes,
        r.segments == segments,
        r.content_key == content_key,
        r.infos == infos,
        r.format_id == reported_format(*file_url, asked_format),
        r.sampling_rate == file_url.sampling_rate,
        r.bit_depth == reported_depth(*file_url),
        r.n_segments == file_url.n_segments,
{
    CmafRawBundle {
        init_bytes,
        segments,
        content_key,
        infos,
        format_id: match file_url.format_id {
            Some(id) => id,
            None => asked_format,
        },
        sampling_rate: file_url.sampling_rate,
        bit_depth: if file_url.bits_depth.is_some() {
            file_url.bits_depth
        } else {
            file_url.bit_depth
        },
        n_segments: file_url.n_segments,
    }
}

/// The decrypted bytes that a table's segments hold together.
pub open spec fn table_bytes(table: Seq<SegmentTableEntry>) -> nat
    decreases table.len(),
{
    if table.len() == 0 {
        0
    } else {
        table_bytes(table.drop_last()) + table.last().byte_len as nat
    }
}

proof fn lemma_table_bytes_grow(table: Seq<SegmentTableEntry>, n: int)
    requires
        0 <= n <= table.len(),
    ensures
        table_bytes(table.take(n)) <= table_bytes(table),
    decreases table.len() - n,
{
    if n < table.len() {
        assert(table.take(n + 1).drop_last() =~= table.take(n));
        lemma_table_bytes_grow(table, n + 1);
    } else {
        assert(table.take(n) =~= table);
    }
}

/// The exact size of the decrypted track, known before any audio is fetched.
pub fn track_size(flac_header: &Vec<u8>, segment_table: &Vec<SegmentTableEntry>) -> (r: usize)
    requires
        flac_header@.len() + table_bytes(segment_table@) <= usize::MAX,
    ensures
        r == flac_header@.len() + table_bytes(segment_table@),
{
    let mut total: usize = flac_header.len();
    let mut i: usize = 0;
    assert(segment_table@.take(0) =~= Seq::<SegmentTableEntry>::empty());
    while i < segment_table.len()
        invariant
            i <= segment_table@.len(),
            flac_header@.len() + table_bytes(segment_table@) <= usize::MAX,
            total == flac_header@.len() + table_bytes(segment_table@.take(i as int)),
        decreases segment_table@.len() - i,
    {
        proof {
            assert(segment_table@.take(i + 1).drop_last() =~= segment_table@.take(i as int));
            lemma_table_bytes_grow(segment_table@, i + 1);
        }
        total = total + segment_table[i].byte_len as usize;
        i = i + 1;
    }
    assert(segment_table@.take(segment_table@.len() as int) =~= segment_table@);
    total
}

// Frames and segments.

/// Where frame `i` starts, in the data of a segment.
pub open spec fn frame_start(crypto: SegmentCrypto, i: int) -> int
    decreases i,
{
    if i <= 0 {
        crypto.data_offset as int
    } else {
        frame_start(crypto, i - 1) + crypto.entries@[i - 1].size
    }
}

/// `out` is what the cipher makes of `raw` under `key` and `iv`.
pub open spec fn deciphers<F: Fn([u8; 16], Vec<u8>, Vec<u8>) -> Vec<u8>>(
    cipher: F,
    key: [u8; 16],
    iv: Seq<u8>,
    raw: Seq<u8>,
    out: Seq<u8>,
) -> bool {
    exists|i: Vec<u8>, d: Vec<u8>, o: Vec<u8>|
        #![trigger call_ensures(cipher, (key, i, d), o)]
        i@ == iv && d@ == raw && o@ == out && call_ensures(cipher, (key, i, d), o)
}

/// `frame` is what becomes of entry `i`: the stored bytes, deciphered unless
/// they are in the clear.
pub open spec fn is_frame<F: Fn([u8; 16], Vec<u8>, Vec<u8>) -> Vec<u8>>(
    cipher: F,
    key: [u8; 16],
    data: Seq<u8>,
    crypto: SegmentCrypto,
    i: int,
    frame: Seq<u8>,
) -> bool {
    let raw = data.subrange(frame_start(crypto, i), frame_start(crypto, i + 1));
    if crypto.entries@[i].flags == 0 {
        frame == raw
    } else {
        deciphers(cipher, key, crypto.entries@[i].iv@, raw, frame)
    }
}

/// All of `parts`, one behind the other.
pub open spec fn joined(parts: Seq<Seq<u8>>) -> Seq<u8>
    decreases parts.len(),
{
    if parts.len() == 0 {
        Seq::empty()
    } else {
        joined(parts.drop_last()) + parts.last()
    }
}

/// Audio stored behind the last frame.
pub open spec fn audio_tail(data: Seq<u8>, crypto: SegmentCrypto) -> Seq<u8> {
    let from = frame_start(crypto, crypto.entries@.len() as int);
    if from < crypto.mdat_end && crypto.mdat_end <= data.len() {
        data.subrange(from, crypto.mdat_end as int)
    } else {
        Seq::empty()
    }
}

/// `frames` are the first frames of the segment.
pub open spec fn are_frames<F: Fn([u8; 16], Vec<u8>, Vec<u8>) -> Vec<u8>>(
    cipher: F,
    key: [u8; 16],
    data: Seq<u8>,
    crypto: SegmentCrypto,
    frames: Seq<Seq<u8>>,
) -> bool {
    &&& frames.len() <= crypto.entries@.len()
    &&& frame_start(crypto, frames.len() as int) <= data.len() || frames.len() == 0
    &&& forall|i: int|
        0 <= i < frames.len() ==> is_frame(cipher, key, data, crypto, i, #[trigger] frames[i])
}

/// `audio` is the whole audio of the segment `data`.
pub open spec fn is_audio<F: Fn([u8; 16], Vec<u8>, Vec<u8>) -> Vec<u8>>(
    cipher: F,
    key: [u8; 16],
    data: Seq<u8>,
    audio: Seq<u8>,
) -> bool {
    exists|crypto: SegmentCrypto, frames: Seq<Seq<u8>>|
        {
            &&& #[trigger] crate::cmaf_segment::is_segment(data, crypto)
            &&& #[trigger] are_frames(cipher, key, data, crypto, frames)
            &&& frames.len() == crypto.entries@.len()
            &&& audio == joined(frames) + audio_tail(data, crypto)
        }
}

/// The audio of the segment `data`, where it has one.
pub open spec fn segment_audio<F: Fn([u8; 16], Vec<u8>, Vec<u8>) -> Vec<u8>>(
    cipher: F,
    key: [u8; 16],
    data: Seq<u8>,
) -> Seq<u8> {
    choose|audio: Seq<u8>| is_audio(cipher, key, data, audio)
}

/// The audio of the segments, one behind the other.
pub open spec fn batch_audio<F: Fn([u8; 16], Vec<u8>, Vec<u8>) -> Vec<u8>>(
    cipher: F,
    key: [u8; 16],
    segments: Seq<Vec<u8>>,
) -> Seq<u8>
    decreases segments.len(),
{
    if segments.len() == 0 {
        Seq::empty()
    } else {
        batch_audio(cipher, key, segments.drop_last()) + segment_audio(
            cipher,
            key,
            segments.last()@,
        )
    }
}

/// Every frame of the table lies within the segment.
pub open spec fn frames_fit(data: Seq<u8>, crypto: SegmentCrypto) -> bool {
    crypto.entries@.len() == 0 || frame_start(crypto, crypto.entries@.len() as int) <= data.len()
}

/// `data` is a segment whose frames all lie within it.
pub open spec fn is_whole_segment(data: Seq<u8>) -> bool {
    exists|crypto: SegmentCrypto|
        #[trigger] crate::cmaf_segment::is_segment(data, crypto) && frames_fit(data, crypto)
}

/// The cipher is one: it takes any frame, hands back as many bytes, and makes the
/// same of the same bytes.
pub open spec fn is_cipher<F: Fn([u8; 16], Vec<u8>, Vec<u8>) -> Vec<u8>>(cipher: F) -> bool {
    keeps_length(cipher) && is_deterministic(cipher)
}

/// The cipher can be given any frame, and hands back as many bytes.
pub open spec fn keeps_length<F: Fn([u8; 16], Vec<u8>, Vec<u8>) -> Vec<u8>>(cipher: F) -> bool {
    &&& forall|key: [u8; 16], iv: Vec<u8>, data: Vec<u8>| #[trigger]
        call_requires(cipher, (key, iv, data))
    &&& forall|key: [u8; 16], iv: Vec<u8>, data: Vec<u8>, out: Vec<u8>| #[trigger]
        call_ensures(cipher, (key, iv, data), out) ==> out@.len() == data@.len()
}

/// The cipher is a function: it makes the same of the same bytes.
pub open spec fn is_deterministic<F: Fn([u8; 16], Vec<u8>, Vec<u8>) -> Vec<u8>>(cipher: F) -> bool {
    forall|key: [u8; 16], iv: Seq<u8>, raw: Seq<u8>, a: Seq<u8>, b: Seq<u8>|
        #![trigger deciphers(cipher, key, iv, raw, a), deciphers(cipher, key, iv, raw, b)]
        deciphers(cipher, key, iv, raw, a) && deciphers(cipher, key, iv, raw, b) ==> a == b
}

pub(crate) proof fn lemma_frame_start_order(crypto: SegmentCrypto, i: int, j: int)
    requires
        0 <= i <= j <= crypto.entries@.len(),
    ensures
        frame_start(crypto, i) <= frame_start(crypto, j),
        crypto.data_offset <= frame_start(crypto, i),
    decreases j,
{
    if i < j {
        lemma_frame_start_order(crypto, i, j - 1);
    } else if i > 0 {
        lemma_frame_start_order(crypto, i - 1, i - 1);
    }
}

/// Two frame tables of one segment hold the same.
pub(crate) proof fn lemma_one_table(data: Seq<u8>, a: SegmentCrypto, b: SegmentCrypto, n: int)
    requires
        crate::cmaf_segment::is_segment(data, a),
        crate::cmaf_segment::is_segment(data, b),
        0 <= n <= a.entries@.len(),
    ensures
        a.entries@.len() == b.entries@.len(),
        a.mdat_end == b.mdat_end,
        frame_start(a, n) == frame_start(b, n),
        forall|i: int|
            0 <= i < n ==> (#[trigger] a.entries@[i]).flags == b.entries@[i].flags
                && a.entries@[i].iv@ == b.entries@[i].iv@,
    decreases n,
{
    if n > 0 {
        lemma_one_table(data, a, b, n - 1);
        let table = crate::cmaf_segment::find_box(
            data,
            0,
            crate::cmaf_segment::BoxKind::FrameTable,
        )->0;
        assert(crate::cmaf_segment::is_entry(data, table, n - 1, a.entries@[n - 1]));
        assert(crate::cmaf_segment::is_entry(data, table, n - 1, b.entries@[n - 1]));
    }
}

/// What a segment's message for a table error says.
pub open spec fn table_error_text(why: SegmentError) -> Seq<char> {
    match why {
        SegmentError::NoFrameTable => "no frame table"@,
        SegmentError::NoAudio => "no audio box"@,
        SegmentError::Truncated => "truncated frame table"@,
    }
}

fn describe_table_error(why: SegmentError) -> (r: &'static str)
    ensures
        r@ == table_error_text(why),
{
    match why {
        SegmentError::NoFrameTable => "no frame table",
        SegmentError::NoAudio => "no audio box",
        SegmentError::Truncated => "truncated frame table",
    }
}

fn segment_message(seg_number: usize, what: &str) -> (r: String)
    ensures
        r@ == segment_failure(seg_number as nat, what@),
{
    let mut message = String::from_str("CMAF seg ");
    append_decimal(&mut message, seg_number as u64);
    message.append(what);
    message
}

/// The message for what happened to a segment.
pub open spec fn segment_failure(seg_number: nat, what: Seq<char>) -> Seq<char> {
    "CMAF seg "@ + crate::text::decimal(seg_number) + what
}

/// What becomes of decrypting `data` as segment `seg_number`: its whole audio
/// is appended; or nothing, where it has no frame table; or the frames before
/// the first one that reaches past its end.
pub open spec fn segment_outcome<F: Fn([u8; 16], Vec<u8>, Vec<u8>) -> Vec<u8>>(
    cipher: F,
    key: [u8; 16],
    data: Seq<u8>,
    seg_number: nat,
    before: Seq<u8>,
    after: Seq<u8>,
    result: Result<(), String>,
) -> bool {
    match result {
        Ok(_) => {
            &&& is_whole_segment(data)
            &&& exists|audio: Seq<u8>|
                #[trigger] is_audio(cipher, key, data, audio) && after == before + audio
        },
        Err(message) => match crate::cmaf_segment::segment_error(data) {
            Some(why) => {
                &&& after == before
                &&& message@ == segment_failure(seg_number, " parse: "@ + table_error_text(why))
            },
            None => {
                &&& message@ == segment_failure(seg_number, " frame overflow"@)
                &&& exists|crypto: SegmentCrypto, frames: Seq<Seq<u8>>|
                    {
                        &&& #[trigger] crate::cmaf_segment::is_segment(data, crypto)
                        &&& #[trigger] are_frames(cipher, key, data, crypto, frames)
                        &&& !frames_fit(data, crypto)
                        &&& frame_start(crypto, frames.len() as int + 1) > data.len()
                        &&& after == before + joined(frames)
                    }
            },
        },
    }
}

/// Decrypt one segment and append its audio to `output`.
pub fn decrypt_segment_into<F: Fn([u8; 16], Vec<u8>, Vec<u8>) -> Vec<u8>>(
    seg_data: &[u8],
    seg_number: usize,
    content_key: [u8; 16],
    output: &mut Vec<u8>,
    cipher: &F,
) -> (r: Result<(), String>)
    requires
        is_cipher(*cipher),
    ensures
        r is Ok <==> is_whole_segment(seg_data@),
        r is Ok ==> final(output)@ == old(output)@ + segment_audio(
            *cipher,
            content_key,
            seg_data@,
        ),
        segment_outcome(
            *cipher,
            content_key,
            seg_data@,
            seg_number as nat,
            old(output)@,
            final(output)@,
            r,
        ),
{
    let crypto = match parse_segment_crypto(seg_data) {
        Ok(crypto) => crypto,
        Err(why) => {
            let mut message = segment_message(seg_number, " parse: ");
            message.append(describe_table_error(why));
            assert(message@ =~= segment_failure(
                seg_number as nat,
                " parse: "@ + table_error_text(why),
            ));
            let r = Err(message);
            proof {
                lemma_failed_is_not_whole(
                    *cipher,
                    content_key,
                    seg_data@,
                    seg_number as nat,
                    output@,
                    output@,
                    r,
                );
            }
            return r;
        },
    };
    let ghost before = output@;
    let ghost data = seg_data@;
    let ghost mut frames: Seq<Seq<u8>> = Seq::empty();
    let len: usize = seg_data.len();
    let n: usize = crypto.entries.len();
    let mut pos: u128 = crypto.data_offset;
    let mut i: usize = 0;
    assert(before + joined(frames) =~= before);
    while i < n
        invariant
            is_cipher(*cipher),
            i <= n,
            n == crypto.entries@.len(),
            len == data.len(),
            data == seg_data@,
            crate::cmaf_segment::is_segment(data, crypto),
            crate::cmaf_segment::segment_error(data) is None,
            pos == frame_start(crypto, i as int),
            i > 0 ==> pos <= len,
            i == 0 ==> pos == crypto.data_offset,
            crypto.data_offset <= len + u32::MAX,
            frames.len() == i,
            are_frames(*cipher, content_key, data, crypto, frames),
            before == old(output)@,
            output@ == before + joined(frames),
        decreases n - i,
    {
        let size: u32 = crypto.entries[i].size;
        let frame_end: u128 = pos + size as u128;
        assert(frame_end == frame_start(crypto, i + 1));
        if frame_end > len as u128 {
            proof {
                lemma_frame_start_order(crypto, i + 1, n as int);
                assert(!frames_fit(data, crypto));
                assert(frame_start(crypto, frames.len() as int + 1) > data.len());
            }
            let r = Err(segment_message(seg_number, " frame overflow"));
            proof {
                lemma_failed_is_not_whole(
                    *cipher,
                    content_key,
                    data,
                    seg_number as nat,
                    before,
                    output@,
                    r,
                );
            }
            return r;
        }
        let from: usize = pos as usize;
        let to: usize = frame_end as usize;
        let mut raw: Vec<u8> = Vec::new();
        raw.extend_from_slice(&seg_data[from..to]);
        assert(raw@ =~= data.subrange(from as int, to as int));
        let ghost mut frame: Seq<u8> = raw@;
        if crypto.entries[i].flags != 0 {
            let mut iv: Vec<u8> = Vec::new();
            iv.extend_from_slice(&crypto.entries[i].iv);
            assert(iv@ =~= crypto.entries@[i as int].iv@);
            let mut out: Vec<u8> = cipher(content_key, iv, raw);
            proof {
                frame = out@;
                assert(deciphers(
                    *cipher,
                    content_key,
                    crypto.entries@[i as int].iv@,
                    data.subrange(from as int, to as int),
                    frame,
                ));
            }
            output.append(&mut out);
        } else {
            output.append(&mut raw);
        }
        proof {
            let more = frames.push(frame);
            assert(is_frame(*cipher, content_key, data, crypto, i as int, frame));
            assert forall|k: int| 0 <= k < more.len() implies is_frame(
                *cipher,
                content_key,
                data,
                crypto,
                k,
                #[trigger] more[k],
            ) by {
                if k < i {
                    assert(more[k] == frames[k]);
                }
            }
            assert(more.drop_last() =~= frames);
            assert(before + joined(frames) + frame =~= before + joined(more));
            frames = more;
        }
        pos = frame_end;
        i = i + 1;
    }
    proof {
        assert(frames_fit(data, crypto));
        assert(is_whole_segment(data));
    }
    let ghost tail = audio_tail(data, crypto);
    if pos < crypto.mdat_end as u128 && crypto.mdat_end <= len {
        let from: usize = pos as usize;
        output.extend_from_slice(&seg_data[from..crypto.mdat_end]);
        assert(output@ =~= before + joined(frames) + tail);
    }
    proof {
        let audio = joined(frames) + tail;
        assert(is_audio(*cipher, content_key, data, audio));
        assert(output@ =~= before + audio);
        law_a_segment_has_one_audio(
            *cipher,
            content_key,
            data,
            audio,
            segment_audio(*cipher, content_key, data),
        );
    }
    Ok(())
}

/// Segment `k` is the first that cannot be decrypted.
pub open spec fn fails_first(segments: Seq<Vec<u8>>, k: int) -> bool {
    &&& 0 <= k < segments.len()
    &&& !is_whole_segment(segments[k]@)
    &&& forall|j: int| 0 <= j < k ==> is_whole_segment((#[trigger] segments[j])@)
}

/// What becomes of decrypting `segments` in order: the audio of all of them is
/// appended; or that of those before the first one that fails, and what becomes
/// of this one, counted from 1.
pub open spec fn batch_outcome<F: Fn([u8; 16], Vec<u8>, Vec<u8>) -> Vec<u8>>(
    cipher: F,
    key: [u8; 16],
    segments: Seq<Vec<u8>>,
    before: Seq<u8>,
    after: Seq<u8>,
    result: Result<(), String>,
) -> bool {
    match result {
        Ok(_) => {
            &&& forall|i: int|
                0 <= i < segments.len() ==> is_whole_segment((#[trigger] segments[i])@)
            &&& after == before + batch_audio(cipher, key, segments)
        },
        Err(_) => exists|k: int|
            {
                &&& #[trigger] fails_first(segments, k)
                &&& segment_outcome(
                    cipher,
                    key,
                    segments[k]@,
                    (k + 1) as nat,
                    before + batch_audio(cipher, key, segments.take(k)),
                    after,
                    result,
                )
            },
    }
}

/// Decrypt segments in order and append their audio to `output`. The first that
/// fails ends it; segments count from 1 in messages.
pub fn decrypt_segments_into<F: Fn([u8; 16], Vec<u8>, Vec<u8>) -> Vec<u8>>(
    segments: &[Vec<u8>],
    content_key: [u8; 16],
    output: &mut Vec<u8>,
    cipher: &F,
) -> (r: Result<(), String>)
    requires
        is_cipher(*cipher),
    ensures
        batch_outcome(
            *cipher,
            content_key,
            segments@,
            old(output)@,
            final(output)@,
            r,
        ),
{
    let ghost before = output@;
    let n: usize = segments.len();
    let mut i: usize = 0;
    proof {
        assert(segments@.take(0) =~= Seq::<Vec<u8>>::empty());
        assert(before + batch_audio(*cipher, content_key, segments@.take(0)) =~= before);
    }
    while i < n
        invariant
            is_cipher(*cipher),
            i <= n,
            n == segments@.len(),
            before == old(output)@,
            output@ == before + batch_audio(*cipher, content_key, segments@.take(i as int)),
            forall|k: int| 0 <= k < i ==> is_whole_segment((#[trigger] segments@[k])@),
        decreases n - i,
    {
        let ghost done = segments@.take(i as int);
        let result = decrypt_segment_into(&segments[i], i + 1, content_key, output, cipher);
        if result.is_err() {
            assert(fails_first(segments@, i as int));
            return result;
        }
        proof {
            let more = segments@.take(i + 1);
            assert(more.drop_last() =~= done);
            assert(output@ =~= before + batch_audio(*cipher, content_key, more));
        }
        i = i + 1;
    }
    assert(segments@.take(n as int) =~= segments@);
    Ok(())
}

pub(crate) proof fn lemma_failed_is_not_whole<F: Fn([u8; 16], Vec<u8>, Vec<u8>) -> Vec<u8>>(
    cipher: F,
    key: [u8; 16],
    data: Seq<u8>,
    seg_number: nat,
    before: Seq<u8>,
    after: Seq<u8>,
    result: Result<(), String>,
)
    requires
        result is Err,
        segment_outcome(cipher, key, data, seg_number, before, after, result),
    ensures
        !is_whole_segment(data),
{
    if is_whole_segment(data) {
        let whole = choose|crypto: SegmentCrypto|
            #[trigger] crate::cmaf_segment::is_segment(data, crypto) && frames_fit(data, crypto);
        assert(crate::cmaf_segment::segment_error(data) is None);
        let (crypto, frames) = choose|crypto: SegmentCrypto, frames: Seq<Seq<u8>>|
            {
                &&& #[trigger] crate::cmaf_segment::is_segment(data, crypto)
                &&& #[trigger] are_frames(cipher, key, data, crypto, frames)
                &&& !frames_fit(data, crypto)
                &&& frame_start(crypto, frames.len() as int + 1) > data.len()
                &&& after == before + joined(frames)
            };
        lemma_one_table(data, crypto, whole, crypto.entries@.len() as int);
    }
}

proof fn lemma_same_frames<F: Fn([u8; 16], Vec<u8>, Vec<u8>) -> Vec<u8>>(
    cipher: F,
    key: [u8; 16],
    data: Seq<u8>,
    ca: SegmentCrypto,
    a: Seq<Seq<u8>>,
    cb: SegmentCrypto,
    b: Seq<Seq<u8>>,
)
    requires
        is_deterministic(cipher),
        crate::cmaf_segment::is_segment(data, ca),
        crate::cmaf_segment::is_segment(data, cb),
        are_frames(cipher, key, data, ca, a),
        are_frames(cipher, key, data, cb, b),
        a.len() == b.len(),
    ensures
        a == b,
{
    assert forall|i: int| 0 <= i < a.len() implies a[i] == b[i] by {
        lemma_one_table(data, ca, cb, i);
        lemma_one_table(data, ca, cb, i + 1);
        assert(is_frame(cipher, key, data, ca, i, a[i]));
        assert(is_frame(cipher, key, data, cb, i, b[i]));
    }
    assert(a =~= b);
}

/// A segment has one audio, however often it is decrypted.
pub proof fn law_a_segment_has_one_audio<F: Fn([u8; 16], Vec<u8>, Vec<u8>) -> Vec<u8>>(
    cipher: F,
    key: [u8; 16],
    data: Seq<u8>,
    a: Seq<u8>,
    b: Seq<u8>,
)
    requires
        is_deterministic(cipher),
        is_audio(cipher, key, data, a),
        is_audio(cipher, key, data, b),
    ensures
        a == b,
{
    let (ca, fa) = choose|crypto: SegmentCrypto, frames: Seq<Seq<u8>>|
        {
            &&& #[trigger] crate::cmaf_segment::is_segment(data, crypto)
            &&& #[trigger] are_frames(cipher, key, data, crypto, frames)
            &&& frames.len() == crypto.entries@.len()
            &&& a == joined(frames) + audio_tail(data, crypto)
        };
    let (cb, fb) = choose|crypto: SegmentCrypto, frames: Seq<Seq<u8>>|
        {
            &&& #[trigger] crate::cmaf_segment::is_segment(data, crypto)
            &&& #[trigger] are_frames(cipher, key, data, crypto, frames)
            &&& frames.len() == crypto.entries@.len()
            &&& b == joined(frames) + audio_tail(data, crypto)
        };
    lemma_one_table(data, ca, cb, ca.entries@.len() as int);
    lemma_same_frames(cipher, key, data, ca, fa, cb, fb);
}

/// What a segment that fails leaves behind does not depend on where it goes, nor
/// does its message on more than its number.
proof fn lemma_one_failure<F: Fn([u8; 16], Vec<u8>, Vec<u8>) -> Vec<u8>>(
    cipher: F,
    key: [u8; 16],
    data: Seq<u8>,
    seg_number: nat,
    before: Seq<u8>,
    after: Seq<u8>,
    result: Result<(), String>,
    alone: Seq<u8>,
    alone_result: Result<(), String>,
)
    requires
        is_deterministic(cipher),
        result is Err,
        alone_result is Err,
        segment_outcome(cipher, key, data, seg_number, before, after, result),
        segment_outcome(cipher, key, data, seg_number, Seq::empty(), alone, alone_result),
    ensures
        after == before + alone,
        result->Err_0@ == alone_result->Err_0@,
{
    if crate::cmaf_segment::segment_error(data) is None {
        let (ca, fa) = choose|crypto: SegmentCrypto, frames: Seq<Seq<u8>>|
            {
                &&& #[trigger] crate::cmaf_segment::is_segment(data, crypto)
                &&& #[trigger] are_frames(cipher, key, data, crypto, frames)
                &&& !frames_fit(data, crypto)
                &&& frame_start(crypto, frames.len() as int + 1) > data.len()
                &&& after == before + joined(frames)
            };
        let (cb, fb) = choose|crypto: SegmentCrypto, frames: Seq<Seq<u8>>|
            {
                &&& #[trigger] crate::cmaf_segment::is_segment(data, crypto)
                &&& #[trigger] are_frames(cipher, key, data, crypto, frames)
                &&& !frames_fit(data, crypto)
                &&& frame_start(crypto, frames.len() as int + 1) > data.len()
                &&& alone == Seq::empty() + joined(frames)
            };
        if fa.len() < fb.len() {
            lemma_one_table(data, ca, cb, fa.len() as int + 1);
            lemma_frame_start_order(cb, fa.len() as int + 1, fb.len() as int);
        } else if fb.len() < fa.len() {
            lemma_one_table(data, cb, ca, fb.len() as int + 1);
            lemma_frame_start_order(ca, fb.len() as int + 1, fa.len() as int);
        }
        lemma_same_frames(cipher, key, data, ca, fa, cb, fb);
        assert(Seq::<u8>::empty() + joined(fb) =~= joined(fb));
    } else {
        assert(before + alone =~= before);
    }
}

proof fn lemma_batch_is_joined<F: Fn([u8; 16], Vec<u8>, Vec<u8>) -> Vec<u8>>(
    cipher: F,
    key: [u8; 16],
    segments: Seq<Vec<u8>>,
    alone: Seq<Seq<u8>>,
)
    requires
        alone.len() == segments.len(),
        forall|i: int|
            0 <= i < segments.len() ==> #[trigger] alone[i] == segment_audio(
                cipher,
                key,
                segments[i]@,
            ),
    ensures
        batch_audio(cipher, key, segments) == joined(alone),
    decreases segments.len(),
{
    if segments.len() > 0 {
        lemma_batch_is_joined(cipher, key, segments.drop_last(), alone.drop_last());
        assert(alone[alone.len() - 1] == segment_audio(cipher, key, segments.last()@));
    }
}

/// Decrypting a batch gives byte for byte what decrypting its segments one at a
/// time gives, each to a buffer of its own: it succeeds where every one of them
/// does, and then appends what they give, in order. Otherwise it fails as the first
/// of them that fails does, numbered from 1, behind what those before it give; what
/// was there before stays in front.
pub proof fn law_one_at_a_time_matches_the_batch<
    F: Fn([u8; 16], Vec<u8>, Vec<u8>) -> Vec<u8>,
>(
    cipher: F,
    key: [u8; 16],
    segments: Seq<Vec<u8>>,
    before: Seq<u8>,
    after: Seq<u8>,
    result: Result<(), String>,
    alone: Seq<Seq<u8>>,
    results: Seq<Result<(), String>>,
)
    requires
        is_cipher(cipher),
        batch_outcome(cipher, key, segments, before, after, result),
        alone.len() == segments.len(),
        results.len() == segments.len(),
        forall|i: int|
            0 <= i < segments.len() ==> segment_outcome(
                cipher,
                key,
                (#[trigger] segments[i])@,
                (i + 1) as nat,
                Seq::empty(),
                alone[i],
                results[i],
            ),
    ensures
        result is Ok <==> forall|i: int| 0 <= i < results.len() ==> #[trigger] results[i] is Ok,
        result is Ok ==> after == before + joined(alone),
        result matches Err(message) ==> exists|k: int|
            {
                &&& 0 <= k < results.len()
                &&& (#[trigger] results[k]) is Err
                &&& forall|j: int| 0 <= j < k ==> #[trigger] results[j] is Ok
                &&& message@ == results[k]->Err_0@
                &&& after == before + joined(alone.take(k + 1))
            },
        after.len() >= before.len(),
        after.take(before.len() as int) == before,
{
    assert forall|i: int| 0 <= i < segments.len() implies (#[trigger] results[i] is Ok
        <==> is_whole_segment(segments[i]@)) && (results[i] is Ok ==> alone[i] == segment_audio(
        cipher,
        key,
        segments[i]@,
    )) by {
        let data = segments[i]@;
        assert(segment_outcome(
            cipher,
            key,
            data,
            (i + 1) as nat,
            Seq::empty(),
            alone[i],
            results[i],
        ));
        if results[i] is Ok {
            let audio = choose|audio: Seq<u8>|
                #[trigger] is_audio(cipher, key, data, audio) && alone[i] == Seq::empty() + audio;
            assert(Seq::<u8>::empty() + audio =~= audio);
            law_a_segment_has_one_audio(
                cipher,
                key,
                data,
                audio,
                segment_audio(cipher, key, data),
            );
        } else {
            lemma_failed_is_not_whole(
                cipher,
                key,
                data,
                (i + 1) as nat,
                Seq::empty(),
                alone[i],
                results[i],
            );
        }
    }
    if result is Ok {
        assert forall|i: int| 0 <= i < results.len() implies #[trigger] results[i] is Ok by {
            assert(is_whole_segment(segments[i]@));
        }
        lemma_batch_is_joined(cipher, key, segments, alone);
        assert(after.take(before.len() as int) =~= before);
    } else {
        let k = choose|k: int|
            {
                &&& #[trigger] fails_first(segments, k)
                &&& segment_outcome(
                    cipher,
                    key,
                    segments[k]@,
                    (k + 1) as nat,
                    before + batch_audio(cipher, key, segments.take(k)),
                    after,
                    result,
                )
            };
        assert(results[k] is Err);
        assert forall|j: int| 0 <= j < k implies #[trigger] results[j] is Ok by {
            assert(is_whole_segment(segments[j]@));
        }
        lemma_batch_is_joined(cipher, key, segments.take(k), alone.take(k));
        let middle = before + batch_audio(cipher, key, segments.take(k));
        lemma_one_failure(
            cipher,
            key,
            segments[k]@,
            (k + 1) as nat,
            middle,
            after,
            result,
            alone[k],
            results[k],
        );
        assert(alone.take(k + 1).drop_last() =~= alone.take(k));
        assert(after =~= before + joined(alone.take(k + 1)));
        assert(after.take(before.len() as int) =~= before);
    }
}

} // verus!
