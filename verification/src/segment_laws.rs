//! What holds of segments and their download, call by call.

use vstd::prelude::*;
use vstd::string::*;

use crate::cmaf::{
    decrypt_segment_into, decrypt_segments_into, progress_tick, raw_bundle, segment_url,
    stream_source, streaming_info, track_size, CmafProgressUpdate, CmafRawBundle,
    CmafStreamingInfo, FileUrl, InitInfo, SegmentTableEntry,
};
use crate::cmaf_download::{
    finish_disk_download, is_transient_status, order_segments, ArrivedSegment, FetchAttempt,
    FetchFailure, FetchRun, FetchStep, FileRange, SegmentOrder, WritePacer,
};
use crate::cmaf_segment::{parse_segment_crypto, BoxKind, SegmentCrypto, SegmentError};
use crate::text::{append_decimal, replace_all};

verus! {

/// The number in four bytes, the first of them the highest.
pub open spec fn word(data: Seq<u8>, at: int) -> int {
    data[at] * 16777216 + data[at + 1] * 65536 + data[at + 2] * 256 + data[at + 3]
}

/// Where the box at `n` starts: the first at byte 0, each other where the one before it
/// ends.
pub open spec fn box_start(data: Seq<u8>, n: nat) -> int
    decreases n,
{
    if n == 0 {
        0
    } else {
        let before = box_start(data, (n - 1) as nat);
        before + word(data, before)
    }
}

/// There is a whole box at `n`: its head and its length fit.
pub open spec fn is_whole_box(data: Seq<u8>, n: nat) -> bool {
    let at = box_start(data, n);
    at + 8 <= data.len() && word(data, at) >= 8 && at + word(data, at) <= data.len()
}

/// The box at `n` is the frame table: a `uuid` box with the id of one.
pub open spec fn is_table_box(data: Seq<u8>, n: nat) -> bool {
    let at = box_start(data, n);
    &&& word(data, at) >= 24
    &&& data[at + 4] == 'u' as u8 && data[at + 5] == 'u' as u8 && data[at + 6] == 'i' as u8
        && data[at + 7] == 'd' as u8
    &&& word(data, at + 8) == 0x3b421292 && word(data, at + 12) == 0x56f35f75 && word(
        data,
        at + 16,
    ) == 0x923663b6 && word(data, at + 20) == 0x9a1f52b2
}

/// The box at `n` is the audio: an `mdat` box.
pub open spec fn is_audio_box(data: Seq<u8>, n: nat) -> bool {
    let at = box_start(data, n);
    data[at + 4] == 'm' as u8 && data[at + 5] == 'd' as u8 && data[at + 6] == 'a' as u8 && data[at
        + 7] == 't' as u8
}

/// The box at `n` is the first frame table.
pub open spec fn is_the_table(data: Seq<u8>, n: nat) -> bool {
    &&& is_table_box(data, n)
    &&& forall|k: nat| k <= n ==> #[trigger] is_whole_box(data, k)
    &&& forall|k: nat| k < n ==> !(#[trigger] is_table_box(data, k))
}

/// The box at `n` is the first audio.
pub open spec fn is_the_audio(data: Seq<u8>, n: nat) -> bool {
    &&& is_audio_box(data, n)
    &&& forall|k: nat| k <= n ==> #[trigger] is_whole_box(data, k)
    &&& forall|k: nat| k < n ==> !(#[trigger] is_audio_box(data, k))
}

proof fn lemma_word(data: Seq<u8>, at: int)
    ensures
        crate::cmaf_segment::be(data, at, 4) == word(data, at),
        crate::cmaf_segment::be(data, at, 3) == data[at] * 65536 + data[at + 1] * 256 + data[at
            + 2],
        crate::cmaf_segment::be(data, at, 2) == data[at] * 256 + data[at + 1],
{
    reveal_with_fuel(crate::cmaf_segment::be, 5);
}

proof fn lemma_kind(data: Seq<u8>, n: nat)
    requires
        is_whole_box(data, n),
        box_start(data, n) >= 0,
    ensures
        crate::cmaf_segment::is_kind(data, box_start(data, n), BoxKind::FrameTable)
            <==> is_table_box(data, n),
        crate::cmaf_segment::is_kind(data, box_start(data, n), BoxKind::Audio) <==> is_audio_box(
            data,
            n,
        ),
{
    let at = box_start(data, n);
    lemma_word(data, at);
    let tag = data.subrange(at + 4, at + 8);
    let uuid = seq![0x75u8, 0x75, 0x69, 0x64];
    let mdat = seq![0x6du8, 0x64, 0x61, 0x74];
    assert(tag[0] == data[at + 4] && tag[1] == data[at + 5] && tag[2] == data[at + 6] && tag[3]
        == data[at + 7]);
    if data[at + 4] == 0x75 && data[at + 5] == 0x75 && data[at + 6] == 0x69 && data[at + 7]
        == 0x64 {
        assert(tag =~= uuid);
    }
    if data[at + 4] == 0x6d && data[at + 5] == 0x64 && data[at + 6] == 0x61 && data[at + 7]
        == 0x74 {
        assert(tag =~= mdat);
    }
    if tag == uuid {
        assert(uuid[0] == 0x75 && uuid[1] == 0x75 && uuid[2] == 0x69 && uuid[3] == 0x64);
    }
    if tag == mdat {
        assert(mdat[0] == 0x6d && mdat[1] == 0x64 && mdat[2] == 0x61 && mdat[3] == 0x74);
    }
    if word(data, at) >= 24 {
        let id = data.subrange(at + 8, at + 24);
        let want = crate::cmaf_segment::segment_id();
        assert(want.len() == 16);
        assert(forall|k: int| 0 <= k < 16 ==> id[k] == data[at + 8 + k]);
        lemma_id_words(data, at + 8);
        if id == want {
            assert(data[at + 8] == want[0] && data[at + 9] == want[1] && data[at + 10] == want[2]
                && data[at + 11] == want[3]);
            assert(data[at + 12] == want[4] && data[at + 13] == want[5] && data[at + 14] == want[6]
                && data[at + 15] == want[7]);
            assert(data[at + 16] == want[8] && data[at + 17] == want[9] && data[at + 18]
                == want[10] && data[at + 19] == want[11]);
            assert(data[at + 20] == want[12] && data[at + 21] == want[13] && data[at + 22]
                == want[14] && data[at + 23] == want[15]);
        }
        if is_table_box(data, n) {
            assert forall|k: int| 0 <= k < 16 implies id[k] == want[k] by {
                assert(id[k] == data[at + 8 + k]);
            }
            assert(id =~= want);
        }
    }
}

proof fn lemma_id_words(data: Seq<u8>, at: int)
    ensures
        word(data, at) == 0x3b421292 <==> data[at] == 0x3b && data[at + 1] == 0x42 && data[at + 2]
            == 0x12 && data[at + 3] == 0x92,
        word(data, at + 4) == 0x56f35f75 <==> data[at + 4] == 0x56 && data[at + 5] == 0xf3 && data[at
            + 6] == 0x5f && data[at + 7] == 0x75,
        word(data, at + 8) == 0x923663b6 <==> data[at + 8] == 0x92 && data[at + 9] == 0x36 && data[at
            + 10] == 0x63 && data[at + 11] == 0xb6,
        word(data, at + 12) == 0x9a1f52b2 <==> data[at + 12] == 0x9a && data[at + 13] == 0x1f
            && data[at + 14] == 0x52 && data[at + 15] == 0xb2,
{
}

proof fn lemma_find(data: Seq<u8>, n: nat, kind: BoxKind)
    requires
        box_start(data, n) >= 0,
        forall|k: nat| k < n ==> #[trigger] is_whole_box(data, k),
        kind is FrameTable ==> forall|k: nat| k < n ==> !(#[trigger] is_table_box(data, k)),
        kind is Audio ==> forall|k: nat| k < n ==> !(#[trigger] is_audio_box(data, k)),
    ensures
        ({
            let found = crate::cmaf_segment::find_box(data, box_start(data, n), kind);
            &&& kind is FrameTable ==> match found {
                Some(at) => exists|m: nat| #[trigger] is_the_table(data, m) && box_start(data, m) == at,
                None => forall|m: nat| !(#[trigger] is_the_table(data, m)),
            }
            &&& kind is Audio ==> match found {
                Some(at) => exists|m: nat| #[trigger] is_the_audio(data, m) && box_start(data, m) == at,
                None => forall|m: nat| !(#[trigger] is_the_audio(data, m)),
            }
        }),
    decreases data.len() - box_start(data, n),
{
    let at = box_start(data, n);
    lemma_word(data, at);
    if is_whole_box(data, n) {
        lemma_kind(data, n);
        if crate::cmaf_segment::is_kind(data, at, kind) {
            if kind is FrameTable {
                assert(is_the_table(data, n));
            } else {
                assert(is_the_audio(data, n));
            }
        } else {
            assert(box_start(data, n + 1) == at + word(data, at));
            lemma_find(data, n + 1, kind);
        }
    } else {
        assert forall|m: nat| !(#[trigger] is_the_table(data, m)) || !(kind is FrameTable) by {
            if is_the_table(data, m) && kind is FrameTable {
                if m >= n {
                    assert(is_whole_box(data, n));
                } else {
                    assert(!is_table_box(data, m));
                }
            }
        }
        assert forall|m: nat| !(#[trigger] is_the_audio(data, m)) || !(kind is Audio) by {
            if is_the_audio(data, m) && kind is Audio {
                if m >= n {
                    assert(is_whole_box(data, n));
                } else {
                    assert(!is_audio_box(data, m));
                }
            }
        }
    }
}

proof fn lemma_one_first(data: Seq<u8>, a: nat, b: nat)
    ensures
        is_the_table(data, a) && is_the_table(data, b) ==> a == b,
        is_the_audio(data, a) && is_the_audio(data, b) ==> a == b,
{
    if is_the_table(data, a) && is_the_table(data, b) {
        if a < b {
            assert(!is_table_box(data, a));
        } else if b < a {
            assert(!is_table_box(data, b));
        }
    }
    if is_the_audio(data, a) && is_the_audio(data, b) {
        if a < b {
            assert(!is_audio_box(data, a));
        } else if b < a {
            assert(!is_audio_box(data, b));
        }
    }
}

/// The frame table of a segment is read from its first table box, and the end of its
/// audio from its first `mdat` box. The table names where the first frame starts, counted
/// from the table itself, and for each frame its size, its flags and its initial vector.
pub proof fn law_a_frame_table_is_read_from_its_box(
    data: &[u8],
    crypto: SegmentCrypto,
    n: nat,
    m: nat,
    i: int,
    j: int,
)
    requires
        call_ensures(
            parse_segment_crypto,
            (data,),
            Ok::<SegmentCrypto, SegmentError>(crypto),
        ),
        is_the_table(data@, n),
        is_the_audio(data@, m),
        0 <= i < crypto.entries@.len(),
        0 <= j < crypto.entries@[i].iv@.len(),
    ensures
        ({
            let table = box_start(data@, n);
            let audio = box_start(data@, m);
            let at = table + 36 + i * (8 + data@[table + 32]);
            &&& crypto.data_offset == table + word(data@, table + 28)
            &&& crypto.mdat_end == audio + word(data@, audio)
            &&& crypto.entries@.len() == data@[table + 33] * 65536 + data@[table + 34] * 256 + data@[
            table + 35]
            &&& crypto.entries@[i].size == word(data@, at)
            &&& crypto.entries@[i].flags == data@[at + 6] * 256 + data@[at + 7]
            &&& crypto.entries@[i].iv@.len() == data@[table + 32]
            &&& crypto.entries@[i].iv@[j] == data@[at + 8 + j]
        }),
{
    let d = data@;
    lemma_the_boxes(d, n, m);
    lemma_table_bytes(d, box_start(d, n), box_start(d, m), crypto);
    lemma_entry_bytes(d, box_start(d, n), i, crypto, j);
}

proof fn lemma_table_bytes(d: Seq<u8>, table: int, audio: int, crypto: SegmentCrypto)
    requires
        crate::cmaf_segment::is_segment(d, crypto),
        crate::cmaf_segment::find_box(d, 0, BoxKind::FrameTable) == Some(table),
        crate::cmaf_segment::find_box(d, 0, BoxKind::Audio) == Some(audio),
    ensures
        crypto.data_offset == table + word(d, table + 28),
        crypto.mdat_end == audio + word(d, audio),
        crypto.entries@.len() == d[table + 33] * 65536 + d[table + 34] * 256 + d[table + 35],
{
    lemma_word(d, audio);
    lemma_word(d, table + 28);
    lemma_word(d, table + 33);
}

proof fn lemma_the_boxes(d: Seq<u8>, n: nat, m: nat)
    requires
        is_the_table(d, n),
        is_the_audio(d, m),
    ensures
        crate::cmaf_segment::find_box(d, 0, BoxKind::FrameTable) == Some(box_start(d, n)),
        crate::cmaf_segment::find_box(d, 0, BoxKind::Audio) == Some(box_start(d, m)),
        box_start(d, n) >= 0,
{
    lemma_box_fits(d, 0, BoxKind::FrameTable);
    lemma_find(d, 0, BoxKind::FrameTable);
    lemma_find(d, 0, BoxKind::Audio);
    let table = crate::cmaf_segment::find_box(d, 0, BoxKind::FrameTable)->0;
    let audio = crate::cmaf_segment::find_box(d, 0, BoxKind::Audio)->0;
    let tn = choose|k: nat| #[trigger] is_the_table(d, k) && box_start(d, k) == table;
    let am = choose|k: nat| #[trigger] is_the_audio(d, k) && box_start(d, k) == audio;
    lemma_one_first(d, n, tn);
    lemma_one_first(d, m, am);
}

proof fn lemma_entry_bytes(d: Seq<u8>, table: int, i: int, crypto: SegmentCrypto, j: int)
    requires
        crate::cmaf_segment::is_segment(d, crypto),
        crate::cmaf_segment::find_box(d, 0, BoxKind::FrameTable) == Some(table),
        0 <= i < crypto.entries@.len(),
        0 <= j < crypto.entries@[i].iv@.len(),
        table >= 0,
    ensures
        ({
            let at = table + 36 + i * (8 + d[table + 32]);
            &&& crypto.entries@[i].size == word(d, at)
            &&& crypto.entries@[i].flags == d[at + 6] * 256 + d[at + 7]
            &&& crypto.entries@[i].iv@.len() == d[table + 32]
            &&& crypto.entries@[i].iv@[j] == d[at + 8 + j]
        }),
{
    let entry = crypto.entries@[i];
    assert(crate::cmaf_segment::is_entry(d, table, i, entry));
    let at = crate::cmaf_segment::entry_at(d, table, i);
    lemma_word(d, at);
    lemma_word(d, at + 6);
    lemma_entry_fits(d, table, i, crypto.entries@.len() as int);
    lemma_box_fits(d, 0, BoxKind::FrameTable);
    assert(at + 8 + d[table + 32] <= d.len());
    assert(entry.iv@[j] == d.subrange(at + 8, at + 8 + d[table + 32])[j]);
}

proof fn lemma_box_fits(d: Seq<u8>, from: int, kind: BoxKind)
    ensures
        crate::cmaf_segment::find_box(d, from, kind) is Some ==> {
            let at = crate::cmaf_segment::find_box(d, from, kind)->0;
            at >= 0 && crate::cmaf_segment::is_box(d, at)
        },
    decreases d.len() - from,
{
    if from >= 0 && crate::cmaf_segment::is_box(d, from) && !crate::cmaf_segment::is_kind(
        d,
        from,
        kind,
    ) {
        lemma_box_fits(d, from + crate::cmaf_segment::be(d, from, 4), kind);
    }
}

proof fn lemma_entry_fits(d: Seq<u8>, table: int, i: int, count: int)
    requires
        0 <= i < count,
        table >= 0,
    ensures
        crate::cmaf_segment::entry_at(d, table, i) + 8 + crate::cmaf_segment::iv_len(d, table)
            <= crate::cmaf_segment::entry_at(d, table, count),
        crate::cmaf_segment::entry_at(d, table, i) >= table + 36,
{
    let step = 8 + crate::cmaf_segment::iv_len(d, table);
    assert(i * step + step <= count * step && i * step >= 0) by (nonlinear_arith)
        requires
            0 <= i < count,
            step >= 0,
    ;
}

/// A segment without a table box or without an audio box is refused, and says which; so
/// is one whose table does not fit its box. Any other is read.
pub proof fn law_a_segment_without_its_boxes_is_refused(
    data: &[u8],
    r: Result<SegmentCrypto, SegmentError>,
    n: nat,
)
    requires
        call_ensures(parse_segment_crypto, (data,), r),
    ensures
        r == Err::<SegmentCrypto, SegmentError>(SegmentError::NoFrameTable) <==> forall|k: nat|
            !(#[trigger] is_the_table(data@, k)),
        r == Err::<SegmentCrypto, SegmentError>(SegmentError::NoAudio) <==> (exists|k: nat|
            #[trigger] is_the_table(data@, k)) && forall|k: nat|
            !(#[trigger] is_the_audio(data@, k)),
        r is Ok ==> (exists|k: nat| #[trigger] is_the_audio(data@, k)) && exists|k: nat| #[trigger]
            is_the_table(data@, k),
        is_the_table(data@, n) ==> {
            let table = box_start(data@, n);
            let count = data@[table + 33] * 65536 + data@[table + 34] * 256 + data@[table + 35];
            &&& r == Err::<SegmentCrypto, SegmentError>(SegmentError::Truncated) ==> word(
                data@,
                table,
            ) < 36 || 36 + count * (8 + data@[table + 32]) > word(data@, table)
            &&& r is Ok ==> word(data@, table) >= 36 && 36 + count * (8 + data@[table + 32])
                <= word(data@, table)
        },
{
    let d = data@;
    lemma_find(d, 0, BoxKind::FrameTable);
    lemma_find(d, 0, BoxKind::Audio);
    if is_the_table(d, n) {
        let table = crate::cmaf_segment::find_box(d, 0, BoxKind::FrameTable)->0;
        let tn = choose|k: nat| #[trigger] is_the_table(d, k) && box_start(d, k) == table;
        lemma_one_first(d, n, tn);
        lemma_word(d, table);
        lemma_word(d, table + 33);
        assert(is_whole_box(d, n));
    }
}

/// The cipher turns `raw` into `out`, under this key and this initial vector.
pub open spec fn cipher_gives<F: Fn([u8; 16], Vec<u8>, Vec<u8>) -> Vec<u8>>(
    cipher: F,
    key: [u8; 16],
    iv: Seq<u8>,
    raw: Seq<u8>,
    out: Seq<u8>,
) -> bool {
    exists|i: Vec<u8>, d: Vec<u8>, o: Vec<u8>|
        #![trigger call_ensures(cipher, (key, i, d), o)]
        i@ == iv && d@ == raw && o@ == out && call_ensures(cipher, (key, i, d), o)
}

/// The frames lie behind one another, from the data offset on.
pub open spec fn frames_start_at(crypto: SegmentCrypto, starts: Seq<int>) -> bool {
    &&& starts.len() == crypto.entries@.len() + 1
    &&& starts[0] == crypto.data_offset
    &&& forall|i: int|
        0 <= i < crypto.entries@.len() ==> #[trigger] starts[i + 1] == starts[i]
            + crypto.entries@[i].size
}

proof fn lemma_starts(crypto: SegmentCrypto, starts: Seq<int>, i: int)
    requires
        frames_start_at(crypto, starts),
        0 <= i < starts.len(),
    ensures
        crate::cmaf::frame_start(crypto, i) == starts[i],
    decreases i,
{
    if i > 0 {
        lemma_starts(crypto, starts, i - 1);
        assert(starts[(i - 1) + 1] == starts[i - 1] + crypto.entries@[i - 1].size);
    }
}

proof fn lemma_pieces(frames: Seq<Seq<u8>>, starts: Seq<int>, i: int)
    requires
        starts.len() > frames.len(),
        forall|k: int|
            0 <= k < frames.len() ==> (#[trigger] frames[k]).len() == starts[k + 1] - starts[k],
        0 <= i < frames.len(),
    ensures
        crate::cmaf::joined(frames).len() == starts[frames.len() as int] - starts[0],
        0 <= starts[i] - starts[0] <= starts[i + 1] - starts[0] <= crate::cmaf::joined(frames).len(),
        crate::cmaf::joined(frames).subrange(starts[i] - starts[0], starts[i + 1] - starts[0])
            == frames[i],
    decreases frames.len(),
{
    let before = frames.drop_last();
    let n = frames.len() - 1;
    assert forall|k: int| 0 <= k < before.len() implies (#[trigger] before[k]).len() == starts[k
        + 1] - starts[k] by {
        assert(before[k] == frames[k]);
    }
    assert(frames[n].len() == starts[n + 1] - starts[n]);
    let j = crate::cmaf::joined(frames);
    let b = crate::cmaf::joined(before);
    assert(j == b + frames.last());
    if n == 0 {
        assert(b =~= Seq::<u8>::empty());
        assert(j.subrange(0, j.len() as int) =~= frames[0]);
    } else {
        if i < n {
            lemma_pieces(before, starts, i);
            assert(j.subrange(starts[i] - starts[0], starts[i + 1] - starts[0]) =~= b.subrange(
                starts[i] - starts[0],
                starts[i + 1] - starts[0],
            ));
        } else {
            lemma_pieces(before, starts, n - 1);
            assert(j.subrange(starts[n] - starts[0], starts[n + 1] - starts[0]) =~= frames[n]);
        }
    }
}

/// A segment is decrypted frame by frame, behind what is there: a frame in the clear is
/// copied from its place in the segment, any other is what the cipher gives of it under
/// the key and the frame's own initial vector. Behind the frames comes what is left of
/// the audio. It fails where the frames reach out of the segment.
pub proof fn law_a_segment_is_decrypted_frame_by_frame<
    F: Fn([u8; 16], Vec<u8>, Vec<u8>) -> Vec<u8>,
>(
    data: &[u8],
    number: usize,
    key: [u8; 16],
    output: &mut Vec<u8>,
    cipher: &F,
    r: Result<(), String>,
    crypto: SegmentCrypto,
    starts: Seq<int>,
    i: int,
)
    requires
        crate::cmaf::is_cipher(*cipher),
        call_ensures(decrypt_segment_into::<F>, (data, number, key, output, cipher), r),
        call_ensures(
            parse_segment_crypto,
            (data,),
            Ok::<SegmentCrypto, SegmentError>(crypto),
        ),
        frames_start_at(crypto, starts),
        0 <= i < crypto.entries@.len(),
    ensures
        r is Ok <==> starts.last() <= data@.len(),
        r is Ok ==> {
            let base = old(output)@.len() - starts[0];
            let piece = final(output)@.subrange(base + starts[i], base + starts[i + 1]);
            let raw = data@.subrange(starts[i], starts[i + 1]);
            &&& final(output)@.len() >= base + starts.last()
            &&& final(output)@.take(old(output)@.len() as int) == old(output)@
            &&& crypto.entries@[i].flags == 0 ==> piece == raw
            &&& crypto.entries@[i].flags != 0 ==> cipher_gives(
                *cipher,
                key,
                crypto.entries@[i].iv@,
                raw,
                piece,
            )
            &&& starts.last() < crypto.mdat_end <= data@.len() ==> final(output)@.skip(
                base + starts.last(),
            ) == data@.subrange(starts.last(), crypto.mdat_end as int)
            &&& starts.last() >= crypto.mdat_end ==> final(output)@.len() == base + starts.last()
        },
{
    let d = data@;
    let n = crypto.entries@.len() as int;
    lemma_starts(crypto, starts, n);
    if r is Ok {
        let whole = choose|c: SegmentCrypto|
            #[trigger] crate::cmaf_segment::is_segment(d, c) && crate::cmaf::frames_fit(d, c);
        crate::cmaf::lemma_one_table(d, whole, crypto, n);
        let audio = choose|audio: Seq<u8>|
            #[trigger] crate::cmaf::is_audio(*cipher, key, d, audio) && final(output)@
                == old(output)@ + audio;
        let (c, frames) = choose|c: SegmentCrypto, frames: Seq<Seq<u8>>|
            {
                &&& #[trigger] crate::cmaf_segment::is_segment(d, c)
                &&& #[trigger] crate::cmaf::are_frames(*cipher, key, d, c, frames)
                &&& frames.len() == c.entries@.len()
                &&& audio == crate::cmaf::joined(frames) + crate::cmaf::audio_tail(d, c)
            };
        crate::cmaf::lemma_one_table(d, c, crypto, n);
        assert forall|k: int| 0 <= k < frames.len() implies (#[trigger] frames[k]).len() == starts[k
            + 1] - starts[k] by {
            lemma_frame(*cipher, key, d, c, frames, crypto, starts, k);
        }
        lemma_frame(*cipher, key, d, c, frames, crypto, starts, i);
        lemma_pieces(frames, starts, i);
        let base = old(output)@.len() - starts[0];
        let j = crate::cmaf::joined(frames);
        let out = final(output)@;
        assert(out.take(old(output)@.len() as int) =~= old(output)@);
        assert(out.subrange(base + starts[i], base + starts[i + 1]) =~= j.subrange(
            starts[i] - starts[0],
            starts[i + 1] - starts[0],
        ));
        assert(out.skip(base + starts.last()) =~= crate::cmaf::audio_tail(d, c));
    } else {
        if starts.last() <= d.len() {
            assert(crate::cmaf::frames_fit(d, crypto));
            assert(crate::cmaf::is_whole_segment(d));
        }
    }
}

proof fn lemma_frame<F: Fn([u8; 16], Vec<u8>, Vec<u8>) -> Vec<u8>>(
    cipher: F,
    key: [u8; 16],
    d: Seq<u8>,
    c: SegmentCrypto,
    frames: Seq<Seq<u8>>,
    crypto: SegmentCrypto,
    starts: Seq<int>,
    k: int,
)
    requires
        crate::cmaf::is_cipher(cipher),
        crate::cmaf_segment::is_segment(d, c),
        crate::cmaf_segment::is_segment(d, crypto),
        crate::cmaf::are_frames(cipher, key, d, c, frames),
        frames.len() == crypto.entries@.len(),
        frames_start_at(crypto, starts),
        0 <= k < frames.len(),
        starts.last() <= d.len(),
    ensures
        frames[k].len() == starts[k + 1] - starts[k],
        crypto.entries@[k].flags == 0 ==> frames[k] == d.subrange(starts[k], starts[k + 1]),
        crypto.entries@[k].flags != 0 ==> cipher_gives(
            cipher,
            key,
            crypto.entries@[k].iv@,
            d.subrange(starts[k], starts[k + 1]),
            frames[k],
        ),
{
    let n = frames.len() as int;
    lemma_starts(crypto, starts, k);
    lemma_starts(crypto, starts, k + 1);
    lemma_starts(crypto, starts, n);
    crate::cmaf::lemma_frame_start_order(crypto, k + 1, n);
    crate::cmaf::lemma_frame_start_order(crypto, 0, k);
    lemma_starts(crypto, starts, 0);
    crate::cmaf::lemma_one_table(d, c, crypto, k);
    crate::cmaf::lemma_one_table(d, c, crypto, k + 1);
    assert(starts[k + 1] == starts[k] + crypto.entries@[k].size);
    assert(crate::cmaf::is_frame(cipher, key, d, c, k, frames[k]));
    let table = crate::cmaf_segment::find_box(d, 0, BoxKind::FrameTable)->0;
    assert(crate::cmaf_segment::is_entry(d, table, k, c.entries@[k]));
    assert(crate::cmaf_segment::is_entry(d, table, k, crypto.entries@[k]));
    assert(c.entries@[k].iv@ =~= crypto.entries@[k].iv@);
    let raw = d.subrange(starts[k], starts[k + 1]);
    assert(raw.len() == starts[k + 1] - starts[k]);
    if crypto.entries@[k].flags != 0 {
        let (iv, data, out) = choose|iv: Vec<u8>, data: Vec<u8>, out: Vec<u8>|
            #![trigger call_ensures(cipher, (key, iv, data), out)]
            iv@ == c.entries@[k].iv@ && data@ == raw && out@ == frames[k] && call_ensures(
                cipher,
                (key, iv, data),
                out,
            );
        assert(call_ensures(cipher, (key, iv, data), out));
    }
}

/// A batch is its segments one behind the other: one segment more gives what decrypting
/// that segment behind the others gives, and fails where one of them fails.
pub proof fn law_a_batch_is_decrypted_in_order<F: Fn([u8; 16], Vec<u8>, Vec<u8>) -> Vec<u8>>(
    segments: &[Vec<u8>],
    more: &[Vec<u8>],
    last: &[u8],
    number: usize,
    key: [u8; 16],
    output: &mut Vec<u8>,
    single: &mut Vec<u8>,
    whole: &mut Vec<u8>,
    cipher: &F,
    r: Result<(), String>,
    s: Result<(), String>,
    t: Result<(), String>,
)
    requires
        crate::cmaf::is_cipher(*cipher),
        more@.len() == segments@.len() + 1,
        more@.drop_last() == segments@,
        last@ == more@.last()@,
        call_ensures(decrypt_segments_into::<F>, (segments, key, output, cipher), r),
        old(single)@ == final(output)@,
        call_ensures(decrypt_segment_into::<F>, (last, number, key, single, cipher), s),
        old(whole)@ == old(output)@,
        call_ensures(decrypt_segments_into::<F>, (more, key, whole, cipher), t),
    ensures
        segments@.len() == 0 ==> r is Ok && final(output)@ == old(output)@,
        t is Ok <==> r is Ok && s is Ok,
        t is Ok ==> final(whole)@ == final(single)@,
{
    if segments@.len() == 0 {
        if r is Err {
            let k = choose|k: int| #[trigger] crate::cmaf::fails_first(segments@, k);
        }
        assert(final(output)@ =~= old(output)@);
    }
    if r is Err {
        let k = choose|k: int| #[trigger] crate::cmaf::fails_first(segments@, k);
        assert(more@[k] == segments@[k]);
    }
    if r is Ok && s is Ok && t is Err {
        let k = choose|k: int| #[trigger] crate::cmaf::fails_first(more@, k);
        if k < segments@.len() {
            assert(more@[k] == segments@[k]);
            assert(crate::cmaf::is_whole_segment(segments@[k]@));
        }
    }
    if t is Ok {
        assert(crate::cmaf::is_whole_segment(more@[more@.len() - 1]@));
        if r is Ok {
            assert(final(whole)@ =~= final(single)@);
        }
    }
}

/// The address of a segment is the template with its number in place of each mark.
pub proof fn law_a_segment_has_its_own_address(
    template: &str,
    index: u8,
    r: String,
    digits: &mut String,
    mark: &str,
    number: &str,
    replaced: String,
)
    requires
        call_ensures(segment_url, (template, index), r),
        old(digits)@.len() == 0,
        call_ensures(append_decimal, (digits, index as u64), ()),
        number@ == final(digits)@,
        mark@ == "$SEGMENT$"@,
        call_ensures(replace_all, (template, mark, number), replaced),
    ensures
        r@ == replaced@,
{
    assert(number@ =~= crate::text::decimal(index as nat));
}

/// A stream is had from a template and a key; what is missing is named, the template
/// first.
pub proof fn law_a_source_needs_a_template_and_a_key(
    file: &FileUrl,
    r: Result<(String, String), String>,
)
    requires
        call_ensures(stream_source, (file,), r),
    ensures
        r is Ok <==> file.url_template is Some && file.key is Some,
        r is Ok ==> (r->Ok_0).0@ == file.url_template->0@ && (r->Ok_0).1@ == file.key->0@,
        file.url_template is None ==> r is Err && r->Err_0@
            == "No url_template in file/url response"@,
        file.url_template is Some && file.key is None ==> r is Err && r->Err_0@
            == "No key in file/url response"@,
{
}

/// What is kept of a stream is what was told of it: the depth by either name, the format
/// that was asked for where none was told, the header and the table of its first piece.
pub proof fn law_a_stream_keeps_what_was_told(
    file: &FileUrl,
    template: String,
    key: [u8; 16],
    init: InitInfo,
    asked: u32,
    ms: u64,
    info: CmafStreamingInfo,
    first: Vec<u8>,
    segments: Vec<Vec<u8>>,
    infos: String,
    bundle: CmafRawBundle,
)
    requires
        call_ensures(streaming_info, (file, template, key, init, asked, ms), info),
        call_ensures(raw_bundle, (file, first, segments, key, infos, asked), bundle),
    ensures
        info.url_template == template,
        info.n_segments == file.n_segments,
        info.content_key == key,
        info.flac_header == init.flac_header,
        info.segment_table == init.segment_table,
        file.format_id is Some ==> info.format_id == file.format_id->0,
        file.format_id is None ==> info.format_id == asked,
        info.sampling_rate == file.sampling_rate,
        file.bits_depth is Some ==> info.bit_depth == file.bits_depth,
        file.bits_depth is None ==> info.bit_depth == file.bit_depth,
        info.init_fetch_ms == ms,
        bundle.init_bytes == first,
        bundle.segments == segments,
        bundle.content_key == key,
        bundle.infos == infos,
        bundle.format_id == info.format_id,
        bundle.sampling_rate == info.sampling_rate,
        bundle.bit_depth == info.bit_depth,
        bundle.n_segments == info.n_segments,
{
}

/// A track takes its header and the bytes of its segments: one segment more takes its
/// bytes more.
pub proof fn law_a_track_is_its_header_and_its_segments(
    header: &Vec<u8>,
    table: &Vec<SegmentTableEntry>,
    r: usize,
    more: &Vec<SegmentTableEntry>,
    s: usize,
)
    requires
        call_ensures(track_size, (header, table), r),
        call_ensures(track_size, (header, more), s),
        more@.len() == table@.len() + 1,
        more@.drop_last() == table@,
    ensures
        table@.len() == 0 ==> r == header@.len(),
        s == r + more@.last().byte_len,
{
}

/// A segment that has come counts as one more, with its bytes.
pub proof fn law_progress_counts_segments(
    before: u32,
    n: u8,
    bytes: u64,
    r: CmafProgressUpdate,
)
    requires
        call_ensures(progress_tick, (before, n, bytes), r),
    ensures
        r.segments_completed == before + 1,
        r.n_segments == n,
        r.bytes_this_segment == bytes,
{
}

/// A status may pass where the server failed or asked to slow down.
pub proof fn law_a_failure_may_pass(status: u16, r: bool)
    requires
        call_ensures(is_transient_status, (status,), r),
    ensures
        r <==> status == 429 || 500 <= status <= 599,
{
}

/// A success ends a fetch with its body. What may pass is tried again, and so is a
/// network failure, as long as attempts are left; any other status, and the last
/// attempt, ends it with what was wrong.
pub proof fn law_a_fetch_is_tried_again(
    run: &mut FetchRun,
    attempt: FetchAttempt,
    r: FetchStep,
)
    requires
        call_ensures(FetchRun::step, (run, attempt), r),
    ensures
        final(run).max_attempts == old(run).max_attempts,
        attempt is Response && 200 <= attempt->status <= 299 ==> r == FetchStep::Done(attempt->body)
            && final(run).failed == old(run).failed,
        attempt is Response && !(200 <= attempt->status <= 299) && !(attempt->status == 429 || 500
            <= attempt->status <= 599) ==> r == FetchStep::GiveUp(
            FetchFailure::Status(attempt->status),
        ) && final(run).failed == old(run).failed,
        attempt is Network || (attempt->status == 429 || 500 <= attempt->status <= 599) ==> {
            &&& old(run).failed + 1 < old(run).max_attempts ==> final(run).failed == old(run).failed
                + 1 && (r matches FetchStep::Retry { failed } && failed == old(run).failed + 1)
            &&& old(run).failed + 1 >= old(run).max_attempts ==> r is GiveUp && final(run).failed
                == old(run).failed && (attempt is Network ==> r == FetchStep::GiveUp(
                FetchFailure::Network(attempt->Network_0),
            )) && (attempt is Response ==> r == FetchStep::GiveUp(
                FetchFailure::Status(attempt->status),
            ))
        },
{
}

/// A fetch starts with all its attempts.
pub proof fn law_a_fetch_starts_afresh(max: u32, r: FetchRun)
    requires
        call_ensures(FetchRun::new, (max,), r),
    ensures
        r.failed == 0,
        r.max_attempts == max,
{
}

/// Segments are taken one after another from the first on; any other is refused, and
/// the one that is expected stays.
pub proof fn law_segments_come_in_order(
    fresh: SegmentOrder,
    order: &mut SegmentOrder,
    tag: &str,
    index: u8,
    r: Result<(), String>,
)
    requires
        call_ensures(SegmentOrder::new, (), fresh),
        call_ensures(SegmentOrder::accept, (order, tag, index), r),
    ensures
        fresh.expected == 1,
        r is Ok <==> index == old(order).expected,
        r is Ok && index < 255 ==> final(order).expected == index + 1,
        r is Ok && index == 255 ==> final(order).expected == 255,
        r is Err ==> final(order).expected == old(order).expected && r->Err_0@ == "["@ + tag@
            + "] segments arrived out of order: expected "@ + crate::text::decimal(
            old(order).expected as nat,
        ) + ", got "@ + crate::text::decimal(index as nat),
{
}

/// Segments are put in the order of their numbers; none is lost, none is made up, and
/// those of one number keep their order.
pub proof fn law_arrived_segments_are_sorted(
    arrived: Vec<ArrivedSegment>,
    r: Vec<ArrivedSegment>,
    i: int,
    j: int,
    number: u8,
)
    requires
        call_ensures(order_segments, (arrived,), r),
    ensures
        0 <= i < j < r@.len() ==> r@[i].number <= r@[j].number,
        r@.len() == arrived@.len(),
        r@.to_multiset() == arrived@.to_multiset(),
        r@.filter(|s: ArrivedSegment| s.number == number) == arrived@.filter(
            |s: ArrivedSegment| s.number == number,
        ),
{
    assert(crate::cmaf_download::numbered(r@, number) == crate::cmaf_download::numbered(
        arrived@,
        number,
    ));
    if 0 <= i < j < r@.len() {
        assert(r@[i].number <= r@[j].number);
    }
}

/// Chunks are written one behind the other, from behind the header on; what is handed
/// on with each is the range before it, and the last comes at the end with the bytes of
/// the whole file.
pub proof fn law_chunks_are_written_behind_one_another(
    header: usize,
    fresh: WritePacer,
    pacer: &mut WritePacer,
    len: usize,
    r: (FileRange, Option<FileRange>),
    after: WritePacer,
    end: (Option<FileRange>, usize),
)
    requires
        call_ensures(WritePacer::new, (header,), fresh),
        call_ensures(WritePacer::chunk_written, (pacer, len), r),
        after == *final(pacer),
        call_ensures(WritePacer::finish, (after,), end),
    ensures
        fresh.written == header,
        fresh.in_flight is None,
        r.0.offset == old(pacer).written,
        r.0.len == len,
        r.1 == old(pacer).in_flight,
        end.0 == Some(r.0),
        end.1 == r.0.offset + len,
        final(pacer).written == r.0.offset + r.0.len,
        final(pacer).in_flight == Some(r.0),
{
}

/// A track on disk is published where it was fetched and written, whole; what went wrong
/// first is told, a failed write before a failed fetch.
pub proof fn law_a_short_file_is_not_published(
    id: u64,
    total: usize,
    written: Result<usize, String>,
    fetched: Result<(), String>,
    r: Result<(), String>,
)
    requires
        call_ensures(finish_disk_download, (id, total, written, fetched), r),
    ensures
        r is Ok <==> written is Ok && fetched is Ok && written->Ok_0 == total,
        written is Err ==> r == Err::<(), String>(written->Err_0),
        written is Ok && fetched is Err ==> r == Err::<(), String>(fetched->Err_0),
        written is Ok && fetched is Ok && written->Ok_0 != total ==> r->Err_0@ == "CMAF-DISK track "@
            + crate::text::decimal(id as nat) + ": wrote "@ + crate::text::decimal(
            written->Ok_0 as nat,
        ) + " bytes, segment table said "@ + crate::text::decimal(total as nat)
            + " -- refusing to publish a short file"@,
{
}

/// A segment that cannot be decrypted says which one it is and why: what is wrong with its
/// table, or that its frames reach out of it. One whose table is wrong leaves the output
/// as it was.
pub proof fn law_a_failed_segment_says_why<F: Fn([u8; 16], Vec<u8>, Vec<u8>) -> Vec<u8>>(
    data: &[u8],
    number: usize,
    key: [u8; 16],
    output: &mut Vec<u8>,
    cipher: &F,
    r: Result<(), String>,
    parsed: Result<SegmentCrypto, SegmentError>,
)
    requires
        call_ensures(decrypt_segment_into::<F>, (data, number, key, output, cipher), r),
        call_ensures(parse_segment_crypto, (data,), parsed),
    ensures
        parsed is Err ==> r is Err && final(output)@ == old(output)@,
        ({
            let which = "CMAF seg "@ + crate::text::decimal(number as nat);
            &&& parsed == Err::<SegmentCrypto, SegmentError>(SegmentError::NoFrameTable)
                ==> r->Err_0@ == which + (" parse: "@ + "no frame table"@)
            &&& parsed == Err::<SegmentCrypto, SegmentError>(SegmentError::NoAudio) ==> r->Err_0@
                == which + (" parse: "@ + "no audio box"@)
            &&& parsed == Err::<SegmentCrypto, SegmentError>(SegmentError::Truncated)
                ==> r->Err_0@ == which + (" parse: "@ + "truncated frame table"@)
            &&& parsed is Ok && r is Err ==> r->Err_0@ == which + " frame overflow"@
        }),
        final(output)@.len() >= old(output)@.len(),
        final(output)@.take(old(output)@.len() as int) == old(output)@,
{
    match r {
        Ok(_) => {
            if parsed is Err {
                let whole = choose|c: SegmentCrypto|
                    #[trigger] crate::cmaf_segment::is_segment(data@, c)
                        && crate::cmaf::frames_fit(data@, c);
                assert(crate::cmaf_segment::is_segment(data@, whole));
            }
        },
        Err(why) => {},
    }
    assert(final(output)@.take(old(output)@.len() as int) =~= old(output)@);
}

} // verus!
