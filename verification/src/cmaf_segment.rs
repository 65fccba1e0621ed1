//! The layout of an encrypted CMAF audio segment: a `uuid` box that carries the
//! frame table, and an `mdat` box that carries the audio.

use vstd::prelude::*;

verus! {

/// A frame of a segment: its size, whether it is encrypted, and the vector its
/// decryption starts from.
pub struct FrameEntry {
    pub size: u32,
    /// Zero for a frame that is stored in the clear.
    pub flags: u16,
    pub iv: Vec<u8>,
}

/// The frame table of a segment.
pub struct SegmentCrypto {
    /// Where the first frame starts.
    pub data_offset: u128,
    /// One past the last byte of audio.
    pub mdat_end: usize,
    pub entries: Vec<FrameEntry>,
}

/// Why a segment has no frame table that can be used.
#[derive(Debug, Clone, Copy, PartialEq, Eq, Structural)]
pub enum SegmentError {
    /// No `uuid` box carries the segment id.
    NoFrameTable,
    /// No `mdat` box.
    NoAudio,
    /// The frame table reaches past its box.
    Truncated,
}

/// The kind of box that is looked for.
#[derive(Debug, Clone, Copy, PartialEq, Eq, Structural)]
pub enum BoxKind {
    FrameTable,
    Audio,
}

/// The big-endian number in the `n` bytes from `at`.
pub open spec fn be(data: Seq<u8>, at: int, n: nat) -> nat
    decreases n,
{
    if n == 0 {
        0
    } else {
        be(data, at, (n - 1) as nat) * 256 + data[at + n - 1] as nat
    }
}

/// The bytes that name the segment's frame table.
pub open spec fn segment_id() -> Seq<u8> {
    seq![
        0x3bu8,
        0x42,
        0x12,
        0x92,
        0x56,
        0xf3,
        0x5f,
        0x75,
        0x92,
        0x36,
        0x63,
        0xb6,
        0x9a,
        0x1f,
        0x52,
        0xb2,
    ]
}

/// A box with its whole length in the data starts at `at`.
pub open spec fn is_box(data: Seq<u8>, at: int) -> bool {
    at + 8 <= data.len() && 8 <= be(data, at, 4) && at + be(data, at, 4) <= data.len()
}

/// The box at `at` is of the kind looked for.
pub open spec fn is_kind(data: Seq<u8>, at: int, kind: BoxKind) -> bool {
    match kind {
        BoxKind::FrameTable => be(data, at, 4) >= 24 && data.subrange(at + 4, at + 8)
            == seq![0x75u8, 0x75, 0x69, 0x64] && data.subrange(at + 8, at + 24) == segment_id(),
        BoxKind::Audio => data.subrange(at + 4, at + 8) == seq![0x6du8, 0x64, 0x61, 0x74],
    }
}

/// Where the first box of a kind starts, walking box by box from `at`.
pub open spec fn find_box(data: Seq<u8>, at: int, kind: BoxKind) -> Option<int>
    decreases data.len() - at,
{
    if at < 0 || !is_box(data, at) {
        None
    } else if is_kind(data, at, kind) {
        Some(at)
    } else {
        find_box(data, at + be(data, at, 4), kind)
    }
}

/// Offset of the frame table's entries, behind the box header, the id, the
/// padding, the data offset, the vector size and the count.
pub open spec fn entries_at(table: int) -> int {
    table + 36
}

/// The bytes of a vector, in the table at `table`.
pub open spec fn iv_len(data: Seq<u8>, table: int) -> nat {
    data[table + 32] as nat
}

/// The number of frames in the table at `table`.
pub open spec fn frame_count(data: Seq<u8>, table: int) -> nat {
    be(data, table + 33, 3)
}

/// Where entry `i` of the table at `table` starts.
pub open spec fn entry_at(data: Seq<u8>, table: int, i: int) -> int {
    entries_at(table) + i * (8 + iv_len(data, table))
}

/// The frame table at `table` lies within its box.
pub open spec fn table_fits(data: Seq<u8>, table: int) -> bool {
    &&& be(data, table, 4) >= 36
    &&& entry_at(data, table, frame_count(data, table) as int) <= table + be(data, table, 4)
}

/// Entry `i` of the table at `table` reads as `entry`.
pub open spec fn is_entry(data: Seq<u8>, table: int, i: int, entry: FrameEntry) -> bool {
    let at = entry_at(data, table, i);
    &&& entry.size == be(data, at, 4)
    &&& entry.flags == be(data, at + 6, 2)
    &&& entry.iv@ == data.subrange(at + 8, at + 8 + iv_len(data, table))
}

/// `data` is a segment with the frame table `crypto`.
pub open spec fn is_segment(data: Seq<u8>, crypto: SegmentCrypto) -> bool {
    match (find_box(data, 0, BoxKind::FrameTable), find_box(data, 0, BoxKind::Audio)) {
        (Some(table), Some(audio)) => {
            &&& table_fits(data, table)
            &&& crypto.data_offset == table + be(data, table + 28, 4)
            &&& crypto.mdat_end == audio + be(data, audio, 4)
            &&& crypto.entries@.len() == frame_count(data, table)
            &&& forall|i: int|
                0 <= i < crypto.entries@.len() ==> is_entry(
                    data,
                    table,
                    i,
                    #[trigger] crypto.entries@[i],
                )
        },
        _ => false,
    }
}

/// Why `data` is no segment.
pub open spec fn segment_error(data: Seq<u8>) -> Option<SegmentError> {
    match (find_box(data, 0, BoxKind::FrameTable), find_box(data, 0, BoxKind::Audio)) {
        (None, _) => Some(SegmentError::NoFrameTable),
        (Some(_), None) => Some(SegmentError::NoAudio),
        (Some(table), Some(_)) => if table_fits(data, table) {
            None
        } else {
            Some(SegmentError::Truncated)
        },
    }
}

proof fn lemma_be_bounds(data: Seq<u8>, at: int)
    ensures
        be(data, at, 1) == data[at] as nat,
        be(data, at, 2) == data[at] as nat * 256 + data[at + 1] as nat,
        be(data, at, 3) == (data[at] as nat * 256 + data[at + 1] as nat) * 256 + data[at
            + 2] as nat,
        be(data, at, 4) == ((data[at] as nat * 256 + data[at + 1] as nat) * 256 + data[at
            + 2] as nat) * 256 + data[at + 3] as nat,
        be(data, at, 2) < 0x1_0000,
        be(data, at, 3) < 0x100_0000,
        be(data, at, 4) < 0x1_0000_0000,
{
    reveal_with_fuel(be, 5);
}

fn read_be16(data: &[u8], at: usize) -> (r: u16)
    requires
        at + 2 <= data@.len(),
    ensures
        r == be(data@, at as int, 2),
{
    proof {
        lemma_be_bounds(data@, at as int);
    }
    (data[at] as u16) * 256 + data[at + 1] as u16
}

fn read_be24(data: &[u8], at: usize) -> (r: u32)
    requires
        at + 3 <= data@.len(),
    ensures
        r == be(data@, at as int, 3),
        r < 0x100_0000,
{
    proof {
        lemma_be_bounds(data@, at as int);
    }
    ((data[at] as u32) * 256 + data[at + 1] as u32) * 256 + data[at + 2] as u32
}

fn read_be32(data: &[u8], at: usize) -> (r: u32)
    requires
        at + 4 <= data@.len(),
    ensures
        r == be(data@, at as int, 4),
{
    proof {
        lemma_be_bounds(data@, at as int);
    }
    ((data[at] as u32) * 256 + data[at + 1] as u32) * 65536 + (data[at + 2] as u32) * 256
        + data[at + 3] as u32
}

fn bytes_at(data: &[u8], at: usize, want: &[u8]) -> (r: bool)
    requires
        at + want@.len() <= data@.len(),
    ensures
        r == (data@.subrange(at as int, at + want@.len()) == want@),
{
    let len: usize = data.len();
    let mut i: usize = 0;
    while i < want.len()
        invariant
            i <= want@.len(),
            len == data@.len(),
            at + want@.len() <= data@.len(),
            forall|k: int| 0 <= k < i ==> data@[at + k] == want@[k],
        decreases want@.len() - i,
    {
        if data[at + i] != want[i] {
            assert(data@.subrange(at as int, at + want@.len())[i as int] != want@[i as int]);
            return false;
        }
        i = i + 1;
    }
    assert(data@.subrange(at as int, at + want@.len()) =~= want@);
    true
}

fn has_kind(data: &[u8], at: usize, kind: BoxKind) -> (r: bool)
    requires
        is_box(data@, at as int),
    ensures
        r == is_kind(data@, at as int, kind),
{
    let len: usize = data.len();
    assert(at + 8 <= len);
    let size: u32 = read_be32(data, at);
    assert(at + size <= len);
    match kind {
        BoxKind::FrameTable => {
            let tag: [u8; 4] = [0x75, 0x75, 0x69, 0x64];
            let id: [u8; 16] = [
                0x3b,
                0x42,
                0x12,
                0x92,
                0x56,
                0xf3,
                0x5f,
                0x75,
                0x92,
                0x36,
                0x63,
                0xb6,
                0x9a,
                0x1f,
                0x52,
                0xb2,
            ];
            assert(tag@ =~= seq![0x75u8, 0x75, 0x69, 0x64]);
            assert(id@ =~= segment_id());
            size >= 24 && bytes_at(data, at + 4, &tag) && bytes_at(data, at + 8, &id)
        },
        BoxKind::Audio => {
            let tag: [u8; 4] = [0x6d, 0x64, 0x61, 0x74];
            assert(tag@ =~= seq![0x6du8, 0x64, 0x61, 0x74]);
            bytes_at(data, at + 4, &tag)
        },
    }
}

fn locate_box(data: &[u8], kind: BoxKind) -> (r: Option<usize>)
    ensures
        match r {
            Some(at) => find_box(data@, 0, kind) == Some(at as int) && is_box(data@, at as int)
                && is_kind(data@, at as int, kind),
            None => find_box(data@, 0, kind) is None,
        },
{
    let len: usize = data.len();
    let mut at: usize = 0;
    while at <= len && 8 <= len - at
        invariant
            len == data@.len(),
            find_box(data@, 0, kind) == find_box(data@, at as int, kind),
        decreases len - at,
    {
        let size: u32 = read_be32(data, at);
        if size < 8 || size as u64 > (len - at) as u64 {
            return None;
        }
        if has_kind(data, at, kind) {
            return Some(at);
        }
        at = at + size as usize;
    }
    None
}

proof fn lemma_entry_order(data: Seq<u8>, table: int, i: int, j: int)
    requires
        0 <= i <= j,
    ensures
        entry_at(data, table, i) <= entry_at(data, table, j),
        entry_at(data, table, i + 1) == entry_at(data, table, i) + 8 + iv_len(data, table),
        entries_at(table) <= entry_at(data, table, i),
{
    let step = 8 + iv_len(data, table) as int;
    assert(i * step <= j * step) by (nonlinear_arith)
        requires
            0 <= i <= j,
            step >= 0,
    ;
    assert((i + 1) * step == i * step + step) by (nonlinear_arith);
    assert(0 <= i * step) by (nonlinear_arith)
        requires
            0 <= i,
            step >= 0,
    ;
}

/// Read the frame table of a segment.
pub fn parse_segment_crypto(data: &[u8]) -> (r: Result<SegmentCrypto, SegmentError>)
    ensures
        match r {
            Ok(crypto) => is_segment(data@, crypto) && segment_error(data@) is None
                && crypto.data_offset <= data@.len() + u32::MAX,
            Err(why) => segment_error(data@) == Some(why),
        },
{
    let table: usize = match locate_box(data, BoxKind::FrameTable) {
        Some(at) => at,
        None => return Err(SegmentError::NoFrameTable),
    };
    let audio: usize = match locate_box(data, BoxKind::Audio) {
        Some(at) => at,
        None => return Err(SegmentError::NoAudio),
    };
    let len: usize = data.len();
    let size: usize = read_be32(data, table) as usize;
    if size < 36 {
        return Err(SegmentError::Truncated);
    }
    let offset: u128 = table as u128 + read_be32(data, table + 28) as u128;
    let iv_size: usize = data[table + 32] as usize;
    let count: u32 = read_be24(data, table + 33);
    proof {
        assert(count * (8 + iv_size) <= 0x100_0000 * 263) by (nonlinear_arith)
            requires
                0 <= count < 0x100_0000,
                0 <= iv_size < 256,
        ;
    }
    let need: u64 = (count as u64) * (8 + iv_size as u64);
    proof {
        assert(entry_at(data@, table as int, count as int) == table + 36 + need);
    }
    if need > (size - 36) as u64 {
        return Err(SegmentError::Truncated);
    }
    let mut entries: Vec<FrameEntry> = Vec::new();
    let mut i: u32 = 0;
    let mut at: usize = table + 36;
    while i < count
        invariant
            len == data@.len(),
            i <= count,
            count == frame_count(data@, table as int),
            iv_size == iv_len(data@, table as int),
            at == entry_at(data@, table as int, i as int),
            entry_at(data@, table as int, count as int) <= len,
            entries@.len() == i,
            forall|k: int|
                0 <= k < i ==> is_entry(data@, table as int, k, #[trigger] entries@[k]),
        decreases count - i,
    {
        proof {
            lemma_entry_order(data@, table as int, i as int, count as int);
            lemma_entry_order(data@, table as int, i + 1, count as int);
        }
        let frame_size: u32 = read_be32(data, at);
        let flags: u16 = read_be16(data, at + 6);
        let mut iv: Vec<u8> = Vec::new();
        iv.extend_from_slice(&data[at + 8..at + 8 + iv_size]);
        assert(iv@ =~= data@.subrange(at + 8, at + 8 + iv_size));
        entries.push(FrameEntry { size: frame_size, flags, iv });
        at = at + 8 + iv_size;
        i = i + 1;
    }
    let audio_size: usize = read_be32(data, audio) as usize;
    Ok(SegmentCrypto { data_offset: offset, mdat_end: audio + audio_size, entries })
}

} // verus!
