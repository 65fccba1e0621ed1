//! The bytes of a track while it downloads: sorted, disjoint runs, with the
//! position the feeder writes at and the range its readers wait for.

use vstd::prelude::*;

use crate::media_source::FetchPlan;
use crate::stream_config::StreamSeekMode;

verus! {

/// How far ahead of the download head a read may sit before a fresh range
/// request is preferred over waiting for the bytes already on their way.
pub const FORWARD_WAIT_BYTES: u64 = 2 * 1024 * 1024;

/// How far before the target a re-opened body starts when the reader is
/// walking backwards. Below [`FORWARD_WAIT_BYTES`], so the reader waits for
/// its own target instead of asking again.
pub const SEEK_LOOKBEHIND_BYTES: u64 = 1024 * 1024;

/// One contiguous run of downloaded bytes, covering
/// `[offset, offset + data.len())` of the source file.
pub struct BufferSegment {
    pub offset: u64,
    pub data: Vec<u8>,
}

impl BufferSegment {
    /// One past the last byte of the run.
    pub open spec fn end_pos(self) -> int {
        self.offset + self.data@.len()
    }

    /// Whether the run holds byte `p` of the file.
    pub open spec fn covers(self, p: int) -> bool {
        self.offset <= p < self.end_pos()
    }

    /// Byte `p` of the file, for a run that covers it.
    pub open spec fn at(self, p: int) -> u8 {
        self.data@[p - self.offset]
    }

    pub fn end(&self) -> (r: u64)
        requires
            self.end_pos() <= u64::MAX,
        ensures
            r == self.end_pos(),
    {
        self.offset + self.data.len() as u64
    }
}

/// The lowest index of a run that covers `p`, or the number of runs.
pub open spec fn cover_index(runs: Seq<BufferSegment>, p: int) -> int
    decreases runs.len(),
{
    if runs.len() == 0 || runs[0].covers(p) {
        0
    } else {
        1 + cover_index(runs.drop_first(), p)
    }
}

/// Byte `p` of the file as `runs` hold it; where runs overlap, the first wins.
pub open spec fn byte_in(runs: Seq<BufferSegment>, p: int) -> Option<u8> {
    let i = cover_index(runs, p);
    if i < runs.len() {
        Some(runs[i].at(p))
    } else {
        None
    }
}

/// Every run holds something and ends within the file offsets.
pub open spec fn runs_fit(runs: Seq<BufferSegment>) -> bool {
    forall|i: int|
        0 <= i < runs.len() ==> (#[trigger] runs[i]).data@.len() > 0 && runs[i].end_pos()
            <= u64::MAX
}

/// Runs in the order of their offsets.
pub open spec fn runs_sorted(runs: Seq<BufferSegment>) -> bool {
    forall|i: int, j: int|
        #![trigger runs[i], runs[j]]
        0 <= i < j < runs.len() ==> runs[i].offset <= runs[j].offset
}

/// Runs in order, with a hole between any two of them.
pub open spec fn runs_apart(runs: Seq<BufferSegment>) -> bool {
    forall|i: int, j: int|
        #![trigger runs[i], runs[j]]
        0 <= i < j < runs.len() ==> runs[i].end_pos() < runs[j].offset
}

/// The number of bytes that the runs hold together.
pub open spec fn total_len(runs: Seq<BufferSegment>) -> nat
    decreases runs.len(),
{
    if runs.len() == 0 {
        0
    } else {
        total_len(runs.drop_last()) + runs.last().data@.len()
    }
}

pub(crate) proof fn lemma_cover_index(runs: Seq<BufferSegment>, p: int)
    ensures
        0 <= cover_index(runs, p) <= runs.len(),
        forall|j: int| 0 <= j < cover_index(runs, p) ==> !(#[trigger] runs[j]).covers(p),
        cover_index(runs, p) < runs.len() ==> runs[cover_index(runs, p)].covers(p),
    decreases runs.len(),
{
    if runs.len() > 0 && !runs[0].covers(p) {
        let rest = runs.drop_first();
        lemma_cover_index(rest, p);
        assert forall|j: int| 0 <= j < cover_index(runs, p) implies !(#[trigger] runs[j]).covers(
            p,
        ) by {
            if j > 0 {
                assert(rest[j - 1] == runs[j]);
            }
        }
    }
}

/// A run that covers `p` with none before it is the one that counts.
proof fn lemma_byte_in_is(runs: Seq<BufferSegment>, p: int, i: int)
    requires
        0 <= i < runs.len(),
        runs[i].covers(p),
        forall|j: int| 0 <= j < i ==> !(#[trigger] runs[j]).covers(p),
    ensures
        cover_index(runs, p) == i,
        byte_in(runs, p) == Some(runs[i].at(p)),
{
    lemma_cover_index(runs, p);
}

proof fn lemma_byte_in_none(runs: Seq<BufferSegment>, p: int)
    requires
        forall|j: int| 0 <= j < runs.len() ==> !(#[trigger] runs[j]).covers(p),
    ensures
        byte_in(runs, p) is None,
{
    lemma_cover_index(runs, p);
}

/// With holes between the runs, whichever run covers `p` holds its byte.
pub(crate) proof fn lemma_apart_byte(runs: Seq<BufferSegment>, p: int, i: int)
    requires
        runs_fit(runs),
        runs_apart(runs),
        0 <= i < runs.len(),
        runs[i].covers(p),
    ensures
        byte_in(runs, p) == Some(runs[i].at(p)),
        cover_index(runs, p) == i,
{
    assert forall|j: int| 0 <= j < i implies !(#[trigger] runs[j]).covers(p) by {
        assert(runs[j].end_pos() < runs[i].offset);
    }
    lemma_byte_in_is(runs, p, i);
}

/// `merged` extends run `i` by what run `i + 1` holds past its end.
pub open spec fn is_merge(cur: BufferSegment, next: BufferSegment, merged: BufferSegment) -> bool {
    let skip = cur.end_pos() - next.offset;
    &&& merged.offset == cur.offset
    &&& merged.data@ == if skip < next.data@.len() {
        cur.data@ + next.data@.subrange(skip, next.data@.len() as int)
    } else {
        cur.data@
    }
}

proof fn lemma_merge_keeps_bytes(
    runs: Seq<BufferSegment>,
    i: int,
    merged: BufferSegment,
    after: Seq<BufferSegment>,
)
    requires
        runs_fit(runs),
        runs_sorted(runs),
        0 <= i,
        i + 1 < runs.len(),
        runs[i + 1].offset <= runs[i].end_pos(),
        is_merge(runs[i], runs[i + 1], merged),
        after == runs.remove(i + 1).update(i, merged),
    ensures
        forall|p: int| byte_in(after, p) == byte_in(runs, p),
        runs_fit(after),
        runs_sorted(after),
{
    let cur = runs[i];
    let next = runs[i + 1];
    let skip = cur.end_pos() - next.offset;
    assert(cur.offset <= next.offset);
    assert forall|j: int| 0 <= j < after.len() implies (#[trigger] after[j]).data@.len() > 0
        && after[j].end_pos() <= u64::MAX by {
        if j < i {
            assert(after[j] == runs[j]);
        } else if j > i {
            assert(after[j] == runs[j + 1]);
        } else {
            if skip < next.data@.len() {
                assert(merged.end_pos() == next.end_pos());
            }
        }
    }
    assert forall|a: int, b: int|
        #![trigger after[a], after[b]]
        0 <= a < b < after.len() implies after[a].offset <= after[b].offset by {
        let ra = if a <= i { a } else { a + 1 };
        let rb = if b <= i { b } else { b + 1 };
        assert(runs[ra].offset <= runs[rb].offset);
    }
    assert forall|p: int| byte_in(after, p) == byte_in(runs, p) by {
        lemma_cover_index(runs, p);
        let k = cover_index(runs, p);
        assert forall|j: int| 0 <= j < i && j < k implies !(#[trigger] after[j]).covers(p) by {
            assert(after[j] == runs[j]);
        }
        if k < i {
            assert(after[k] == runs[k]);
            lemma_byte_in_is(after, p, k);
        } else if k == i {
            lemma_byte_in_is(after, p, i);
        } else if k == i + 1 {
            assert(!runs[i].covers(p));
            assert(p >= cur.end_pos());
            assert(merged.covers(p));
            assert(merged.at(p) == next.at(p));
            lemma_byte_in_is(after, p, i);
        } else {
            assert(!runs[i].covers(p));
            assert(!runs[i + 1].covers(p));
            assert(!merged.covers(p));
            assert forall|j: int| 0 <= j < k - 1 && j < after.len() implies !(
            #[trigger] after[j]).covers(p) by {
                if j > i {
                    assert(after[j] == runs[j + 1]);
                }
            }
            if k < runs.len() {
                assert(after[k - 1] == runs[k]);
                lemma_byte_in_is(after, p, k - 1);
            } else {
                lemma_byte_in_none(after, p);
            }
        }
    }
}

/// Internal state shared between the readers and the feeder.
pub struct BufferState {
    /// Downloaded runs, sorted by offset, with a hole between any two.
    pub segments: Vec<BufferSegment>,
    /// Offset the feeder appends at: the end of the run it is filling.
    pub write_pos: u64,
    /// Offset the feeder's current body started at.
    pub range_start: u64,
    /// True when the feeder has nothing left to fetch.
    pub download_complete: bool,
    /// Error from the download, if any.
    pub download_error: Option<String>,
    /// Total expected size, if known.
    pub total_size: Option<u64>,
    /// Where playback reads from: 0, or the target of the last range request.
    pub primary_offset: u64,
    /// Offset a reader wants the feeder to restart at, until it takes it.
    pub pending_request: Option<u64>,
    /// Whether the feeder can honor `pending_request` at all.
    pub seek_mode: StreamSeekMode,
    /// Live reader handles.
    pub readers: usize,
    /// Id of the newest reader; only that one may steer the feeder.
    pub reader_epoch: u64,
}

impl BufferState {
    /// The runs are non-empty, in order, and have holes between them.
    pub open spec fn wf(self) -> bool {
        runs_fit(self.segments@) && runs_apart(self.segments@)
    }

    /// Byte `p` of the file, if it is buffered.
    pub open spec fn byte_at(self, p: int) -> Option<u8> {
        byte_in(self.segments@, p)
    }

    /// Whether byte `p` of the file is buffered.
    pub open spec fn held(self, p: int) -> bool {
        self.byte_at(p) is Some
    }

    /// Every byte of `[from, to)` is buffered.
    pub open spec fn held_range(self, from: int, to: int) -> bool {
        forall|p: int| from <= p < to ==> #[trigger] self.held(p)
    }

    /// No byte of `[from, to)` is buffered.
    pub open spec fn missing_range(self, from: int, to: int) -> bool {
        forall|p: int| from <= p < to ==> !#[trigger] self.held(p)
    }

    /// Everything but the runs is the same in `other`.
    pub open spec fn same_but_segments(self, other: BufferState) -> bool {
        &&& self.write_pos == other.write_pos
        &&& self.range_start == other.range_start
        &&& self.download_complete == other.download_complete
        &&& self.download_error == other.download_error
        &&& self.total_size == other.total_size
        &&& self.primary_offset == other.primary_offset
        &&& self.pending_request == other.pending_request
        &&& self.seek_mode == other.seek_mode
        &&& self.readers == other.readers
        &&& self.reader_epoch == other.reader_epoch
    }

    /// `after` holds what `self` held, with `chunk` merged in at `offset`: the
    /// bytes of a run that already reaches over `offset` stay as they are, and
    /// from where it stops the chunk's bytes are the ones held.
    pub open spec fn merged_into(self, after: BufferState, offset: u64, chunk: Seq<u8>) -> bool {
        forall|p: int|
            #![trigger after.byte_at(p)]
            #![trigger self.byte_at(p)]
            after.byte_at(p) == if offset <= p < offset + chunk.len() && !self.held_range(
                offset as int,
                p + 1,
            ) {
                Some(chunk[p - offset])
            } else {
                self.byte_at(p)
            }
    }

    /// A buffer nothing has been downloaded into, with one reader.
    pub open spec fn fresh(self, total_size: Option<u64>, seek_mode: StreamSeekMode) -> bool {
        &&& self.wf()
        &&& self.segments@.len() == 0
        &&& forall|p: int| !#[trigger] self.held(p)
        &&& self.write_pos == 0
        &&& self.range_start == 0
        &&& !self.download_complete
        &&& self.download_error is None
        &&& self.total_size == total_size
        &&& self.primary_offset == 0
        &&& self.pending_request is None
        &&& self.seek_mode == seek_mode
        &&& self.readers == 1
        &&& self.reader_epoch == 0
    }

    /// The bytes held are one run from the start of the file.
    pub open spec fn is_one_head_run(self) -> bool {
        &&& self.held(0)
        &&& forall|p: int, q: int|
            #![trigger self.held(p), self.held(q)]
            0 <= p < q && self.held(q) ==> self.held(p)
    }

    /// The bytes held are exactly `data`, from the start of the file.
    pub open spec fn holds_exactly(self, data: Seq<u8>) -> bool {
        forall|p: int|
            #[trigger] self.byte_at(p) == if 0 <= p < data.len() {
                Some(data[p])
            } else {
                None
            }
    }

    /// Every byte held is the byte of `file` at its offset.
    pub open spec fn agrees_with(self, file: Seq<u8>) -> bool {
        forall|p: int|
            #[trigger] self.held(p) ==> 0 <= p < file.len() && self.byte_at(p) == Some(file[p])
    }

    /// `plan` is the first range that is still missing.
    pub open spec fn is_first_gap(self, plan: FetchPlan) -> bool {
        &&& self.total_size is Some
        &&& self.held_range(0, plan.offset as int)
        &&& match plan.end {
            Some(end) => {
                &&& plan.offset < end
                &&& self.missing_range(plan.offset as int, end as int)
                &&& self.held(end as int)
            },
            None => {
                &&& forall|p: int| plan.offset <= p ==> !#[trigger] self.held(p)
                &&& plan.offset < self.total_size->0
            },
        }
    }

    /// Something below the known total, or below a byte that is held, is
    /// missing.
    pub open spec fn has_gap(self) -> bool {
        &&& self.total_size is Some
        &&& !(self.held_range(0, self.total_size->0 as int) && forall|p: int, q: int|
            #![trigger self.held(p), self.held(q)]
            0 <= p < q && self.held(q) ==> self.held(p))
    }

    /// A buffer nothing has been downloaded into, with one reader.
    pub fn empty(total_size: Option<u64>, seek_mode: StreamSeekMode) -> (r: Self)
        ensures
            r.fresh(total_size, seek_mode),
    {
        BufferState {
            segments: Vec::new(),
            write_pos: 0,
            range_start: 0,
            download_complete: false,
            download_error: None,
            total_size,
            primary_offset: 0,
            pending_request: None,
            seek_mode,
            readers: 1,
            reader_epoch: 0,
        }
    }

    /// Index of the run holding `pos`, if it is buffered.
    pub fn segment_at(&self, pos: u64) -> (r: Option<usize>)
        requires
            self.wf(),
        ensures
            r is Some <==> self.held(pos as int),
            r matches Some(i) ==> i < self.segments@.len() && self.segments@[i as int].covers(
                pos as int,
            ),
    {
        let n: usize = self.segments.len();
        let mut i: usize = 0;
        while i < n
            invariant
                n == self.segments@.len(),
                self.wf(),
                i <= n,
                forall|j: int| 0 <= j < i ==> !(#[trigger] self.segments@[j]).covers(pos as int),
            decreases n - i,
        {
            if pos >= self.segments[i].offset && pos < self.segments[i].end() {
                proof {
                    lemma_byte_in_is(self.segments@, pos as int, i as int);
                }
                return Some(i);
            }
            i = i + 1;
        }
        proof {
            lemma_byte_in_none(self.segments@, pos as int);
        }
        None
    }

    /// Bytes readable contiguously starting at `pos`.
    pub fn contiguous_from(&self, pos: u64) -> (r: u64)
        requires
            self.wf(),
        ensures
            self.held_range(pos as int, pos + r),
            !self.held(pos + r),
    {
        match self.segment_at(pos) {
            Some(idx) => {
                let r: u64 = self.segments[idx].end() - pos;
                proof {
                    let runs = self.segments@;
                    let run = runs[idx as int];
                    assert forall|p: int| pos <= p < pos + r implies #[trigger] self.held(p) by {
                        lemma_apart_byte(runs, p, idx as int);
                    }
                    assert forall|j: int| 0 <= j < runs.len() implies !(#[trigger] runs[j]).covers(
                        pos + r,
                    ) by {
                        if j < idx {
                            assert(runs[j].end_pos() < run.offset);
                        } else if j > idx {
                            assert(run.end_pos() < runs[j].offset);
                        }
                    }
                    lemma_byte_in_none(runs, pos + r);
                }
                r
            },
            None => 0,
        }
    }

    /// Total bytes held, across every run.
    pub fn downloaded(&self) -> (r: u64)
        requires
            self.wf(),
        ensures
            r == total_len(self.segments@),
    {
        let n: usize = self.segments.len();
        let mut sum: u64 = 0;
        let mut i: usize = 0;
        assert(self.segments@.take(0) =~= Seq::<BufferSegment>::empty());
        while i < n
            invariant
                n == self.segments@.len(),
                self.wf(),
                i <= n,
                sum == total_len(self.segments@.take(i as int)),
            decreases n - i,
        {
            proof {
                let next = self.segments@.take(i + 1);
                assert(next.drop_last() =~= self.segments@.take(i as int));
                lemma_total_len_bound(next);
            }
            sum = sum + self.segments[i].data.len() as u64;
            i = i + 1;
        }
        assert(self.segments@.take(n as int) =~= self.segments@);
        sum
    }

    /// First byte range still missing, as `(start, exclusive end)`. The end is
    /// `None` for the file's tail, which the feeder reads to the end. Without
    /// a total size only the feeder knows when it is done.
    pub fn first_gap(&self) -> (r: Option<(u64, Option<u64>)>)
        requires
            self.wf(),
        ensures
            self.total_size is None ==> r is None,
            r matches Some((start, Some(end))) ==> {
                &&& start < end
                &&& self.held_range(0, start as int)
                &&& self.missing_range(start as int, end as int)
                &&& self.held(end as int)
            },
            r matches Some((start, None)) ==> {
                &&& self.held_range(0, start as int)
                &&& forall|p: int| start <= p ==> !#[trigger] self.held(p)
                &&& start < self.total_size->0
            },
            (r is None && self.total_size is Some) ==> {
                &&& self.held_range(0, self.total_size->0 as int)
                &&& forall|p: int, q: int|
                    #![trigger self.held(p), self.held(q)]
                    0 <= p < q && self.held(q) ==> self.held(p)
            },
    {
        let total: u64 = match self.total_size {
            Some(t) => t,
            None => return None,
        };
        let ghost runs = self.segments@;
        let n: usize = self.segments.len();
        let mut cursor: u64 = 0;
        let mut i: usize = 0;
        while i < n
            invariant
                n == self.segments@.len(),
                self.wf(),
                self.total_size == Some(total),
                runs == self.segments@,
                i <= n,
                i == 0 ==> cursor == 0,
                i > 0 ==> i == 1 && cursor == runs[i - 1].end_pos(),
                self.held_range(0, cursor as int),
            decreases n - i,
        {
            if self.segments[i].offset > cursor {
                let end: u64 = self.segments[i].offset;
                proof {
                    assert(runs[i as int].covers(end as int));
                    lemma_apart_byte(runs, end as int, i as int);
                    assert forall|p: int| cursor <= p < end implies !#[trigger] self.held(p) by {
                        assert forall|j: int| 0 <= j < runs.len() implies !(
                        #[trigger] runs[j]).covers(p) by {
                            if j < i {
                                assert(j == 0 && i == 1);
                            } else if j > i {
                                assert(runs[i as int].end_pos() < runs[j].offset);
                            }
                        }
                        lemma_byte_in_none(runs, p);
                    }
                }
                return Some((cursor, Some(end)));
            }
            proof {
                if i == 1 {
                    assert(runs[0].end_pos() < runs[1].offset);
                }
                assert(runs[0].offset == 0);
                assert forall|p: int| 0 <= p < runs[0].end_pos() implies #[trigger] self.held(
                    p,
                ) by {
                    lemma_apart_byte(runs, p, 0);
                }
            }
            let end: u64 = self.segments[i].end();
            if end > cursor {
                cursor = end;
            }
            i = i + 1;
        }
        proof {
            assert forall|p: int| cursor <= p implies !#[trigger] self.held(p) by {
                assert forall|j: int| 0 <= j < runs.len() implies !(#[trigger] runs[j]).covers(
                    p,
                ) by {
                    assert(n == 1 && j == 0);
                }
                lemma_byte_in_none(runs, p);
            }
        }
        if cursor < total {
            Some((cursor, None))
        } else {
            None
        }
    }

    /// What [`Self::should_request`] answers.
    pub open spec fn wants_request(self, pos: int) -> bool {
        &&& self.seek_mode == StreamSeekMode::RangeRequests
        &&& !self.download_complete
        &&& self.pending_request is None
        &&& !(self.range_start <= pos <= self.write_pos + FORWARD_WAIT_BYTES)
    }

    /// Should the feeder be asked to re-open at `pos`, or are those bytes
    /// close enough behind the download head to be worth waiting for?
    pub fn should_request(&self, pos: u64) -> (r: bool)
        ensures
            r == self.wants_request(pos as int),
    {
        if self.seek_mode != StreamSeekMode::RangeRequests || self.download_complete {
            return false;
        }
        if self.pending_request.is_some() {
            return false;
        }
        let inbound = pos >= self.range_start && pos <= self.write_pos.saturating_add(
            FORWARD_WAIT_BYTES,
        );
        !inbound
    }

    /// `pos` is past everything the feeder will ever produce. The total size
    /// settles this only for a range stream; a sequential stream's total is an
    /// estimate, so only the feeder saying it is done counts there.
    pub open spec fn past_end(self, pos: int) -> bool {
        ||| self.seek_mode == StreamSeekMode::RangeRequests && self.total_size is Some && pos
            >= self.total_size->0
        ||| self.download_complete && !self.held(pos) && pos >= self.write_pos
    }

    /// True once a read at `pos` is the end of the stream rather than a wait.
    pub fn at_eof(&self, pos: u64) -> (r: bool)
        requires
            self.wf(),
        ensures
            r == self.past_end(pos as int),
    {
        if self.seek_mode == StreamSeekMode::RangeRequests {
            if let Some(total) = self.total_size {
                if pos >= total {
                    return true;
                }
            }
        }
        self.download_complete && self.segment_at(pos).is_none() && pos >= self.write_pos
    }

    /// Point the write head at `offset`: the feeder is about to push the body
    /// it opened there.
    pub fn begin(&mut self, offset: u64)
        ensures
            final(self).range_start == offset,
            final(self).write_pos == offset,
            (*final(self)) == (BufferState { range_start: offset, write_pos: offset, ..*old(self) }),
    {
        self.range_start = offset;
        self.write_pos = offset;
    }

    /// Fold adjacent or overlapping runs together; an overlap is dropped, not
    /// duplicated.
    pub fn coalesce(&mut self)
        requires
            runs_fit(old(self).segments@),
            runs_sorted(old(self).segments@),
        ensures
            final(self).wf(),
            final(self).same_but_segments(*old(self)),
            forall|p: int| final(self).byte_at(p) == #[trigger] old(self).byte_at(p),
    {
        let ghost start = *self;
        let mut i: usize = 0;
        while i < self.segments.len() && i + 1 < self.segments.len()
            invariant
                runs_fit(self.segments@),
                runs_sorted(self.segments@),
                self.same_but_segments(start),
                forall|p: int| self.byte_at(p) == #[trigger] start.byte_at(p),
                self.segments@.len() == 0 || i < self.segments@.len(),
                forall|a: int, b: int|
                    #![trigger self.segments@[a], self.segments@[b]]
                    0 <= a < b <= i && b < self.segments@.len() ==> self.segments@[a].end_pos()
                        < self.segments@[b].offset,
            decreases self.segments@.len() - i,
        {
            let ghost before = self.segments@;
            let cur_end: u64 = self.segments[i].end();
            if self.segments[i + 1].offset <= cur_end {
                let next = self.segments.remove(i + 1);
                proof {
                    assert(before[i as int].offset <= before[i + 1].offset);
                }
                if ((cur_end - next.offset) as u128) < next.data.len() as u128 {
                    let skip: usize = (cur_end - next.offset) as usize;
                    let mut cur = self.segments.remove(i);
                    append_from(&mut cur.data, &next.data, skip);
                    self.segments.insert(i, cur);
                    proof {
                        assert(self.segments@ =~= before.remove(i + 1).update(
                            i as int,
                            self.segments@[i as int],
                        ));
                    }
                } else {
                    proof {
                        assert(self.segments@ =~= before.remove(i + 1).update(
                            i as int,
                            self.segments@[i as int],
                        ));
                    }
                }
                proof {
                    lemma_merge_keeps_bytes(
                        before,
                        i as int,
                        self.segments@[i as int],
                        self.segments@,
                    );
                    assert forall|p: int| self.byte_at(p) == #[trigger] start.byte_at(p) by {
                        assert(byte_in(before, p) == start.byte_at(p));
                    }
                }
            } else {
                i = i + 1;
                proof {
                    assert forall|a: int, b: int|
                        #![trigger self.segments@[a], self.segments@[b]]
                        0 <= a < b <= i && b
                            < self.segments@.len() implies self.segments@[a].end_pos()
                        < self.segments@[b].offset by {
                        if b == i && a < i - 1 {
                            assert(self.segments@[a].end_pos() < self.segments@[i - 1].offset);
                            assert(self.segments@[i - 1].offset <= self.segments@[b].offset);
                        }
                    }
                }
            }
        }
    }

    /// Merge `chunk` in at `offset`, keeping the runs sorted and apart. Bytes
    /// of the run that already reaches over `offset` stay as they are; from
    /// there on the chunk's bytes are the ones held.
    pub fn insert(&mut self, offset: u64, chunk: &[u8])
        requires
            old(self).wf(),
            offset + chunk@.len() <= u64::MAX,
        ensures
            final(self).wf(),
            final(self).same_but_segments(*old(self)),
            old(self).merged_into(*final(self), offset, chunk@),
    {
        if chunk.len() == 0 {
            return;
        }
        let ghost start = *self;
        let ghost runs = self.segments@;
        let n: usize = self.segments.len();
        let mut i: usize = 0;
        while i < n && self.segments[i].end() != offset
            invariant
                n == self.segments@.len(),
                self.wf(),
                i <= n,
                forall|j: int| 0 <= j < i ==> (#[trigger] self.segments@[j]).end_pos() != offset,
            decreases n - i,
        {
            i = i + 1;
        }
        if i < n {
            let mut seg = self.segments.remove(i);
            append_from(&mut seg.data, chunk, 0);
            self.segments.insert(i, seg);
            proof {
                assert(chunk@.subrange(0, chunk@.len() as int) =~= chunk@);
                assert(self.segments@ =~= runs.update(i as int, seg));
                lemma_append_run(runs, i as int, offset, chunk@, self.segments@);
            }
        } else {
            let mut at: usize = 0;
            while at < n && self.segments[at].offset <= offset
                invariant
                    n == self.segments@.len(),
                    self.wf(),
                    at <= n,
                    forall|j: int| 0 <= j < at ==> (#[trigger] self.segments@[j]).offset <= offset,
                decreases n - at,
            {
                at = at + 1;
            }
            let mut data: Vec<u8> = Vec::new();
            append_from(&mut data, chunk, 0);
            let seg = BufferSegment { offset, data };
            self.segments.insert(at, seg);
            proof {
                assert(chunk@.subrange(0, chunk@.len() as int) =~= chunk@);
                assert(Seq::<u8>::empty() + chunk@ =~= chunk@);
                lemma_new_run(runs, at as int, offset, chunk@, seg, self.segments@);
            }
        }
        let ghost mid = *self;
        self.coalesce();
        proof {
            assert forall|p: int|
                #![trigger self.byte_at(p)]
                self.byte_at(p) == if offset <= p < offset + chunk@.len() && !start.held_range(
                    offset as int,
                    p + 1,
                ) {
                    Some(chunk@[p - offset])
                } else {
                    start.byte_at(p)
                } by {
                assert(mid.byte_at(p) == byte_in(mid.segments@, p));
                if offset <= p {
                    lemma_held_range_is_one_run(start, offset as int, p);
                }
            }
        }
    }

    /// Drop buffered bytes well behind the read head, so a long track cannot
    /// grow the buffer without bound. The first `keep_head` bytes of the file
    /// survive (its tags live there), and so does everything from
    /// `read_pos - keep_behind` onward. Returns the bytes released.
    pub fn trim_behind(&mut self, read_pos: u64, keep_behind: u64, keep_head: u64) -> (r: u64)
        requires
            old(self).wf(),
        ensures
            final(self).wf(),
            final(self).same_but_segments(*old(self)),
            forall|p: int|
                #![trigger final(self).byte_at(p)]
                final(self).byte_at(p) == if p < keep_head || p >= read_pos - keep_behind {
                    old(self).byte_at(p)
                } else {
                    None
                },
            r == total_len(old(self).segments@) - total_len(final(self).segments@),
    {
        let cutoff: u64 = read_pos.saturating_sub(keep_behind);
        let ghost start = *self;
        let ghost runs = self.segments@;
        if cutoff <= keep_head {
            proof {
                assert forall|p: int| p < 0 implies #[trigger] self.byte_at(p) is None by {
                    lemma_byte_in_none(runs, p);
                }
            }
            return 0;
        }
        let before: u64 = self.downloaded();
        let n: usize = self.segments.len();
        let mut out: Vec<BufferSegment> = Vec::new();
        let mut i: usize = 0;
        assert(runs.subrange(0, runs.len() as int) =~= runs);
        assert(runs.take(0) =~= Seq::<BufferSegment>::empty());
        while i < n
            invariant
                i <= n,
                n == runs.len(),
                keep_head < cutoff,
                runs_fit(runs),
                runs_apart(runs),
                self.same_but_segments(start),
                self.segments@ == runs.subrange(i as int, n as int),
                runs_fit(out@),
                runs_apart(out@),
                total_len(out@) <= total_len(runs.take(i as int)),
                out@.len() > 0 ==> i > 0 && out@.last().end_pos() <= runs[i - 1].end_pos(),
                forall|p: int|
                    #![trigger byte_in(out@, p)]
                    byte_in(out@, p) == if p < keep_head || p >= cutoff {
                        byte_in(runs.take(i as int), p)
                    } else {
                        None
                    },
            decreases n - i,
        {
            let ghost out0 = out@;
            let mut seg = self.segments.remove(0);
            let ghost run = seg;
            proof {
                assert(run == runs[i as int]);
                assert(self.segments@ =~= runs.subrange(i + 1, n as int));
                assert(runs.take(i + 1) =~= runs.take(i as int).push(run));
                assert(runs.take(i + 1).drop_last() =~= runs.take(i as int));
                if out0.len() > 0 {
                    assert(runs[i - 1].end_pos() < runs[i as int].offset);
                }
            }
            let end: u64 = seg.end();
            if end <= keep_head || seg.offset >= cutoff {
                out.push(seg);
                proof {
                    lemma_push_apart(out0, run);
                    assert forall|p: int|
                        #![trigger byte_in(out@, p)]
                        byte_in(out@, p) == if p < keep_head || p >= cutoff {
                            byte_in(runs.take(i + 1), p)
                        } else {
                            None
                        } by {
                        lemma_byte_in_push(out0, run, p);
                        lemma_byte_in_push(runs.take(i as int), run, p);
                    }
                }
            } else {
                let from: u64 = if cutoff < end {
                    cutoff
                } else {
                    end
                };
                let len: usize = seg.data.len();
                assert(from - seg.offset <= len);
                let tail = seg.data.split_off((from - seg.offset) as usize);
                if keep_head > seg.offset {
                    assert(keep_head - seg.offset <= len);
                    seg.data.truncate((keep_head - seg.offset) as usize);
                    out.push(seg);
                    proof {
                        lemma_push_apart(out0, seg);
                    }
                }
                let ghost out1 = out@;
                let ghost tail_run = BufferSegment { offset: from, data: tail };
                if tail.len() > 0 {
                    out.push(BufferSegment { offset: from, data: tail });
                    proof {
                        lemma_push_apart(out1, tail_run);
                    }
                }
                proof {
                    assert forall|p: int|
                        #![trigger byte_in(out@, p)]
                        byte_in(out@, p) == if p < keep_head || p >= cutoff {
                            byte_in(runs.take(i + 1), p)
                        } else {
                            None
                        } by {
                        lemma_byte_in_push(out0, seg, p);
                        lemma_byte_in_push(out1, tail_run, p);
                        lemma_byte_in_push(runs.take(i as int), run, p);
                        assert(byte_in(out0, p) == if p < keep_head || p >= cutoff {
                            byte_in(runs.take(i as int), p)
                        } else {
                            None
                        });
                    }
                }
            }
            i = i + 1;
        }
        assert(runs.take(n as int) =~= runs);
        self.segments = out;
        let after: u64 = self.downloaded();
        before - after
    }

    /// The run starting at byte 0, if there is one.
    pub fn head_run(&self) -> (r: Option<&BufferSegment>)
        ensures
            r is Some <==> self.segments@.len() > 0 && self.segments@[0].offset == 0,
            r matches Some(seg) ==> *seg == self.segments@[0],
    {
        if self.segments.len() > 0 && self.segments[0].offset == 0 {
            Some(&self.segments[0])
        } else {
            None
        }
    }
}

proof fn lemma_total_len_bound(runs: Seq<BufferSegment>)
    requires
        runs.len() > 0,
        runs_fit(runs),
        runs_apart(runs),
    ensures
        total_len(runs) <= runs.last().end_pos(),
    decreases runs.len(),
{
    let rest = runs.drop_last();
    if rest.len() > 0 {
        assert(rest.last() == runs[runs.len() - 2]);
        assert forall|i: int, j: int|
            #![trigger rest[i], rest[j]]
            0 <= i < j < rest.len() implies rest[i].end_pos() < rest[j].offset by {
            assert(runs[i].end_pos() < runs[j].offset);
        }
        lemma_total_len_bound(rest);
        assert(runs[runs.len() - 2].end_pos() < runs[runs.len() - 1].offset);
    } else {
        assert(total_len(rest) == 0);
    }
}

/// A further run counts only for what no earlier run holds.
proof fn lemma_byte_in_push(runs: Seq<BufferSegment>, run: BufferSegment, p: int)
    ensures
        byte_in(runs.push(run), p) == if byte_in(runs, p) is Some {
            byte_in(runs, p)
        } else if run.covers(p) {
            Some(run.at(p))
        } else {
            None
        },
{
    lemma_cover_index(runs, p);
    let all = runs.push(run);
    let k = cover_index(runs, p);
    assert forall|j: int| 0 <= j < k implies !(#[trigger] all[j]).covers(p) by {
        assert(all[j] == runs[j]);
    }
    if k < runs.len() {
        assert(all[k] == runs[k]);
        lemma_byte_in_is(all, p, k);
    } else if run.covers(p) {
        lemma_byte_in_is(all, p, k);
    } else {
        lemma_byte_in_none(all, p);
    }
}

/// A non-empty run past the last one keeps the runs apart.
proof fn lemma_push_apart(runs: Seq<BufferSegment>, run: BufferSegment)
    requires
        runs_fit(runs),
        runs_apart(runs),
        run.data@.len() > 0,
        run.end_pos() <= u64::MAX,
        runs.len() > 0 ==> runs.last().end_pos() < run.offset,
    ensures
        runs_fit(runs.push(run)),
        runs_apart(runs.push(run)),
        total_len(runs.push(run)) == total_len(runs) + run.data@.len(),
{
    let all = runs.push(run);
    assert forall|i: int, j: int|
        #![trigger all[i], all[j]]
        0 <= i < j < all.len() implies all[i].end_pos() < all[j].offset by {
        if j == runs.len() && i < j - 1 {
            assert(runs[i].end_pos() < runs[j - 1].offset);
        } else if j < runs.len() {
            assert(runs[i].end_pos() < runs[j].offset);
        }
    }
    assert(all.drop_last() =~= runs);
}

/// What run `i` holds is what the buffer holds there, and it stops at the
/// run's end.
pub(crate) proof fn lemma_run_bytes(state: BufferState, i: int)
    requires
        state.wf(),
        0 <= i < state.segments@.len(),
    ensures
        forall|p: int|
            #![trigger state.byte_at(p)]
            state.segments@[i].covers(p) ==> state.byte_at(p) == Some(state.segments@[i].at(p)),
        !state.held(state.segments@[i].end_pos()),
{
    let runs = state.segments@;
    let run = runs[i];
    assert forall|p: int| #![trigger state.byte_at(p)] run.covers(p) implies state.byte_at(p)
        == Some(run.at(p)) by {
        lemma_apart_byte(runs, p, i);
    }
    assert forall|j: int| 0 <= j < runs.len() implies !(#[trigger] runs[j]).covers(
        run.end_pos(),
    ) by {
        if j < i {
            assert(runs[j].end_pos() < run.offset);
        } else if j > i {
            assert(run.end_pos() < runs[j].offset);
        }
    }
    lemma_byte_in_none(runs, run.end_pos());
}

/// Byte 0 is held exactly when the first run starts there, and that run is
/// then what is held up to its end.
pub(crate) proof fn lemma_head_run_bytes(state: BufferState)
    requires
        state.wf(),
    ensures
        state.held(0) <==> state.segments@.len() > 0 && state.segments@[0].offset == 0,
        state.held(0) ==> {
            let data = state.segments@[0].data@;
            &&& forall|p: int|
                0 <= p < data.len() ==> #[trigger] state.byte_at(p) == Some(data[p])
            &&& !state.held(data.len() as int)
            &&& state.segments@.len() == 1 ==> state.holds_exactly(data)
        },
{
    let runs = state.segments@;
    lemma_cover_index(runs, 0);
    let k = cover_index(runs, 0);
    if k < runs.len() && k > 0 {
        assert(runs[0].end_pos() < runs[k].offset);
    }
    if runs.len() > 0 && runs[0].offset == 0 {
        assert(runs[0].covers(0));
        lemma_run_bytes(state, 0);
        let data = runs[0].data@;
        assert forall|p: int| 0 <= p < data.len() implies #[trigger] state.byte_at(p) == Some(
            data[p],
        ) by {
            assert(runs[0].covers(p));
        }
        if runs.len() == 1 {
            assert forall|p: int|
                #[trigger] state.byte_at(p) == if 0 <= p < data.len() {
                    Some(data[p])
                } else {
                    None
                } by {
                if !(0 <= p < data.len()) {
                    lemma_byte_in_none(runs, p);
                }
            }
        }
    }
}

/// One run from byte 0 is all there is exactly when nothing below a held byte
/// is missing.
pub(crate) proof fn lemma_one_head_run(state: BufferState)
    requires
        state.wf(),
    ensures
        state.is_one_head_run() <==> state.segments@.len() == 1 && state.segments@[0].offset
            == 0,
{
    let runs = state.segments@;
    lemma_head_run_bytes(state);
    if runs.len() == 1 && runs[0].offset == 0 {
        let data = runs[0].data@;
        assert(state.holds_exactly(data));
        assert forall|p: int, q: int|
            #![trigger state.held(p), state.held(q)]
            0 <= p < q && state.held(q) implies state.held(p) by {
            assert(state.byte_at(q) is Some);
            assert(state.byte_at(p) is Some);
        }
    }
    if state.is_one_head_run() && runs.len() > 1 {
        let q = runs[1].offset as int;
        let e = runs[0].end_pos();
        assert(runs[0].end_pos() < runs[1].offset);
        assert(runs[1].covers(q));
        lemma_apart_byte(runs, q, 1);
        lemma_run_bytes(state, 0);
        assert(state.held(q));
        assert(!state.held(e));
    }
}

/// Append `other[from..]` to `v`.
fn append_from(v: &mut Vec<u8>, other: &[u8], from: usize)
    requires
        from <= other@.len(),
    ensures
        final(v)@ == old(v)@ + other@.subrange(from as int, other@.len() as int),
{
    let ghost before = v@;
    let n: usize = other.len();
    v.extend_from_slice(&other[from..n]);
    assert(v@ =~= before + other@.subrange(from as int, other@.len() as int));
}

/// All bytes from `offset` through `p` are held exactly when one run covers
/// both ends.
proof fn lemma_held_range_is_one_run(state: BufferState, offset: int, p: int)
    requires
        state.wf(),
        offset <= p,
    ensures
        state.held_range(offset, p + 1) <==> exists|j: int|
            0 <= j < state.segments@.len() && (#[trigger] state.segments@[j]).covers(offset)
                && state.segments@[j].covers(p),
{
    let runs = state.segments@;
    if exists|j: int|
        0 <= j < runs.len() && (#[trigger] runs[j]).covers(offset) && runs[j].covers(p) {
        let j = choose|j: int|
            0 <= j < runs.len() && (#[trigger] runs[j]).covers(offset) && runs[j].covers(p);
        assert forall|q: int| offset <= q < p + 1 implies #[trigger] state.held(q) by {
            lemma_apart_byte(runs, q, j);
        }
    }
    if state.held_range(offset, p + 1) {
        lemma_cover_index(runs, offset);
        let j = cover_index(runs, offset);
        assert(state.held(offset));
        if !runs[j].covers(p) {
            let e = runs[j].end_pos();
            assert(offset <= e < p + 1);
            assert(state.held(e));
            lemma_cover_index(runs, e);
            let k = cover_index(runs, e);
            if k < j {
                assert(runs[k].end_pos() < runs[j].offset);
            } else if k > j {
                assert(runs[j].end_pos() < runs[k].offset);
            }
        }
    }
}

/// Extending the run that ends at `offset` by `chunk`.
proof fn lemma_append_run(
    runs: Seq<BufferSegment>,
    i: int,
    offset: u64,
    chunk: Seq<u8>,
    after: Seq<BufferSegment>,
)
    requires
        runs_fit(runs),
        runs_apart(runs),
        0 <= i < runs.len(),
        runs[i].end_pos() == offset,
        chunk.len() > 0,
        offset + chunk.len() <= u64::MAX,
        after.len() == runs.len(),
        after[i].offset == runs[i].offset,
        after[i].data@ == runs[i].data@ + chunk,
        forall|j: int| 0 <= j < runs.len() && j != i ==> #[trigger] after[j] == runs[j],
    ensures
        runs_fit(after),
        runs_sorted(after),
        forall|j: int| 0 <= j < runs.len() ==> !(#[trigger] runs[j]).covers(offset as int),
        forall|p: int|
            byte_in(after, p) == if offset <= p < offset + chunk.len() {
                Some(chunk[p - offset])
            } else {
                byte_in(runs, p)
            },
{
    assert forall|a: int, b: int|
        #![trigger after[a], after[b]]
        0 <= a < b < after.len() implies after[a].offset <= after[b].offset by {
        assert(runs[a].end_pos() < runs[b].offset);
    }
    assert forall|j: int| 0 <= j < runs.len() implies !(#[trigger] runs[j]).covers(
        offset as int,
    ) by {
        if j < i {
            assert(runs[j].end_pos() < runs[i].offset);
        } else if j > i {
            assert(runs[i].end_pos() < runs[j].offset);
        }
    }
    assert forall|p: int|
        byte_in(after, p) == if offset <= p < offset + chunk.len() {
            Some(chunk[p - offset])
        } else {
            byte_in(runs, p)
        } by {
        if offset <= p < offset + chunk.len() {
            assert(after[i].covers(p));
            assert(after[i].at(p) == chunk[p - offset]);
            assert forall|j: int| 0 <= j < i implies !(#[trigger] after[j]).covers(p) by {
                assert(runs[j].end_pos() < runs[i].offset);
            }
            lemma_byte_in_is(after, p, i);
        } else {
            lemma_cover_index(runs, p);
            let k = cover_index(runs, p);
            assert forall|j: int| 0 <= j < k && j < after.len() implies !(
            #[trigger] after[j]).covers(p) by {
                assert(!runs[j].covers(p));
            }
            if k < runs.len() {
                assert(after[k].covers(p));
                lemma_byte_in_is(after, p, k);
            } else {
                lemma_byte_in_none(after, p);
            }
        }
    }
}

/// Placing a new run behind those that start at or before it.
proof fn lemma_new_run(
    runs: Seq<BufferSegment>,
    at: int,
    offset: u64,
    chunk: Seq<u8>,
    seg: BufferSegment,
    after: Seq<BufferSegment>,
)
    requires
        runs_fit(runs),
        runs_apart(runs),
        0 <= at <= runs.len(),
        forall|j: int| 0 <= j < at ==> (#[trigger] runs[j]).offset <= offset,
        at < runs.len() ==> runs[at].offset > offset,
        chunk.len() > 0,
        offset + chunk.len() <= u64::MAX,
        seg.offset == offset,
        seg.data@ == chunk,
        after == runs.insert(at, seg),
    ensures
        runs_fit(after),
        runs_sorted(after),
        forall|p: int|
            byte_in(after, p) == if offset <= p < offset + chunk.len() && !(exists|j: int|
                0 <= j < runs.len() && (#[trigger] runs[j]).covers(offset as int)
                    && runs[j].covers(p)) {
                Some(chunk[p - offset])
            } else {
                byte_in(runs, p)
            },
{
    assert forall|j: int| at <= j < runs.len() implies (#[trigger] runs[j]).offset > offset by {
        if j > at {
            assert(runs[at].end_pos() < runs[j].offset);
        }
    }
    assert forall|j: int| 0 <= j < after.len() implies #[trigger] after[j] == (if j < at {
        runs[j]
    } else if j == at {
        seg
    } else {
        runs[j - 1]
    }) by {}
    assert forall|a: int, b: int|
        #![trigger after[a], after[b]]
        0 <= a < b < after.len() implies after[a].offset <= after[b].offset by {
        let ra = if a <= at { a } else { a - 1 };
        let rb = if b <= at { b } else { b - 1 };
        if a != at && b != at {
            assert(runs[ra].end_pos() < runs[rb].offset);
        }
    }
    assert forall|p: int|
        byte_in(after, p) == if offset <= p < offset + chunk.len() && !(exists|j: int|
            0 <= j < runs.len() && (#[trigger] runs[j]).covers(offset as int) && runs[j].covers(
                p,
            )) {
            Some(chunk[p - offset])
        } else {
            byte_in(runs, p)
        } by {
        lemma_cover_index(runs, p);
        let k = cover_index(runs, p);
        assert forall|j: int| 0 <= j < at && j < k implies !(#[trigger] after[j]).covers(p) by {
            assert(!runs[j].covers(p));
        }
        if k < at {
            assert(after[k].covers(p));
            lemma_byte_in_is(after, p, k);
            if offset <= p {
                assert(runs[k].covers(offset as int));
            }
        } else if seg.covers(p) {
            lemma_byte_in_is(after, p, at);
            assert forall|j: int|
                0 <= j < runs.len() && (#[trigger] runs[j]).covers(offset as int) implies !(
            runs[j].covers(p)) by {
                assert(j < at);
            }
        } else {
            assert forall|j: int| 0 <= j < k + 1 && j < after.len() implies !(
            #[trigger] after[j]).covers(p) by {
                if j > at {
                    assert(!runs[j - 1].covers(p));
                }
            }
            if k < runs.len() {
                assert(after[k + 1].covers(p));
                lemma_byte_in_is(after, p, k + 1);
            } else {
                lemma_byte_in_none(after, p);
            }
        }
    }
}

} // verus!
