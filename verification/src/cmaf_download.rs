//! Bookkeeping of a segmented download: which failures are tried again, segment
//! order, paced writes to disk, and what makes the file worth publishing.

use vstd::prelude::*;
use vstd::string::*;

use crate::remote_stream::is_success_status;
use crate::text::append_decimal;

verus! {

/// A failure that may pass: a server in trouble, or one asked too often. Any other
/// refusal is final.
pub open spec fn passing_status(status: u16) -> bool {
    500 <= status < 600 || status == 429
}

/// Whether a refusal may pass.
pub fn is_transient_status(status: u16) -> (r: bool)
    ensures
        r == passing_status(status),
{
    (500 <= status && status < 600) || status == 429
}

/// What came of one attempt to fetch a file.
#[derive(Debug)]
pub enum FetchAttempt {
    Response { status: u16, body: Vec<u8> },
    /// The network failed before the whole reply was there.
    Network(String),
}

/// Why a fetch failed for good.
#[derive(Debug)]
pub enum FetchFailure {
    Status(u16),
    Network(String),
}

/// What a fetch does next.
#[derive(Debug)]
pub enum FetchStep {
    /// Try again, after a pause that grows with the attempts that failed.
    Retry { failed: u32 },
    Done(Vec<u8>),
    GiveUp(FetchFailure),
}

/// A fetch that is tried again while its failures may pass. One failed segment
/// does not cost the whole track.
#[derive(Debug, Clone, Copy, PartialEq, Eq, Structural)]
pub struct FetchRun {
    pub failed: u32,
    pub max_attempts: u32,
}

impl FetchRun {
    pub fn new(max_attempts: u32) -> (r: Self)
        ensures
            r == (FetchRun { failed: 0, max_attempts }),
    {
        FetchRun { failed: 0, max_attempts }
    }

    /// Another attempt is left after one more failure.
    pub open spec fn may_retry(self) -> bool {
        self.failed + 1 < self.max_attempts
    }

    /// Take in what came of an attempt.
    pub fn step(&mut self, attempt: FetchAttempt) -> (r: FetchStep)
        ensures
            final(self).max_attempts == old(self).max_attempts,
            match attempt {
                FetchAttempt::Response { status, body } => {
                    if crate::remote_stream::success_status(status) {
                        r == FetchStep::Done(body) && *final(self) == *old(self)
                    } else if passing_status(status) && old(self).may_retry() {
                        &&& r == (FetchStep::Retry { failed: (old(self).failed + 1) as u32 })
                        &&& final(self).failed == old(self).failed + 1
                    } else {
                        &&& r == FetchStep::GiveUp(FetchFailure::Status(status))
                        &&& *final(self) == *old(self)
                    }
                },
                FetchAttempt::Network(why) => {
                    if old(self).may_retry() {
                        &&& r == (FetchStep::Retry { failed: (old(self).failed + 1) as u32 })
                        &&& final(self).failed == old(self).failed + 1
                    } else {
                        &&& r == FetchStep::GiveUp(FetchFailure::Network(why))
                        &&& *final(self) == *old(self)
                    }
                },
            },
    {
        let may_retry = self.max_attempts > 0 && self.failed < self.max_attempts - 1;
        match attempt {
            FetchAttempt::Response { status, body } => {
                if is_success_status(status) {
                    FetchStep::Done(body)
                } else if is_transient_status(status) && may_retry {
                    self.failed = self.failed + 1;
                    FetchStep::Retry { failed: self.failed }
                } else {
                    FetchStep::GiveUp(FetchFailure::Status(status))
                }
            },
            FetchAttempt::Network(why) => {
                if may_retry {
                    self.failed = self.failed + 1;
                    FetchStep::Retry { failed: self.failed }
                } else {
                    FetchStep::GiveUp(FetchFailure::Network(why))
                }
            },
        }
    }
}

/// Which segment a download consumes next. Decrypting out of order would be
/// silent corruption, so the order is checked rather than trusted.
#[derive(Debug)]
pub struct SegmentOrder {
    pub expected: u8,
}

impl SegmentOrder {
    /// Before the first audio segment.
    pub fn new() -> (r: Self)
        ensures
            r.expected == 1,
    {
        SegmentOrder { expected: 1 }
    }

    /// Take in the next segment, if it is the one expected.
    pub fn accept(&mut self, log_tag: &str, seg_idx: u8) -> (r: Result<(), String>)
        ensures
            match r {
                Ok(_) => {
                    &&& seg_idx == old(self).expected
                    &&& final(self).expected == (if old(self).expected == u8::MAX {
                        u8::MAX as int
                    } else {
                        old(self).expected + 1
                    })
                },
                Err(message) => {
                    &&& seg_idx != old(self).expected
                    &&& final(self).expected == old(self).expected
                    &&& message@ == "["@ + log_tag@ + "] segments arrived out of order: expected "@
                        + crate::text::decimal(old(self).expected as nat) + ", got "@
                        + crate::text::decimal(seg_idx as nat)
                },
            },
    {
        if seg_idx != self.expected {
            let mut message = String::from_str("[");
            message.append(log_tag);
            message.append("] segments arrived out of order: expected ");
            append_decimal(&mut message, self.expected as u64);
            message.append(", got ");
            append_decimal(&mut message, seg_idx as u64);
            return Err(message);
        }
        self.expected = self.expected.saturating_add(1);
        Ok(())
    }
}

/// A segment that has arrived, with its number.
pub struct ArrivedSegment {
    pub number: u8,
    pub data: Vec<u8>,
}

/// Segments in the order of their numbers.
pub open spec fn in_order(segments: Seq<ArrivedSegment>) -> bool {
    forall|i: int, j: int|
        #![trigger segments[i], segments[j]]
        0 <= i < j < segments.len() ==> segments[i].number <= segments[j].number
}

/// The segments with this number, in their order.
pub open spec fn numbered(segments: Seq<ArrivedSegment>, number: u8) -> Seq<ArrivedSegment> {
    segments.filter(|s: ArrivedSegment| s.number == number)
}

/// Put segments that arrived in any order into the order of their numbers. Those
/// with one number stay in the order they arrived in.
pub fn order_segments(arrived: Vec<ArrivedSegment>) -> (r: Vec<ArrivedSegment>)
    ensures
        in_order(r@),
        r@.to_multiset() == arrived@.to_multiset(),
        r@.len() == arrived@.len(),
        forall|n: u8| #[trigger] numbered(r@, n) == numbered(arrived@, n),
{
    let ghost all = arrived@;
    let mut rest = arrived;
    let mut sorted: Vec<ArrivedSegment> = Vec::new();
    proof {
        assert(sorted@ + all =~= all);
    }
    while rest.len() > 0
        invariant
            in_order(sorted@),
            (sorted@ + rest@).to_multiset() == all.to_multiset(),
            sorted@.len() + rest@.len() == all.len(),
            forall|n: u8| #[trigger] numbered(sorted@ + rest@, n) == numbered(all, n),
        decreases rest@.len(),
    {
        let ghost sorted0 = sorted@;
        let ghost rest0 = rest@;
        let next = rest.remove(0);
        let mut at: usize = sorted.len();
        while at > 0 && sorted[at - 1].number > next.number
            invariant
                at <= sorted@.len(),
                in_order(sorted@),
                forall|j: int|
                    at <= j < sorted@.len() ==> (#[trigger] sorted@[j]).number > next.number,
            decreases at,
        {
            at = at - 1;
        }
        proof {
            assert forall|j: int| 0 <= j < at implies (#[trigger] sorted@[j]).number
                <= next.number by {
                if j < at - 1 {
                    assert(sorted@[j].number <= sorted@[at - 1].number);
                }
            }
        }
        sorted.insert(at, next);
        proof {
            lemma_insert_multiset(sorted0, at as int, next);
            assert(rest0 =~= seq![next] + rest@);
            vstd::seq_lib::lemma_multiset_commutative(sorted0, rest0);
            vstd::seq_lib::lemma_multiset_commutative(seq![next], rest@);
            vstd::seq_lib::lemma_multiset_commutative(sorted@, rest@);
            vstd::seq_lib::lemma_multiset_commutative(sorted0, seq![next]);
            assert(sorted0.push(next) =~= sorted0 + seq![next]);
            assert((sorted@ + rest@).to_multiset() =~= (sorted0 + rest0).to_multiset());
            assert forall|n: u8| #[trigger] numbered(sorted@ + rest@, n) == numbered(all, n) by {
                lemma_insert_numbered(sorted0, at as int, next, rest@, n);
                assert(numbered(sorted0 + rest0, n) == numbered(all, n));
            }
            assert forall|i: int, j: int|
                #![trigger sorted@[i], sorted@[j]]
                0 <= i < j < sorted@.len() implies sorted@[i].number <= sorted@[j].number by {
                let si = if i < at { i } else { i - 1 };
                let sj = if j < at { j } else { j - 1 };
                if i != at && j != at {
                    assert(sorted0[si].number <= sorted0[sj].number);
                }
            }
        }
    }
    assert(sorted@ + rest@ =~= sorted@);
    sorted
}

/// A segment that goes behind its equals, out of the segments to come, changes the
/// order of no two with one number.
proof fn lemma_insert_numbered(
    s: Seq<ArrivedSegment>,
    at: int,
    a: ArrivedSegment,
    rest: Seq<ArrivedSegment>,
    n: u8,
)
    requires
        0 <= at <= s.len(),
        forall|j: int| at <= j < s.len() ==> (#[trigger] s[j]).number > a.number,
    ensures
        numbered(s.insert(at, a) + rest, n) == numbered(s + (seq![a] + rest), n),
{
    let pred = |x: ArrivedSegment| x.number == n;
    let front = s.subrange(0, at);
    let back = s.subrange(at, s.len() as int);
    assert(s =~= front + back);
    assert(s.insert(at, a) + rest =~= front + (seq![a] + (back + rest)));
    assert(s + (seq![a] + rest) =~= front + (back + (seq![a] + rest)));
    Seq::filter_distributes_over_add(front, seq![a] + (back + rest), pred);
    Seq::filter_distributes_over_add(seq![a], back + rest, pred);
    Seq::filter_distributes_over_add(back, rest, pred);
    Seq::filter_distributes_over_add(front, back + (seq![a] + rest), pred);
    Seq::filter_distributes_over_add(back, seq![a] + rest, pred);
    Seq::filter_distributes_over_add(seq![a], rest, pred);
    let other = if n == a.number { back } else { seq![a] };
    let kept = other.filter(pred);
    if kept.len() > 0 {
        other.lemma_filter_pred(pred, 0);
        other.lemma_filter_contains_rev(pred, kept[0]);
    }
    assert(kept =~= Seq::empty());
    assert(numbered(s.insert(at, a) + rest, n) =~= numbered(s + (seq![a] + rest), n));
}

proof fn lemma_insert_multiset(s: Seq<ArrivedSegment>, at: int, a: ArrivedSegment)
    requires
        0 <= at <= s.len(),
    ensures
        s.insert(at, a).to_multiset() == s.push(a).to_multiset(),
{
    let front = s.subrange(0, at);
    let back = s.subrange(at, s.len() as int);
    assert(s =~= front + back);
    assert(s.insert(at, a) =~= front + (seq![a] + back));
    assert(s.push(a) =~= front + (back + seq![a]));
    vstd::seq_lib::lemma_multiset_commutative(front, seq![a] + back);
    vstd::seq_lib::lemma_multiset_commutative(front, back + seq![a]);
    vstd::seq_lib::lemma_multiset_commutative(seq![a], back);
    vstd::seq_lib::lemma_multiset_commutative(back, seq![a]);
    assert(s.insert(at, a).to_multiset() =~= s.push(a).to_multiset());
}

/// A range of a file, as offset and length.
#[derive(Debug, Clone, Copy, PartialEq, Eq, Structural)]
pub struct FileRange {
    pub offset: usize,
    pub len: usize,
}

/// Paces writes to disk: one chunk is on its way out while the next is written,
/// so neither the card nor the page cache is ever flooded.
#[derive(Debug)]
pub struct WritePacer {
    pub written: usize,
    /// The range handed to the kernel last, still on its way out.
    pub in_flight: Option<FileRange>,
}

impl WritePacer {
    /// After the header has been written.
    pub fn new(header_len: usize) -> (r: Self)
        ensures
            r.written == header_len,
            r.in_flight is None,
    {
        WritePacer { written: header_len, in_flight: None }
    }

    /// A chunk has been written: the range to start writing out, and the one
    /// before it, to wait for.
    pub fn chunk_written(&mut self, len: usize) -> (r: (FileRange, Option<FileRange>))
        requires
            old(self).written + len <= usize::MAX,
        ensures
            r.0 == (FileRange { offset: old(self).written, len }),
            r.1 == old(self).in_flight,
            final(self).written == old(self).written + len,
            final(self).in_flight == Some(r.0),
    {
        let range = FileRange { offset: self.written, len };
        let previous = self.in_flight;
        self.written = self.written + len;
        self.in_flight = Some(range);
        (range, previous)
    }

    /// No more chunks: the range still to wait for, and the bytes written.
    pub fn finish(self) -> (r: (Option<FileRange>, usize))
        ensures
            r.0 == self.in_flight,
            r.1 == self.written,
    {
        (self.in_flight, self.written)
    }
}

/// Whether a track written straight to disk may be published: the writer and
/// the fetch both succeeded and the file is exactly as long as the segment
/// table said. A short file would decode as garbage on every later play.
pub fn finish_disk_download(
    track_id: u64,
    total_size: usize,
    written: Result<usize, String>,
    fetched: Result<(), String>,
) -> (r: Result<(), String>)
    ensures
        match written {
            Err(why) => r == Err::<(), String>(why),
            Ok(n) => match fetched {
                Err(why) => r == Err::<(), String>(why),
                Ok(_) => if n == total_size {
                    r is Ok
                } else {
                    r matches Err(message) && message@ == "CMAF-DISK track "@
                        + crate::text::decimal(track_id as nat) + ": wrote "@
                        + crate::text::decimal(n as nat) + " bytes, segment table said "@
                        + crate::text::decimal(total_size as nat)
                        + " -- refusing to publish a short file"@
                },
            },
        },
{
    let n: usize = match written {
        Ok(n) => n,
        Err(why) => return Err(why),
    };
    if let Err(why) = fetched {
        return Err(why);
    }
    if n != total_size {
        let mut message = String::from_str("CMAF-DISK track ");
        append_decimal(&mut message, track_id);
        message.append(": wrote ");
        append_decimal(&mut message, n as u64);
        message.append(" bytes, segment table said ");
        append_decimal(&mut message, total_size as u64);
        message.append(" -- refusing to publish a short file");
        return Err(message);
    }
    Ok(())
}

} // verus!
