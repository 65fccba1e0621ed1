//! The HTTP streaming feeder: what a probe of a remote track says, and how the
//! body pump moves between ranges, retries and the end of the track.

use vstd::prelude::*;
use vstd::string::*;

use crate::media_source::{BufferWriter, FetchPlan};
use crate::stream_buffer::BufferState;
use crate::text::{lowered_has_text, parse_u64};

verus! {

/// Format of a remote track, as its first bytes tell.
#[derive(Debug, Clone, Copy, PartialEq, Eq, Structural)]
pub struct StreamFormat {
    pub sample_rate: u32,
    pub channels: u16,
    pub bit_depth: u32,
}

/// Why a probe failed.
#[derive(Debug, Clone, Copy, PartialEq, Eq, Structural)]
pub enum ProbeError {
    HeadStatus(u16),
    MissingContentLength,
    RangeStatus(u16),
}

/// The range that a probe asks for.
pub const PROBE_RANGE: &'static str = "bytes=0-65535";

/// An HTTP status that reports success.
pub open spec fn success_status(status: u16) -> bool {
    200 <= status < 300
}

/// Whether an HTTP status reports success.
pub fn is_success_status(status: u16) -> (r: bool)
    ensures
        r == success_status(status),
{
    200 <= status && status < 300
}

/// The bytes open a FLAC stream, far enough to hold its stream information.
pub open spec fn has_flac_info(bytes: Seq<u8>) -> bool {
    bytes.len() >= 26 && bytes[0] == 0x66 && bytes[1] == 0x4c && bytes[2] == 0x61 && bytes[3]
        == 0x43
}

/// The format of a stream that opens with `bytes`: what a FLAC header states,
/// or CD stereo for anything else. The stream information packs a 20-bit
/// sample rate, three bits of channels less one and five bits of depth less
/// one from byte 18 on.
pub open spec fn sniffed_format(bytes: Seq<u8>) -> StreamFormat {
    if has_flac_info(bytes) {
        StreamFormat {
            sample_rate: (bytes[18] * 4096 + bytes[19] * 16 + bytes[20] / 16) as u32,
            channels: ((bytes[20] / 2) % 8 + 1) as u16,
            bit_depth: ((bytes[20] % 2) * 16 + bytes[21] / 16 + 1) as u32,
        }
    } else {
        StreamFormat { sample_rate: 44_100, channels: 2, bit_depth: 16 }
    }
}

/// The format of a stream from its first bytes.
pub fn sniff_format(bytes: &[u8]) -> (r: StreamFormat)
    ensures
        r == sniffed_format(bytes@),
{
    if bytes.len() >= 26 && bytes[0] == 0x66 && bytes[1] == 0x4c && bytes[2] == 0x61 && bytes[3]
        == 0x43 {
        let rate_channels: u32 = bytes[20] as u32;
        StreamFormat {
            sample_rate: (bytes[18] as u32) * 4096 + (bytes[19] as u32) * 16 + rate_channels / 16,
            channels: ((bytes[20] / 2) % 8 + 1) as u16,
            bit_depth: (rate_channels % 2) * 16 + (bytes[21] as u32) / 16 + 1,
        }
    } else {
        StreamFormat { sample_rate: 44_100, channels: 2, bit_depth: 16 }
    }
}

/// What a HEAD reply says of the track's size.
pub fn probe_size(status: u16, content_length: Option<&str>) -> (r: Result<u64, ProbeError>)
    ensures
        r == (if !success_status(status) {
            Err(ProbeError::HeadStatus(status))
        } else {
            match content_length {
                Some(text) => match crate::text::spelled_u64(text@) {
                    Some(size) => Ok(size),
                    None => Err(ProbeError::MissingContentLength),
                },
                None => Err(ProbeError::MissingContentLength),
            }
        }),
{
    if !is_success_status(status) {
        return Err(ProbeError::HeadStatus(status));
    }
    match content_length {
        Some(text) => match parse_u64(text) {
            Some(size) => Ok(size),
            None => Err(ProbeError::MissingContentLength),
        },
        None => Err(ProbeError::MissingContentLength),
    }
}

/// What the reply to the request for the first bytes says of the format.
pub fn probe_format(status: u16, bytes: &[u8]) -> (r: Result<StreamFormat, ProbeError>)
    ensures
        r == (if success_status(status) {
            Ok(sniffed_format(bytes@))
        } else {
            Err(ProbeError::RangeStatus(status))
        }),
{
    if is_success_status(status) {
        Ok(sniff_format(bytes))
    } else {
        Err(ProbeError::RangeStatus(status))
    }
}

/// Why the body loop stopped.
#[derive(Debug, Clone, Copy, PartialEq, Eq, Structural)]
pub enum BodyEnd {
    /// The body ran out: the plan is filled, or the server closed early.
    Ended,
    /// A reader wants a different offset.
    Restart(FetchPlan),
    /// The body broke mid-flight.
    Failed,
}

/// Why a feeder gave up.
#[derive(Debug, Clone, Copy, PartialEq, Eq, Structural)]
pub enum FeedError {
    /// The server refused the request.
    Status(u16),
    /// The body broke again and again at this byte with nothing read.
    BodyFailed { offset: u64 },
    /// The body closed again and again at this byte with nothing read.
    NoProgress { offset: u64, empty_bodies: u32 },
}

/// What the feeder does next, between two bodies.
#[derive(Debug, Clone, Copy, PartialEq, Eq, Structural)]
pub enum FeedStep {
    /// Open the body its plan names.
    Open,
    /// The track is done, and its readers have been told.
    Done,
    Fail(FeedError),
}

/// Bodies in a row that yield nothing before the feeder gives up.
pub const MAX_BARREN_BODIES: u32 = 3;

/// The state of a range-aware body pump.
pub struct Feeder {
    pub writer: BufferWriter,
    /// The range being fetched.
    pub plan: FetchPlan,
    /// Offset the current body's first byte belongs at.
    pub body_start: u64,
    /// Bytes after which the current body has filled its plan.
    pub plan_limit: Option<u64>,
    /// Bytes read from the current body.
    pub body_bytes: u64,
    /// Bytes read from every body so far.
    pub bytes_received: u64,
    /// Bodies that produced nothing since the last one that did.
    pub barren_bodies: u32,
}

impl Feeder {
    /// A feeder about to open the whole file.
    pub fn new(writer: BufferWriter) -> (r: Self)
        ensures
            r == (Feeder {
                writer,
                plan: FetchPlan { offset: 0, end: None },
                body_start: 0,
                plan_limit: None,
                body_bytes: 0,
                bytes_received: 0,
                barren_bodies: 0,
            }),
    {
        let plan = writer.initial_plan();
        Feeder {
            writer,
            plan,
            body_start: 0,
            plan_limit: None,
            body_bytes: 0,
            bytes_received: 0,
            barren_bodies: 0,
        }
    }

    /// The `Range` header of the request for the current plan; none for the
    /// whole file.
    pub fn request_range(&self) -> (r: Option<String>)
        ensures
            r is None <==> self.plan.offset == 0 && self.plan.end is None,
            r matches Some(header) ==> header@ == self.plan.header(),
    {
        if self.plan.is_whole_file() {
            None
        } else {
            Some(self.plan.range_header())
        }
    }

    /// Only a partial-content reply starts where it was asked to; any other
    /// success is the whole file.
    pub open spec fn honors_range(self, status: u16) -> bool {
        self.plan.offset == 0 && self.plan.end is None || status == 206
    }

    /// The reply to the current request arrived. A reply that ignored the
    /// range is the whole file: its body starts at byte 0 and has no bound.
    /// Either way the write head stands where the body starts, so that no byte
    /// is taken for one at another offset.
    pub fn on_response(&mut self, state: &mut BufferState, status: u16) -> (r: Result<
        (),
        FeedError,
    >)
        ensures
            r == (if success_status(status) {
                Ok::<(), FeedError>(())
            } else {
                Err(FeedError::Status(status))
            }),
            !success_status(status) ==> *final(self) == *old(self) && *final(state) == *old(state),
            success_status(status) ==> {
                let honored = old(self).honors_range(status);
                &&& (*final(self)) == (Feeder {
                    body_start: if honored {
                        old(self).plan.offset
                    } else {
                        0
                    },
                    plan_limit: match old(self).plan.end {
                        Some(end) => if !honored {
                            None
                        } else if end >= old(self).plan.offset {
                            Some((end - old(self).plan.offset) as u64)
                        } else {
                            Some(0)
                        },
                        None => None,
                    },
                    body_bytes: 0,
                    ..*old(self)
                })
                &&& (*final(state)) == (if honored && old(state).write_pos == old(
                    self).plan.offset {
                    *old(state)
                } else {
                    BufferState {
                        range_start: final(self).body_start,
                        write_pos: final(self).body_start,
                        ..*old(state)
                    }
                })
                &&& final(state).write_pos == final(self).broke_at()
            },
    {
        if !is_success_status(status) {
            return Err(FeedError::Status(status));
        }
        let honored = self.plan.is_whole_file() || status == 206;
        self.body_start = if honored {
            self.plan.offset
        } else {
            0
        };
        if !honored || state.write_pos != self.body_start {
            self.writer.begin_at(state, self.body_start);
        }
        self.plan_limit = if honored {
            self.plan.byte_len()
        } else {
            None
        };
        self.body_bytes = 0;
        Ok(())
    }

    /// A reader jumped, or the last one went away: the range to restart at, if
    /// there is one.
    pub fn on_wake(&self, state: &mut BufferState) -> (r: Option<BodyEnd>)
        ensures
            match old(state).pending_request {
                Some(offset) => {
                    &&& r == Some(BodyEnd::Restart(FetchPlan { offset, end: None }))
                    &&& (*final(state)) == (BufferState {
                        pending_request: None,
                        range_start: offset,
                        write_pos: offset,
                        ..*old(state)
                    })
                },
                None => r is None && *final(state) == *old(state),
            },
    {
        match self.writer.take_request(state) {
            Some(next) => Some(BodyEnd::Restart(next)),
            None => None,
        }
    }

    /// A chunk of the current body arrived: push it, and stop the body once
    /// its plan is filled or a reader wants another offset.
    pub fn on_chunk(&mut self, state: &mut BufferState, chunk: &[u8]) -> (r: Option<BodyEnd>)
        requires
            old(state).wf(),
            old(state).write_pos + chunk@.len() <= u64::MAX,
            old(self).body_bytes + chunk@.len() <= u64::MAX,
            old(self).bytes_received + chunk@.len() <= u64::MAX,
        ensures
            final(state).wf(),
            old(state).merged_into(*final(state), old(state).write_pos, chunk@),
            (*final(self)) == (Feeder {
                body_bytes: (old(self).body_bytes + chunk@.len()) as u64,
                bytes_received: (old(self).bytes_received + chunk@.len()) as u64,
                ..*old(self)
            }),
            ({
                let filled = old(self).plan_limit is Some && old(self).plan_limit->0
                    <= old(self).body_bytes + chunk@.len();
                match old(state).pending_request {
                    Some(offset) => if filled {
                        r == Some(BodyEnd::Ended)
                    } else {
                        r == Some(BodyEnd::Restart(FetchPlan { offset, end: None }))
                    },
                    None => r == (if filled {
                        Some(BodyEnd::Ended)
                    } else {
                        None
                    }),
                }
            }),
            final(state).same_but_segments(
                (match r {
                    Some(BodyEnd::Restart(next)) => BufferState {
                        pending_request: None,
                        range_start: next.offset,
                        write_pos: next.offset,
                        ..*old(state)
                    },
                    _ => BufferState {
                        write_pos: (old(state).write_pos + chunk@.len()) as u64,
                        ..*old(state)
                    },
                }),
            ),
            r is None && old(state).write_pos == old(self).broke_at() ==> final(state).write_pos
                == final(self).broke_at(),
    {
        self.bytes_received = self.bytes_received + chunk.len() as u64;
        self.body_bytes = self.body_bytes + chunk.len() as u64;
        self.writer.push_chunk(state, chunk);
        let ghost pushed = *state;
        if let Some(limit) = self.plan_limit {
            if self.body_bytes >= limit {
                return Some(BodyEnd::Ended);
            }
        }
        let r = self.on_wake(state);
        proof {
            assert forall|p: int| #![trigger state.byte_at(p)] state.byte_at(p) == pushed.byte_at(
                p,
            ) by {}
        }
        r
    }

    /// The barren-body count after the current body stopped.
    pub open spec fn barren_after(self) -> int {
        if self.body_bytes > 0 {
            0
        } else {
            self.barren_bodies + 1
        }
    }

    /// Offset the current body's next byte belongs at.
    pub open spec fn broke_at(self) -> int {
        self.body_start + self.body_bytes
    }

    /// The current body delivered all its plan asked for.
    pub open spec fn plan_filled(self) -> bool {
        self.plan.end is Some && self.broke_at() >= self.plan.end->0
    }

    /// Whether the next body comes from the buffer's own plan: the current one
    /// ended with something read, or broke with its plan filled.
    pub open spec fn moves_on(self, end: BodyEnd) -> bool {
        match end {
            BodyEnd::Ended => self.barren_after() == 0,
            BodyEnd::Failed => self.barren_after() < MAX_BARREN_BODIES && self.plan_filled(),
            BodyEnd::Restart(_) => false,
        }
    }

    /// The current body stopped: decide what to fetch next.
    ///
    /// A reader's jump is followed at once. A body that broke is re-opened at
    /// the byte it died on, unless a reader wants another offset. A body that
    /// closed with nothing read is opened again. Only a streak of bodies that
    /// yield nothing gives up. When the buffer has nothing left to fetch, the
    /// download is marked complete.
    pub fn on_body_end(&mut self, state: &mut BufferState, end: BodyEnd) -> (r: FeedStep)
        requires
            old(state).wf(),
            old(self).barren_bodies < u32::MAX,
            old(self).body_start + old(self).body_bytes <= u64::MAX,
        ensures
            final(state).wf(),
            final(state).segments == old(state).segments,
            final(self).barren_bodies == old(self).barren_after(),
            (*final(self)) == (Feeder {
                plan: final(self).plan,
                barren_bodies: final(self).barren_bodies,
                ..*old(self)
            }),
            end matches BodyEnd::Restart(next) ==> {
                &&& r == FeedStep::Open
                &&& final(self).plan == next
                &&& *final(state) == *old(state)
            },
            end == BodyEnd::Failed && old(self).barren_after() >= MAX_BARREN_BODIES ==> {
                &&& r == FeedStep::Fail(FeedError::BodyFailed { offset: old(self).plan.offset })
                &&& final(self).plan == old(self).plan
                &&& *final(state) == *old(state)
            },
            end == BodyEnd::Failed && old(self).barren_after() < MAX_BARREN_BODIES && !old(
                self).plan_filled() ==> {
                let (next, after) = match old(state).pending_request {
                    Some(offset) => (
                        FetchPlan { offset, end: None },
                        BufferState { pending_request: None, ..*old(state) },
                    ),
                    None => (
                        FetchPlan { offset: old(self).broke_at() as u64, end: old(self).plan.end },
                        *old(state),
                    ),
                };
                &&& r == FeedStep::Open
                &&& final(self).plan == next
                &&& (*final(state)) == (BufferState {
                    range_start: next.offset,
                    write_pos: next.offset,
                    ..after
                })
            },
            end == BodyEnd::Ended && 0 < old(self).barren_after() < MAX_BARREN_BODIES ==> {
                &&& r == FeedStep::Open
                &&& final(self).plan == old(self).plan
                &&& *final(state) == *old(state)
            },
            end == BodyEnd::Ended && old(self).barren_after() >= MAX_BARREN_BODIES ==> {
                &&& r == FeedStep::Fail(
                    FeedError::NoProgress {
                        offset: old(self).plan.offset,
                        empty_bodies: old(self).barren_after() as u32,
                    },
                )
                &&& final(self).plan == old(self).plan
                &&& *final(state) == *old(state)
            },
            old(self).moves_on(end) ==> {
                &&& r == FeedStep::Open || r == FeedStep::Done
                &&& old(state).readers == 0 || old(state).download_error is Some ==> r
                    == FeedStep::Done && (*final(state)) == (BufferState {
                    download_complete: true,
                    ..*old(state)
                })
                &&& old(state).readers > 0 && old(state).download_error is None ==> {
                    match old(state).pending_request {
                        Some(offset) => {
                            &&& r == FeedStep::Open
                            &&& final(self).plan == (FetchPlan { offset, end: None })
                            &&& (*final(state)) == (BufferState {
                                pending_request: None,
                                range_start: offset,
                                write_pos: offset,
                                ..*old(state)
                            })
                        },
                        None => if r == FeedStep::Open {
                            &&& old(state).seek_mode
                                == crate::stream_config::StreamSeekMode::RangeRequests
                            &&& old(state).is_first_gap(final(self).plan)
                            &&& (*final(state)) == (BufferState {
                                range_start: final(self).plan.offset,
                                write_pos: final(self).plan.offset,
                                ..*old(state)
                            })
                        } else {
                            &&& old(state).seek_mode
                                == crate::stream_config::StreamSeekMode::RangeRequests
                                ==> !old(state).has_gap()
                            &&& (*final(state)) == (BufferState {
                                download_complete: true,
                                ..*old(state)
                            })
                        },
                    }
                }
                &&& r == FeedStep::Done ==> final(self).plan == old(self).plan
            },
            r == FeedStep::Open && (end == BodyEnd::Failed || old(self).moves_on(end)) ==> final(
                state).write_pos == final(self).plan.offset,
    {
        if self.body_bytes > 0 {
            self.barren_bodies = 0;
        } else {
            self.barren_bodies = self.barren_bodies + 1;
        }
        match end {
            BodyEnd::Restart(next) => {
                self.plan = next;
                return FeedStep::Open;
            },
            BodyEnd::Failed => {
                if self.barren_bodies >= MAX_BARREN_BODIES {
                    return FeedStep::Fail(FeedError::BodyFailed { offset: self.plan.offset });
                }
                let resume_from: u64 = self.body_start + self.body_bytes;
                let filled = match self.plan.end {
                    Some(end) => resume_from >= end,
                    None => false,
                };
                if !filled {
                    match self.writer.take_request(state) {
                        Some(next) => {
                            self.plan = next;
                        },
                        None => {
                            self.plan = FetchPlan { offset: resume_from, end: self.plan.end };
                            self.writer.begin_at(state, resume_from);
                        },
                    }
                    return FeedStep::Open;
                }
            },
            BodyEnd::Ended => {
                if self.barren_bodies > 0 && self.barren_bodies < MAX_BARREN_BODIES {
                    return FeedStep::Open;
                }
                if self.barren_bodies >= MAX_BARREN_BODIES {
                    return FeedStep::Fail(
                        FeedError::NoProgress {
                            offset: self.plan.offset,
                            empty_bodies: self.barren_bodies,
                        },
                    );
                }
            },
        }
        match self.writer.next_plan(state) {
            Some(next) => {
                self.plan = next;
                FeedStep::Open
            },
            None => {
                self.writer.complete(state);
                FeedStep::Done
            },
        }
    }

    /// The feeder stopped without finishing the track: its readers get an
    /// error, unless a more specific one is already recorded.
    pub fn abort(&self, state: &mut BufferState)
        ensures
            final(state).download_error is Some,
            old(state).download_error is Some ==> *final(state) == *old(state),
            old(state).download_error is None ==> {
                &&& final(state).download_error->0@ == "remote stream aborted before completion"@
                &&& (*final(state)) == (BufferState {
                    download_error: final(state).download_error,
                    ..*old(state)
                })
            },
    {
        let message = String::from_str("remote stream aborted before completion");
        self.writer.error(state, message);
    }
}

/// No byte is taken for one at another offset: whether the server sent the range
/// that was asked for or the whole file in its place, a chunk of the body leaves
/// the buffer with bytes of the file alone. A reply puts the write head where its
/// body starts, and a chunk keeps it where the body stands.
pub proof fn law_a_feeder_feeds_its_file(
    feeder: Feeder,
    before: BufferState,
    after: BufferState,
    file: Seq<u8>,
    chunk: Seq<u8>,
)
    requires
        before.agrees_with(file),
        before.write_pos == feeder.broke_at(),
        feeder.broke_at() + chunk.len() <= file.len(),
        chunk == file.subrange(feeder.broke_at(), feeder.broke_at() + chunk.len()),
        before.merged_into(after, before.write_pos, chunk),
    ensures
        after.agrees_with(file),
{
    crate::stream_laws::law_a_buffer_holds_only_its_file(
        before,
        after,
        file,
        before.write_pos,
        chunk,
    );
}

/// The causes of a failure, joined from the outermost inwards with `": "`.
pub open spec fn joined_causes(causes: Seq<String>) -> Seq<char>
    decreases causes.len(),
{
    if causes.len() == 0 {
        Seq::empty()
    } else if causes.len() == 1 {
        causes[0]@
    } else {
        joined_causes(causes.drop_last()) + ": "@ + causes.last()@
    }
}

/// Join an error with the chain of what caused it, so that both a reader of
/// logs and a signature match see the real cause.
pub fn describe_error_chain(causes: &Vec<String>) -> (r: String)
    ensures
        r@ == joined_causes(causes@),
{
    if causes.len() == 0 {
        return String::new();
    }
    let mut out: String = causes[0].clone();
    let mut i: usize = 1;
    assert(causes@.take(1).len() == 1);
    while i < causes.len()
        invariant
            1 <= i <= causes@.len(),
            out@ == joined_causes(causes@.take(i as int)),
        decreases causes@.len() - i,
    {
        out.append(": ");
        out.append(causes[i].as_str());
        proof {
            assert(causes@.take(i + 1).drop_last() =~= causes@.take(i as int));
        }
        i = i + 1;
    }
    assert(causes@.take(causes@.len() as int) =~= causes@);
    out
}

/// The message shows the client's cap on response headers being hit.
pub open spec fn names_header_flood(message: Seq<char>) -> bool {
    crate::text::has_text(crate::text::lowered(message), "message head is too large"@)
        || crate::text::has_text(crate::text::lowered(message), "too many headers"@)
}

/// True when an error message shows the client's cap on response headers being
/// hit: every further request for that object will fail the same way.
pub fn is_header_flood_error(message: &str) -> (r: bool)
    ensures
        r == names_header_flood(message@),
{
    lowered_has_text(message, "message head is too large") || lowered_has_text(
        message,
        "too many headers",
    )
}

} // verus!
