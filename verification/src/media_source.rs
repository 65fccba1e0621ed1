//! The two ends of a streaming buffer: readers that consume it in playback
//! order, and the writer a feeder pushes downloaded bytes through.

use vstd::prelude::*;
use vstd::string::*;

use crate::stream_buffer::{BufferState, SEEK_LOOKBEHIND_BYTES};
use crate::stream_config::{StreamSeekMode, StreamingConfig};
use crate::text::append_decimal;

verus! {

/// A byte range the feeder should fetch.
#[derive(Debug, Clone, Copy, PartialEq, Eq, Structural)]
pub struct FetchPlan {
    /// First byte to fetch, inclusive.
    pub offset: u64,
    /// One past the last byte to fetch, or `None` to read to the end.
    pub end: Option<u64>,
}

impl FetchPlan {
    /// The `Range` header for this plan.
    pub open spec fn header(self) -> Seq<char> {
        let open = "bytes="@ + crate::text::decimal(self.offset as nat) + "-"@;
        match self.end {
            Some(end) => if end > self.offset {
                open + crate::text::decimal((end - 1) as nat)
            } else {
                open
            },
            None => open,
        }
    }

    /// Value for an HTTP `Range` header: `bytes=1234-` or `bytes=10-99`.
    pub fn range_header(&self) -> (r: String)
        ensures
            r@ == self.header(),
    {
        let mut out = String::from_str("bytes=");
        append_decimal(&mut out, self.offset);
        out.append("-");
        if let Some(end) = self.end {
            if end > self.offset {
                append_decimal(&mut out, end - 1);
            }
        }
        out
    }

    /// True when a plain unranged request would satisfy this plan.
    pub fn is_whole_file(&self) -> (r: bool)
        ensures
            r == (self.offset == 0 && self.end is None),
    {
        self.offset == 0 && self.end.is_none()
    }

    /// Bytes this plan asks for, or `None` when it runs to the end.
    pub fn byte_len(&self) -> (r: Option<u64>)
        ensures
            r == match self.end {
                Some(end) => Some(
                    if end >= self.offset {
                        (end - self.offset) as u64
                    } else {
                        0
                    },
                ),
                None => None,
            },
    {
        match self.end {
            Some(end) => Some(end.saturating_sub(self.offset)),
            None => None,
        }
    }
}

/// What went wrong with a stream operation.
#[derive(Debug, Clone, Copy, PartialEq, Eq, Structural)]
pub enum StreamErrorKind {
    /// The feeder reported a failure.
    Other,
    /// The byte will never arrive.
    UnexpectedEof,
    /// The stream cannot do this yet.
    Unsupported,
    /// The position lies outside the stream.
    InvalidInput,
}

/// A stream operation that failed.
#[derive(Debug)]
pub struct StreamError {
    pub kind: StreamErrorKind,
    pub message: String,
}

/// What a read attempt came to.
pub enum ReadStep {
    /// The bytes read; none of them means the end of the stream.
    Bytes(Vec<u8>),
    Failed(StreamError),
    /// Nothing to hand out yet: wait for the buffer to change and try again.
    /// `requested` says that the feeder was asked to come here and has to be
    /// woken.
    Wait { requested: bool },
}

/// Where to seek to.
pub enum SeekTarget {
    Start(u64),
    Current(i64),
    End(i64),
}

/// What a seek attempt came to.
pub enum SeekStep {
    /// The reader now stands here.
    At(u64),
    Failed(StreamError),
    /// The target is not readable yet: wait for the buffer to change and try
    /// again. `requested` says that the feeder has to be woken.
    Wait { requested: bool },
}

/// A position as a signed 64-bit quantity: one beyond the signed range lies
/// before the start.
pub open spec fn signed_position(position: u64) -> int {
    if position <= i64::MAX {
        position as int
    } else {
        position - 0x1_0000_0000_0000_0000
    }
}

fn as_signed(position: u64) -> (r: i128)
    ensures
        r == signed_position(position),
{
    if position <= i64::MAX as u64 {
        position as i128
    } else {
        position as i128 - 0x1_0000_0000_0000_0000
    }
}

/// A reader of the buffer, with its own read position.
pub struct BufferedMediaSource {
    pub config: StreamingConfig,
    pub read_pos: u64,
    /// This reader's id, against the buffer's newest.
    pub reader_id: u64,
}

impl BufferedMediaSource {
    /// A source whose feeder can only produce bytes in order, with the writer
    /// the feeder uses and the buffer between the two.
    pub fn new(config: StreamingConfig, total_size: Option<u64>) -> (r: (
        Self,
        BufferWriter,
        BufferState,
    ))
        ensures
            r.0.config == config,
            r.0.read_pos == 0,
            r.0.reader_id == 0,
            r.2.fresh(total_size, StreamSeekMode::Sequential),
    {
        Self::with_seek_mode(config, total_size, StreamSeekMode::Sequential)
    }

    /// A source whose feeder honors range requests, so reads may jump anywhere
    /// in the file for the cost of one request.
    pub fn new_seekable(config: StreamingConfig, total_size: Option<u64>) -> (r: (
        Self,
        BufferWriter,
        BufferState,
    ))
        ensures
            r.0.config == config,
            r.0.read_pos == 0,
            r.0.reader_id == 0,
            r.2.fresh(total_size, StreamSeekMode::RangeRequests),
    {
        Self::with_seek_mode(config, total_size, StreamSeekMode::RangeRequests)
    }

    pub fn with_seek_mode(
        config: StreamingConfig,
        total_size: Option<u64>,
        seek_mode: StreamSeekMode,
    ) -> (r: (Self, BufferWriter, BufferState))
        ensures
            r.0.config == config,
            r.0.read_pos == 0,
            r.0.reader_id == 0,
            r.2.fresh(total_size, seek_mode),
    {
        let source = BufferedMediaSource { config, read_pos: 0, reader_id: 0 };
        (source, BufferWriter {  }, BufferState::empty(total_size, seek_mode))
    }

    /// A new reader on the same buffer, at its start. It is the newest, so
    /// from now on it is the one that steers the feeder.
    pub fn create_reader(&self, state: &mut BufferState) -> (r: Self)
        requires
            old(state).readers < usize::MAX,
            old(state).reader_epoch < u64::MAX,
        ensures
            r.config == self.config,
            r.read_pos == 0,
            r.reader_id == old(state).reader_epoch + 1,
            (*final(state)) == (BufferState {
                readers: (old(state).readers + 1) as usize,
                reader_epoch: (old(state).reader_epoch + 1) as u64,
                ..*old(state)
            }),
    {
        state.readers = state.readers + 1;
        state.reader_epoch = state.reader_epoch + 1;
        BufferedMediaSource { config: self.config, read_pos: 0, reader_id: state.reader_epoch }
    }

    /// A reader goes away. True when it was the last one: a feeder waiting for
    /// work has to be woken so it notices.
    pub fn close(self, state: &mut BufferState) -> (r: bool)
        ensures
            (*final(state)) == (BufferState {
                readers: if old(state).readers == 0 {
                    0
                } else {
                    (old(state).readers - 1) as usize
                },
                ..*old(state)
            }),
            r == (final(state).readers == 0),
    {
        state.readers = state.readers.saturating_sub(1);
        state.readers == 0
    }

    /// Whether a seek on this buffer can jump straight to its target.
    pub fn supports_range_requests(&self, state: &BufferState) -> (r: bool)
        ensures
            r == (state.seek_mode == StreamSeekMode::RangeRequests),
    {
        state.seek_mode == StreamSeekMode::RangeRequests
    }

    /// Whether the initial buffer is full where playback starts.
    pub open spec fn initially_filled(self, state: BufferState) -> bool {
        state.held_range(
            state.primary_offset as int,
            state.primary_offset + self.config.initial_buffer_bytes,
        )
    }

    /// Whether the wait for the initial buffer is over, and how it ended;
    /// `None` while it goes on.
    pub fn wait_for_initial_buffer(&self, state: &BufferState) -> (r: Option<
        Result<(), StreamError>,
    >)
        requires
            state.wf(),
        ensures
            r is None <==> !self.initially_filled(*state) && !state.download_complete
                && state.download_error is None,
            r matches Some(Ok(_)) ==> state.download_error is None,
            r matches Some(Err(err)) ==> {
                &&& state.download_error is Some
                &&& err.kind == StreamErrorKind::Other
                &&& err.message@ == state.download_error->0@
            },
    {
        match &state.download_error {
            Some(err) => Some(
                Err(StreamError { kind: StreamErrorKind::Other, message: err.clone() }),
            ),
            None => {
                if self.filled(state) || state.download_complete {
                    Some(Ok(()))
                } else {
                    None
                }
            },
        }
    }

    fn filled(&self, state: &BufferState) -> (r: bool)
        requires
            state.wf(),
        ensures
            r == self.initially_filled(*state),
    {
        let have: u64 = state.contiguous_from(state.primary_offset);
        let want: u64 = self.config.initial_buffer_bytes as u64;
        proof {
            if have < want {
                assert(!state.held(state.primary_offset + have));
            }
        }
        have >= want
    }

    /// The feeder is done and did not fail.
    pub fn is_complete(&self, state: &BufferState) -> (r: bool)
        ensures
            r == (state.download_complete && state.download_error is None),
    {
        state.download_complete && state.download_error.is_none()
    }

    /// Total buffered bytes, across every downloaded run.
    pub fn buffer_size(&self, state: &BufferState) -> (r: u64)
        requires
            state.wf(),
        ensures
            r == crate::stream_buffer::total_len(state.segments@),
    {
        state.downloaded()
    }

    /// Bytes buffered contiguously from the start of the file.
    pub fn head_bytes(&self, state: &BufferState) -> (r: u64)
        requires
            state.wf(),
        ensures
            state.held_range(0, r as int),
            !state.held(r as int),
    {
        state.contiguous_from(0)
    }

    /// Offset playback reads from: 0, or the target of the last range request.
    pub fn primary_offset(&self, state: &BufferState) -> (r: u64)
        ensures
            r == state.primary_offset,
    {
        state.primary_offset
    }

    /// The whole file, when the download finished, did not fail and left no
    /// hole; `None` otherwise.
    pub fn take_complete_data(&self, state: &BufferState) -> (r: Option<Vec<u8>>)
        requires
            state.wf(),
        ensures
            r is Some <==> state.download_complete && state.download_error is None
                && state.is_one_head_run(),
            r matches Some(data) ==> state.holds_exactly(data@),
    {
        if !state.download_complete || state.download_error.is_some() {
            return None;
        }
        proof {
            crate::stream_buffer::lemma_one_head_run(*state);
        }
        if state.segments.len() != 1 {
            return None;
        }
        match state.head_run() {
            Some(seg) => {
                let data = copy_bytes(&seg.data);
                proof {
                    crate::stream_buffer::lemma_head_run_bytes(*state);
                }
                Some(data)
            },
            None => None,
        }
    }

    /// The contiguous run from byte 0, even when the download is not done.
    pub fn get_buffered_data(&self, state: &BufferState) -> (r: Option<Vec<u8>>)
        requires
            state.wf(),
        ensures
            r is Some <==> state.held(0),
            r matches Some(data) ==> {
                &&& forall|p: int| 0 <= p < data@.len() ==> state.byte_at(p) == Some(data@[p])
                &&& !state.held(data@.len() as int)
            },
    {
        proof {
            crate::stream_buffer::lemma_head_run_bytes(*state);
        }
        match state.head_run() {
            Some(seg) => Some(copy_bytes(&seg.data)),
            None => None,
        }
    }

    /// Whether enough is buffered for playback to start: the initial buffer is
    /// full from where playback starts, or the download is complete.
    pub fn has_min_buffer(&self, state: &BufferState) -> (r: bool)
        requires
            state.wf(),
        ensures
            r == (self.initially_filled(*state) || state.download_complete),
    {
        self.filled(state) || state.download_complete
    }

    /// Error reported by the feeder, if any.
    pub fn download_error(&self, state: &BufferState) -> (r: Option<String>)
        ensures
            r == state.download_error,
    {
        match &state.download_error {
            Some(err) => Some(err.clone()),
            None => None,
        }
    }

    /// This reader asks the feeder to come to `pos`: it is the newest, and a
    /// fresh request beats waiting.
    pub open spec fn asks(self, state: BufferState, pos: int) -> bool {
        self.reader_id == state.reader_epoch && state.wants_request(pos)
    }

    /// The buffer after this reader found nothing at `pos`.
    pub open spec fn after_miss(self, before: BufferState, pos: u64) -> BufferState {
        if self.asks(before, pos as int) {
            BufferState {
                primary_offset: pos,
                pending_request: Some(
                    if pos < before.range_start {
                        if pos < SEEK_LOOKBEHIND_BYTES {
                            0
                        } else {
                            (pos - SEEK_LOOKBEHIND_BYTES) as u64
                        }
                    } else {
                        pos
                    },
                ),
                ..before
            }
        } else {
            before
        }
    }

    /// Ask the feeder to re-open the body at `pos`, when that is both possible
    /// and cheaper than waiting. A backward probe is fetched from a little
    /// before itself, so the rest of the walk lands in buffered bytes.
    pub fn request_range(&self, state: &mut BufferState, pos: u64) -> (r: bool)
        ensures
            r == self.asks(*old(state), pos as int),
            *final(state) == self.after_miss(*old(state), pos),
    {
        if self.reader_id != state.reader_epoch {
            return false;
        }
        if !state.should_request(pos) {
            return false;
        }
        let walking_back = pos < state.range_start;
        let fetch_from: u64 = if walking_back {
            pos.saturating_sub(SEEK_LOOKBEHIND_BYTES)
        } else {
            pos
        };
        state.primary_offset = pos;
        state.pending_request = Some(fetch_from);
        true
    }

    /// Read up to `len` bytes at the read position.
    pub fn read(&mut self, state: &mut BufferState, len: usize) -> (r: ReadStep)
        requires
            old(state).wf(),
        ensures
            final(self).config == old(self).config,
            final(self).reader_id == old(self).reader_id,
            len == 0 ==> (r matches ReadStep::Bytes(data) && data@.len() == 0),
            len > 0 && old(state).download_error is Some ==> (r matches ReadStep::Failed(err)
                && err.kind == StreamErrorKind::Other && err.message@
                == old(state).download_error->0@),
            len > 0 && old(state).download_error is None ==> {
                let pos = old(self).read_pos as int;
                &&& old(state).held(pos) ==> (r matches ReadStep::Bytes(data) && {
                    &&& 0 < data@.len() <= len
                    &&& forall|i: int|
                        0 <= i < data@.len() ==> old(state).byte_at(pos + i) == Some(
                            #[trigger] data@[i],
                        )
                    &&& data@.len() == len || !old(state).held(pos + data@.len())
                })
                &&& !old(state).held(pos) && old(state).past_end(pos) ==> (
                r matches ReadStep::Bytes(data) && data@.len() == 0)
                &&& !old(state).held(pos) && !old(state).past_end(pos) ==> {
                    if old(state).download_complete {
                        r matches ReadStep::Failed(err) && err.kind
                            == StreamErrorKind::UnexpectedEof && err.message@ == "stream byte "@
                            + crate::text::decimal(pos as nat)
                            + " is not buffered and the feeder has stopped"@
                    } else {
                        r == (ReadStep::Wait { requested: old(self).asks(*old(state), pos) })
                    }
                }
            },
            final(self).read_pos == old(self).read_pos + (match r {
                ReadStep::Bytes(data) => data@.len() as int,
                _ => 0,
            }),
            *final(state) == match r {
                ReadStep::Wait { .. } => old(self).after_miss(*old(state), old(self).read_pos),
                _ => *old(state),
            },
    {
        if len == 0 {
            return ReadStep::Bytes(Vec::new());
        }
        if let Some(err) = &state.download_error {
            return ReadStep::Failed(
                StreamError { kind: StreamErrorKind::Other, message: err.clone() },
            );
        }
        let pos: u64 = self.read_pos;
        if let Some(idx) = state.segment_at(pos) {
            let run_end: u64 = state.segments[idx].end();
            let seg = &state.segments[idx];
            let seg_len: usize = seg.data.len();
            assert(pos - seg.offset < seg_len);
            let from: usize = (pos - seg.offset) as usize;
            let left: usize = seg_len - from;
            let n: usize = if len < left {
                len
            } else {
                left
            };
            let mut data: Vec<u8> = Vec::new();
            data.extend_from_slice(&seg.data[from..from + n]);
            proof {
                crate::stream_buffer::lemma_run_bytes(*state, idx as int);
                assert forall|i: int| 0 <= i < data@.len() implies state.byte_at(pos + i) == Some(
                    #[trigger] data@[i],
                ) by {
                    assert(state.segments@[idx as int].covers(pos + i));
                }
            }
            self.read_pos = pos + n as u64;
            return ReadStep::Bytes(data);
        }
        if state.at_eof(pos) {
            return ReadStep::Bytes(Vec::new());
        }
        if state.download_complete {
            let mut message = String::from_str("stream byte ");
            append_decimal(&mut message, pos);
            message.append(" is not buffered and the feeder has stopped");
            return ReadStep::Failed(
                StreamError { kind: StreamErrorKind::UnexpectedEof, message },
            );
        }
        let requested = self.request_range(state, pos);
        ReadStep::Wait { requested }
    }

    /// Where a seek lands, as a signed position; `None` while the end of the
    /// stream is unknown.
    pub open spec fn seek_position(self, state: BufferState, target: SeekTarget) -> Option<int> {
        match target {
            SeekTarget::Start(offset) => Some(signed_position(offset)),
            SeekTarget::Current(offset) => Some(signed_position(self.read_pos) + offset),
            SeekTarget::End(offset) => match state.total_size {
                Some(total) => Some(signed_position(total) + offset),
                None => if state.download_complete {
                    Some(signed_position(state.write_pos) + offset)
                } else {
                    None
                },
            },
        }
    }

    /// Move the read position, once the target is readable or at the end.
    ///
    /// Positions are signed 64-bit quantities, as seek offsets are, and a seek
    /// must not take a position beyond them.
    pub fn seek(&mut self, state: &mut BufferState, target: SeekTarget) -> (r: SeekStep)
        requires
            old(state).wf(),
            old(self).seek_position(*old(state), target) matches Some(p) ==> i64::MIN <= p
                <= i64::MAX,
        ensures
            final(self).config == old(self).config,
            final(self).reader_id == old(self).reader_id,
            old(self).seek_position(*old(state), target) is None ==> (r matches SeekStep::Failed(
                err,
            ) && err.kind == StreamErrorKind::Unsupported && err.message@
                == "Cannot seek from end while streaming without known size"@),
            old(self).seek_position(*old(state), target) matches Some(p) ==> {
                &&& p < 0 ==> (r matches SeekStep::Failed(err) && err.kind
                    == StreamErrorKind::InvalidInput && err.message@
                    == "Seek position before start of stream"@)
                &&& p >= 0 && old(state).download_error is Some ==> (r matches SeekStep::Failed(err)
                    && err.kind == StreamErrorKind::Other && err.message@
                    == old(state).download_error->0@)
                &&& p >= 0 && old(state).download_error is None ==> {
                    if old(state).held(p) || old(state).past_end(p) {
                        r == SeekStep::At(p as u64)
                    } else if old(state).download_complete {
                        r matches SeekStep::Failed(err) && err.kind
                            == StreamErrorKind::InvalidInput && err.message@
                            == "Seek position beyond end of stream"@
                    } else {
                        r == (SeekStep::Wait { requested: old(self).asks(*old(state), p) })
                    }
                }
            },
            final(self).read_pos == (match r {
                SeekStep::At(p) => p,
                _ => old(self).read_pos,
            }),
            *final(state) == match r {
                SeekStep::Wait { .. } => old(self).after_miss(
                    *old(state),
                    old(self).seek_position(*old(state), target)->0 as u64,
                ),
                _ => *old(state),
            },
    {
        let new_pos: i128 = match target {
            SeekTarget::Start(offset) => as_signed(offset),
            SeekTarget::Current(offset) => as_signed(self.read_pos) + offset as i128,
            SeekTarget::End(offset) => match state.total_size {
                Some(total) => as_signed(total) + offset as i128,
                None => {
                    if state.download_complete {
                        as_signed(state.write_pos) + offset as i128
                    } else {
                        return SeekStep::Failed(
                            StreamError {
                                kind: StreamErrorKind::Unsupported,
                                message: String::from_str(
                                    "Cannot seek from end while streaming without known size",
                                ),
                            },
                        );
                    }
                },
            },
        };
        if new_pos < 0 {
            return SeekStep::Failed(
                StreamError {
                    kind: StreamErrorKind::InvalidInput,
                    message: String::from_str("Seek position before start of stream"),
                },
            );
        }
        let pos: u64 = new_pos as u64;
        if let Some(err) = &state.download_error {
            return SeekStep::Failed(
                StreamError { kind: StreamErrorKind::Other, message: err.clone() },
            );
        }
        if state.segment_at(pos).is_some() || state.at_eof(pos) {
            self.read_pos = pos;
            return SeekStep::At(pos);
        }
        if state.download_complete {
            return SeekStep::Failed(
                StreamError {
                    kind: StreamErrorKind::InvalidInput,
                    message: String::from_str("Seek position beyond end of stream"),
                },
            );
        }
        let requested = self.request_range(state, pos);
        SeekStep::Wait { requested }
    }
}

/// Writer half for pushing downloaded bytes into a buffer.
pub struct BufferWriter {}

impl BufferWriter {
    /// Push a chunk of downloaded data at the write head. Readers waiting for
    /// data have to be woken.
    pub fn push_chunk(&self, state: &mut BufferState, chunk: &[u8])
        requires
            old(state).wf(),
            old(state).write_pos + chunk@.len() <= u64::MAX,
        ensures
            final(state).wf(),
            old(state).merged_into(*final(state), old(state).write_pos, chunk@),
            final(state).write_pos == old(state).write_pos + chunk@.len(),
            final(state).same_but_segments(
                (BufferState { write_pos: final(state).write_pos, ..*old(state) }),
            ),
    {
        let at: u64 = state.write_pos;
        state.insert(at, chunk);
        let ghost mid = *state;
        state.write_pos = at + chunk.len() as u64;
        proof {
            assert forall|p: int| #![trigger state.byte_at(p)] state.byte_at(p) == mid.byte_at(
                p,
            ) by {}
            assert forall|p: int|
                #![trigger state.byte_at(p)]
                #![trigger old(state).byte_at(p)]
                state.byte_at(p) == if at <= p < at + chunk@.len() && !old(state).held_range(
                    at as int,
                    p + 1,
                ) {
                    Some(chunk@[p - at])
                } else {
                    old(state).byte_at(p)
                } by {
                assert(state.byte_at(p) == mid.byte_at(p));
            }
        }
    }

    /// Point the write head at `offset` before pushing a body's bytes.
    pub fn begin_at(&self, state: &mut BufferState, offset: u64)
        ensures
            (*final(state)) == (BufferState {
                range_start: offset,
                write_pos: offset,
                ..*old(state)
            }),
    {
        state.begin(offset);
    }

    /// The first body a range feeder should open: the whole file.
    pub fn initial_plan(&self) -> (r: FetchPlan)
        ensures
            r.offset == 0,
            r.end is None,
    {
        FetchPlan { offset: 0, end: None }
    }

    /// A reader's range request, if one arrived. The plan is already
    /// registered as the write head, so readers stop asking.
    pub fn take_request(&self, state: &mut BufferState) -> (r: Option<FetchPlan>)
        ensures
            match old(state).pending_request {
                Some(offset) => {
                    &&& r == Some(FetchPlan { offset, end: None })
                    &&& (*final(state)) == (BufferState {
                        pending_request: None,
                        range_start: offset,
                        write_pos: offset,
                        ..*old(state)
                    })
                },
                None => r is None && *final(state) == *old(state),
            },
    {
        match state.pending_request {
            Some(offset) => {
                state.pending_request = None;
                state.begin(offset);
                Some(FetchPlan { offset, end: None })
            },
            None => None,
        }
    }

    /// The next body to fetch once the current one ends: a reader's request
    /// first, then any hole left behind by an earlier jump. `None` when there
    /// is nothing left to fetch, or nobody left to fetch it for; in the first
    /// case the download is complete and waiting readers have to be woken.
    pub fn next_plan(&self, state: &mut BufferState) -> (r: Option<FetchPlan>)
        requires
            old(state).wf(),
        ensures
            final(state).wf(),
            final(state).segments == old(state).segments,
            old(state).readers == 0 || old(state).download_error is Some ==> r is None
                && *final(state) == *old(state),
            old(state).readers > 0 && old(state).download_error is None ==> {
                match old(state).pending_request {
                    Some(offset) => {
                        &&& r == Some(FetchPlan { offset, end: None })
                        &&& (*final(state)) == (BufferState {
                            pending_request: None,
                            range_start: offset,
                            write_pos: offset,
                            ..*old(state)
                        })
                    },
                    None => match r {
                        Some(plan) => {
                            &&& old(state).seek_mode == StreamSeekMode::RangeRequests
                            &&& old(state).is_first_gap(plan)
                            &&& (*final(state)) == (BufferState {
                                range_start: plan.offset,
                                write_pos: plan.offset,
                                ..*old(state)
                            })
                        },
                        None => {
                            &&& old(state).seek_mode == StreamSeekMode::RangeRequests
                                ==> !old(state).has_gap()
                            &&& (*final(state)) == (BufferState {
                                download_complete: true,
                                ..*old(state)
                            })
                        },
                    },
                }
            },
    {
        if state.readers == 0 || state.download_error.is_some() {
            return None;
        }
        if let Some(offset) = state.pending_request {
            state.pending_request = None;
            state.begin(offset);
            return Some(FetchPlan { offset, end: None });
        }
        if state.seek_mode == StreamSeekMode::RangeRequests {
            if let Some((offset, end)) = state.first_gap() {
                state.begin(offset);
                return Some(FetchPlan { offset, end });
            }
        }
        state.download_complete = true;
        None
    }

    /// Mark the download as complete. Readers have to be woken.
    pub fn complete(&self, state: &mut BufferState)
        ensures
            (*final(state)) == (BufferState { download_complete: true, ..*old(state) }),
    {
        state.download_complete = true;
    }

    /// Mark the download as failed. The first recorded error wins: it is the
    /// root cause. Readers and the feeder have to be woken.
    pub fn error(&self, state: &mut BufferState, err: String)
        ensures
            (*final(state)) == (BufferState {
                download_error: if old(state).download_error is Some {
                    old(state).download_error
                } else {
                    Some(err)
                },
                ..*old(state)
            }),
    {
        if state.download_error.is_none() {
            state.download_error = Some(err);
        }
    }

    /// Total buffered bytes, across every downloaded run.
    pub fn buffer_size(&self, state: &BufferState) -> (r: u64)
        requires
            state.wf(),
        ensures
            r == crate::stream_buffer::total_len(state.segments@),
    {
        state.downloaded()
    }
}

fn copy_bytes(v: &Vec<u8>) -> (r: Vec<u8>)
    ensures
        r@ == v@,
{
    let mut out: Vec<u8> = Vec::new();
    out.extend_from_slice(v);
    assert(out@ =~= v@);
    out
}

} // verus!
