//! What holds of a stream's buffer, its readers and its writer, call by call.

use vstd::prelude::*;
use vstd::string::*;

use crate::media_source::{
    BufferWriter, BufferedMediaSource, FetchPlan, ReadStep, SeekStep, SeekTarget, StreamError,
    StreamErrorKind,
};
use crate::stream_buffer::{BufferSegment, BufferState};
use crate::stream_config::{StreamSeekMode, StreamingConfig};

verus! {

/// A run of the buffer covers the byte at `p`.
pub open spec fn is_covered(state: BufferState, p: int) -> bool {
    exists|i: int| #[trigger] run_covers(state, i, p)
}

/// The run at `i` covers the byte at `p`.
pub open spec fn run_covers(state: BufferState, i: int, p: int) -> bool {
    &&& 0 <= i < state.segments@.len()
    &&& state.segments@[i].offset <= p
    &&& p < state.segments@[i].offset + state.segments@[i].data@.len()
}

/// A byte is held if and only if a run covers it, and it is that run's byte for its
/// place.
pub proof fn law_a_byte_is_held_where_a_run_covers_it(state: BufferState, i: int, p: int)
    requires
        state.wf(),
    ensures
        state.byte_at(p) is Some <==> is_covered(state, p),
        state.held(p) <==> is_covered(state, p),
        run_covers(state, i, p) ==> state.byte_at(p) == Some(
            state.segments@[i].data@[p - state.segments@[i].offset],
        ),
{
    crate::stream_buffer::lemma_cover_index(state.segments@, p);
    if run_covers(state, i, p) {
        crate::stream_buffer::lemma_apart_byte(state.segments@, p, i);
    }
    let k = crate::stream_buffer::cover_index(state.segments@, p);
    if state.byte_at(p) is Some {
        assert(run_covers(state, k, p));
    }
    if is_covered(state, p) {
        let j = choose|j: int| #[trigger] run_covers(state, j, p);
        crate::stream_buffer::lemma_apart_byte(state.segments@, p, j);
    }
}

/// What lies ready from a place on is the longest stretch of bytes held from there.
pub proof fn law_a_stretch_is_as_long_as_it_is_held(
    state: &BufferState,
    pos: u64,
    r: u64,
    place: Option<usize>,
    p: int,
)
    requires
        call_ensures(BufferState::contiguous_from, (state, pos), r),
        call_ensures(BufferState::segment_at, (state, pos), place),
    ensures
        pos <= p < pos + r ==> state.byte_at(p) is Some,
        state.byte_at(pos + r) is None,
        place is Some <==> state.byte_at(pos as int) is Some,
        place is Some ==> run_covers(*state, place->0 as int, pos as int),
{
    if pos <= p < pos + r {
        assert(state.held(p));
    }
    assert(!state.held(pos + r));
}

/// The size of a buffer is the bytes of its runs: one run more makes its bytes more.
pub proof fn law_a_buffer_counts_its_bytes(
    state: &BufferState,
    r: u64,
    longer: &BufferState,
    s: u64,
    seg: BufferSegment,
)
    requires
        call_ensures(BufferState::downloaded, (state,), r),
        call_ensures(BufferState::downloaded, (longer,), s),
        longer.segments@ == state.segments@.push(seg),
    ensures
        s == r + seg.data@.len(),
        state.segments@.len() == 0 ==> r == 0,
{
    assert(longer.segments@.drop_last() =~= state.segments@);
}

/// A feeder is asked for another range where it can serve one, is not done, has not
/// been asked already, and is not about to come by: where it stands behind the place,
/// or more than two mebibytes before it.
pub proof fn law_a_feeder_is_asked_where_it_does_not_come_by(
    state: &BufferState,
    pos: u64,
    r: bool,
)
    requires
        call_ensures(BufferState::should_request, (state, pos), r),
    ensures
        r <==> state.seek_mode == StreamSeekMode::RangeRequests && !state.download_complete
            && state.pending_request is None && (pos < state.range_start || pos > state.write_pos
            + 2097152),
{
}

/// A place is past the end where it is behind the known size of a stream with ranges,
/// or behind what a finished feeder has written with nothing held there.
pub proof fn law_a_place_is_past_the_end(state: &BufferState, pos: u64, r: bool)
    requires
        call_ensures(BufferState::at_eof, (state, pos), r),
    ensures
        state.seek_mode == StreamSeekMode::RangeRequests && state.total_size is Some && pos
            >= state.total_size->0 ==> r,
        r ==> (state.seek_mode == StreamSeekMode::RangeRequests && state.total_size is Some && pos
            >= state.total_size->0) || (state.download_complete && pos >= state.write_pos
            && state.byte_at(pos as int) is None),
        state.download_complete && pos >= state.write_pos && state.byte_at(pos as int) is None
            ==> r,
        !state.download_complete && state.total_size is None ==> !r,
{
}

/// A merged chunk is held over its whole range; a byte outside it stays as it was. In
/// the range a byte that was held stays, up to the first that was missing; from there on
/// the chunk counts.
pub proof fn law_a_chunk_is_merged_where_it_belongs(
    state: &mut BufferState,
    offset: u64,
    chunk: &[u8],
    p: int,
    hole: int,
)
    requires
        call_ensures(BufferState::insert, (state, offset, chunk), ()),
    ensures
        offset <= p < offset + chunk@.len() ==> final(state).byte_at(p) is Some,
        p < offset || p >= offset + chunk@.len() ==> final(state).byte_at(p) == old(state).byte_at(p),
        offset <= hole <= p < offset + chunk@.len() && old(state).byte_at(hole) is None ==> final(state).byte_at(p) == Some(chunk@[p - offset]),
        offset <= p < offset + chunk@.len() && (forall|q: int|
            offset <= q <= p ==> #[trigger] old(state).byte_at(q) is Some) ==> final(state).byte_at(p) == old(state).byte_at(p),
        final(state).write_pos == old(state).write_pos,
        final(state).range_start == old(state).range_start,
        final(state).download_complete == old(state).download_complete,
        final(state).download_error == old(state).download_error,
        final(state).total_size == old(state).total_size,
        final(state).pending_request == old(state).pending_request,
        final(state).primary_offset == old(state).primary_offset,
        final(state).seek_mode == old(state).seek_mode,
        final(state).readers == old(state).readers,
        final(state).reader_epoch == old(state).reader_epoch,
{
    let after = final(state).byte_at(p);
    if offset <= p < offset + chunk@.len() {
        if old(state).held_range(offset as int, p + 1) {
            assert(old(state).held(p));
            if offset <= hole <= p {
                assert(old(state).held(hole));
            }
        } else {
            let q = choose|q: int| offset <= q < p + 1 && !(#[trigger] old(state).held(q));
            assert(!(old(state).byte_at(q) is Some));
        }
    }
}

/// Trimming keeps the head and what lies from the place read less the look-behind on,
/// and drops every byte between; what it tells is by how much the buffer shrank.
pub proof fn law_a_trim_keeps_the_head_and_the_near(
    state: &mut BufferState,
    read_pos: u64,
    behind: u64,
    head: u64,
    r: u64,
    p: int,
    before: u64,
    after: u64,
    copy: &BufferState,
    left: &BufferState,
)
    requires
        call_ensures(BufferState::trim_behind, (state, read_pos, behind, head), r),
        *copy == *old(state),
        *left == *final(state),
        call_ensures(BufferState::downloaded, (copy,), before),
        call_ensures(BufferState::downloaded, (left,), after),
    ensures
        p < head || p + behind >= read_pos ==> final(state).byte_at(p) == old(state).byte_at(p),
        head <= p && p + behind < read_pos ==> final(state).byte_at(p) is None,
        r == before - after,
        final(state).write_pos == old(state).write_pos,
        final(state).range_start == old(state).range_start,
        final(state).download_complete == old(state).download_complete,
        final(state).download_error == old(state).download_error,
        final(state).total_size == old(state).total_size,
        final(state).pending_request == old(state).pending_request,
        final(state).primary_offset == old(state).primary_offset,
        final(state).seek_mode == old(state).seek_mode,
        final(state).readers == old(state).readers,
        final(state).reader_epoch == old(state).reader_epoch,
{
    let b = final(state).byte_at(p);
}

/// The first gap starts behind what is held from byte 0 on without a break; it ends
/// where the next run starts, or is open where none follows. None is found if and only
/// if the size is unknown, or all of it is held as one run.
pub proof fn law_the_first_gap_is_found(
    state: &BufferState,
    r: Option<(u64, Option<u64>)>,
    p: int,
)
    requires
        call_ensures(BufferState::first_gap, (state,), r),
    ensures
        state.total_size is None ==> r is None,
        r is Some && 0 <= p < (r->0).0 ==> state.byte_at(p) is Some,
        r is Some && (r->0).1 is Some ==> (r->0).0 < (r->0).1->0 && state.byte_at(
            (r->0).1->0 as int,
        ) is Some && ((r->0).0 <= p < (r->0).1->0 ==> state.byte_at(p) is None),
        r is Some && (r->0).1 is None ==> (r->0).0 < state.total_size->0 && ((r->0).0 <= p
            ==> state.byte_at(p) is None),
        r is None && state.total_size is Some && 0 <= p < state.total_size->0 ==> state.byte_at(
            p,
        ) is Some,
{
    if r is Some {
        match (r->0).1 {
            Some(end) => {
                assert(r == Some(((r->0).0, Some(end))));
                if 0 <= p < (r->0).0 {
                    assert(state.held(p));
                }
                if (r->0).0 <= p < end {
                    assert(!state.held(p));
                }
            },
            None => {
                assert(r == Some(((r->0).0, None::<u64>)));
                if 0 <= p < (r->0).0 {
                    assert(state.held(p));
                }
                if (r->0).0 <= p {
                    assert(!state.held(p));
                }
            },
        }
    } else if state.total_size is Some && 0 <= p < state.total_size->0 {
        assert(state.held(p));
    }
}

/// A range is written with its first and its last byte, or open where it has no end.
pub proof fn law_a_range_names_its_first_and_last_byte(plan: &FetchPlan, r: String)
    requires
        call_ensures(FetchPlan::range_header, (plan,), r),
    ensures
        plan.end is None ==> r@ == seq!['b', 'y', 't', 'e', 's', '='] + crate::text::decimal(
            plan.offset as nat,
        ) + seq!['-'],
        plan.end is Some && plan.end->0 > plan.offset ==> r@ == seq![
            'b',
            'y',
            't',
            'e',
            's',
            '=',
        ] + crate::text::decimal(plan.offset as nat) + seq!['-'] + crate::text::decimal(
            (plan.end->0 - 1) as nat,
        ),
{
    reveal_strlit("bytes=");
    reveal_strlit("-");
    assert("bytes="@ =~= seq!['b', 'y', 't', 'e', 's', '=']);
    assert("-"@ =~= seq!['-']);
}

/// A plan is the whole file where it has neither a start nor an end; its length is the
/// bytes between the two.
pub proof fn law_a_plan_knows_its_length(plan: &FetchPlan, whole: bool, len: Option<u64>)
    requires
        call_ensures(FetchPlan::is_whole_file, (plan,), whole),
        call_ensures(FetchPlan::byte_len, (plan,), len),
    ensures
        whole <==> plan.offset == 0 && plan.end is None,
        len is Some <==> plan.end is Some,
        len is Some && plan.end->0 >= plan.offset ==> plan.offset + len->0 == plan.end->0,
        len is Some && plan.end->0 < plan.offset ==> len->0 == 0,
{
}

/// A new stream holds nothing, its reader stands at byte 0 and is the newest; the
/// seekable kind takes range requests, the other none.
pub proof fn law_a_new_stream_is_empty(
    config: StreamingConfig,
    size: Option<u64>,
    plain: (BufferedMediaSource, BufferWriter, BufferState),
    seekable: (BufferedMediaSource, BufferWriter, BufferState),
    p: int,
)
    requires
        call_ensures(BufferedMediaSource::new, (config, size), plain),
        call_ensures(BufferedMediaSource::new_seekable, (config, size), seekable),
    ensures
        plain.2.byte_at(p) is None,
        plain.2.total_size == size,
        plain.2.seek_mode == StreamSeekMode::Sequential,
        seekable.2.seek_mode == StreamSeekMode::RangeRequests,
        seekable.2.total_size == size,
        seekable.2.byte_at(p) is None,
        plain.0.read_pos == 0,
        plain.0.reader_id == plain.2.reader_epoch,
        seekable.0.read_pos == 0,
        seekable.0.reader_id == seekable.2.reader_epoch,
        plain.0.config == config,
        seekable.0.config == config,
        plain.2.readers == 1,
        seekable.2.readers == 1,
        plain.2.write_pos == 0,
        seekable.2.write_pos == 0,
        plain.2.range_start == 0,
        seekable.2.range_start == 0,
        !plain.2.download_complete,
        !seekable.2.download_complete,
        plain.2.download_error is None,
        seekable.2.download_error is None,
        plain.2.pending_request is None,
        seekable.2.pending_request is None,
{
    assert(!plain.2.held(p));
    assert(!seekable.2.held(p));
}

/// A further reader starts at byte 0, is the newest from then on, and counts as one
/// reader more; one that closes counts as one less, and the last to close says so.
pub proof fn law_readers_are_counted(
    source: &BufferedMediaSource,
    state: &mut BufferState,
    reader: BufferedMediaSource,
    again: &mut BufferState,
    last: bool,
)
    requires
        old(state).readers < usize::MAX,
        old(state).reader_epoch < u64::MAX,
        call_ensures(BufferedMediaSource::create_reader, (source, state), reader),
        *old(again) == *final(state),
        call_ensures(BufferedMediaSource::close, (reader, again), last),
    ensures
        reader.read_pos == 0,
        reader.config == source.config,
        reader.reader_id == final(state).reader_epoch,
        final(state).reader_epoch == old(state).reader_epoch + 1,
        final(state).readers == old(state).readers + 1,
        final(state).segments == old(state).segments,
        final(state).write_pos == old(state).write_pos,
        final(state).pending_request == old(state).pending_request,
        final(again).readers == old(state).readers,
        last <==> old(state).readers == 0,
        final(again).reader_epoch == old(state).reader_epoch + 1,
        final(again).segments == old(state).segments,
{
}

/// A stream is ready once its first bytes are there, it is complete, or it has failed;
/// a failure is told with its words.
pub proof fn law_a_stream_is_ready_once_it_is_filled(
    source: &BufferedMediaSource,
    state: &BufferState,
    r: Option<Result<(), StreamError>>,
    enough: bool,
    p: int,
)
    requires
        call_ensures(BufferedMediaSource::wait_for_initial_buffer, (source, state), r),
        call_ensures(BufferedMediaSource::has_min_buffer, (source, state), enough),
    ensures
        state.download_complete ==> r is Some && enough,
        state.download_error is Some ==> r is Some && r->0 is Err && (r->0->Err_0).kind
            == StreamErrorKind::Other && (r->0->Err_0).message@ == state.download_error->0@,
        r is Some && state.download_error is None ==> r->0 is Ok && enough,
        r is None ==> !enough && state.download_error is None,
        enough && !state.download_complete && state.primary_offset <= p < state.primary_offset
            + source.config.initial_buffer_bytes ==> state.byte_at(p) is Some,
        (forall|q: int|
            state.primary_offset <= q < state.primary_offset + source.config.initial_buffer_bytes
                ==> #[trigger] state.held(q)) ==> enough,
{
    if source.initially_filled(*state) && state.primary_offset <= p < state.primary_offset
        + source.config.initial_buffer_bytes {
        assert(state.held(p));
    }
    if r is Some {
        match r->0 {
            Ok(_) => {},
            Err(e) => {},
        }
    }
}

/// A stream is complete where its feeder is done and has not failed, and its data is
/// handed out then where it is one run from byte 0: every byte of it in its place.
pub proof fn law_complete_data_is_all_that_is_held(
    source: &BufferedMediaSource,
    state: &BufferState,
    complete: bool,
    data: Option<Vec<u8>>,
    head: Option<Vec<u8>>,
    p: int,
)
    requires
        call_ensures(BufferedMediaSource::is_complete, (source, state), complete),
        call_ensures(BufferedMediaSource::take_complete_data, (source, state), data),
        call_ensures(BufferedMediaSource::get_buffered_data, (source, state), head),
    ensures
        complete <==> state.download_complete && state.download_error is None,
        data is Some ==> complete,
        data is Some && 0 <= p < data->0@.len() ==> state.byte_at(p) == Some(data->0@[p]),
        data is Some && (p < 0 || p >= data->0@.len()) ==> state.byte_at(p) is None,
        complete && data is None && state.byte_at(0) is Some ==> exists|a: int, b: int|
            #![trigger state.held(a), state.held(b)]
            0 <= a < b && !state.held(a) && state.held(b),
        head is Some <==> state.byte_at(0) is Some,
        head is Some && 0 <= p < head->0@.len() ==> state.byte_at(p) == Some(head->0@[p]),
        head is Some ==> state.byte_at(head->0@.len() as int) is None,
{
    if data is Some {
        let b = state.byte_at(p);
    }
    if head is Some {
        assert(!state.held(head->0@.len() as int));
    }
}

/// What a reader tells of its stream is what the stream has: its size, its head, its
/// start, its failure and whether it takes ranges.
pub proof fn law_a_reader_tells_of_its_stream(
    source: &BufferedMediaSource,
    state: &BufferState,
    size: u64,
    head: u64,
    primary: u64,
    failure: Option<String>,
    ranges: bool,
    writer: &BufferWriter,
    written: u64,
    counted: u64,
    p: int,
)
    requires
        call_ensures(BufferedMediaSource::buffer_size, (source, state), size),
        call_ensures(BufferedMediaSource::head_bytes, (source, state), head),
        call_ensures(BufferedMediaSource::primary_offset, (source, state), primary),
        call_ensures(BufferedMediaSource::download_error, (source, state), failure),
        call_ensures(BufferedMediaSource::supports_range_requests, (source, state), ranges),
        call_ensures(BufferWriter::buffer_size, (writer, state), written),
        call_ensures(BufferState::downloaded, (state,), counted),
    ensures
        size == counted,
        written == counted,
        0 <= p < head ==> state.byte_at(p) is Some,
        state.byte_at(head as int) is None,
        primary == state.primary_offset,
        failure == state.download_error,
        ranges <==> state.seek_mode == StreamSeekMode::RangeRequests,
{
    if 0 <= p < head {
        assert(state.held(p));
    }
    assert(!state.held(head as int));
}

/// The feeder was asked for the bytes at `pos`: exactly there, or up to a mebibyte before
/// where it has passed the place. Nothing else has changed.
pub open spec fn feeder_was_asked(before: BufferState, after: BufferState, pos: int) -> bool {
    &&& after.primary_offset == pos
    &&& after.pending_request is Some
    &&& pos >= before.range_start ==> after.pending_request->0 == pos
    &&& pos < before.range_start && pos >= 1048576 ==> after.pending_request->0 == pos - 1048576
    &&& pos < before.range_start && pos < 1048576 ==> after.pending_request->0 == 0
    &&& after.segments == before.segments
    &&& after.write_pos == before.write_pos
    &&& after.range_start == before.range_start
    &&& after.download_complete == before.download_complete
    &&& after.download_error == before.download_error
    &&& after.total_size == before.total_size
    &&& after.seek_mode == before.seek_mode
    &&& after.readers == before.readers
    &&& after.reader_epoch == before.reader_epoch
}

/// The newest reader may steer the feeder to `pos`.
pub open spec fn may_ask(reader: BufferedMediaSource, state: BufferState, pos: int) -> bool {
    &&& reader.reader_id == state.reader_epoch
    &&& state.seek_mode == StreamSeekMode::RangeRequests
    &&& !state.download_complete
    &&& state.pending_request is None
    &&& pos < state.range_start || pos > state.write_pos + 2097152
}

/// Nothing more will come for `pos`.
pub open spec fn nothing_more_comes(state: BufferState, pos: int) -> bool {
    ||| state.seek_mode == StreamSeekMode::RangeRequests && state.total_size is Some && pos
        >= state.total_size->0
    ||| state.download_complete && pos >= state.write_pos && state.byte_at(pos) is None
}

/// A reader asks the feeder for a place where it may, and for exactly that place.
pub proof fn law_a_reader_asks_for_its_place(
    reader: &BufferedMediaSource,
    state: &mut BufferState,
    pos: u64,
    r: bool,
)
    requires
        call_ensures(BufferedMediaSource::request_range, (reader, state, pos), r),
    ensures
        r <==> may_ask(*reader, *old(state), pos as int),
        r ==> feeder_was_asked(*old(state), *final(state), pos as int),
        !r ==> *final(state) == *old(state),
{
}

/// A read hands out the bytes from where the reader stands and moves it behind them, as
/// many as are wanted and held there. At the end it hands out nothing. A byte that is
/// still to come is waited for, and asked for where the reader may; one that will not
/// come is a failure.
pub proof fn law_a_read_goes_on_from_its_place(
    reader: &mut BufferedMediaSource,
    state: &mut BufferState,
    len: usize,
    r: ReadStep,
    i: int,
)
    requires
        call_ensures(BufferedMediaSource::read, (reader, state, len), r),
        len > 0,
        old(state).download_error is None,
    ensures
        ({
            let pos = old(reader).read_pos as int;
            &&& old(state).byte_at(pos) is Some ==> r is Bytes && 0 < r->Bytes_0@.len() <= len && (
            0 <= i < r->Bytes_0@.len() ==> old(state).byte_at(pos + i) == Some(r->Bytes_0@[i])) && (
            r->Bytes_0@.len() < len ==> old(state).byte_at(pos + r->Bytes_0@.len()) is None)
            &&& old(state).byte_at(pos) is None && nothing_more_comes(*old(state), pos) ==> r is Bytes
                && r->Bytes_0@.len() == 0
            &&& old(state).byte_at(pos) is None && !nothing_more_comes(*old(state), pos) && old(state).download_complete ==> r is Failed && (r->Failed_0).kind
                == StreamErrorKind::UnexpectedEof
            &&& old(state).byte_at(pos) is None && !nothing_more_comes(*old(state), pos) && !old(state).download_complete ==> r is Wait && (r->Wait_requested <==> may_ask(
                *old(reader),
                *old(state),
                pos,
            )) && (r->Wait_requested ==> feeder_was_asked(*old(state), *final(state), pos))
            &&& r is Bytes ==> final(reader).read_pos == pos + r->Bytes_0@.len()
            &&& !(r is Bytes) ==> final(reader).read_pos == pos
            &&& !(r is Wait && r->Wait_requested) ==> *final(state) == *old(state)
        }),
        final(reader).reader_id == old(reader).reader_id,
        final(reader).config == old(reader).config,
{
    let pos = old(reader).read_pos as int;
    match r {
        ReadStep::Bytes(data) => {
            if old(state).held(pos) && data@.len() < len {
                assert(!old(state).held(pos + data@.len()));
            }
        },
        ReadStep::Wait { requested } => {},
        ReadStep::Failed(e) => {},
    }
}

/// A read of no bytes gives none; after a failure of the stream a read fails with its
/// words and moves nothing.
pub proof fn law_a_failed_stream_fails_its_reads(
    reader: &mut BufferedMediaSource,
    state: &mut BufferState,
    len: usize,
    r: ReadStep,
)
    requires
        call_ensures(BufferedMediaSource::read, (reader, state, len), r),
    ensures
        len == 0 ==> r is Bytes && r->Bytes_0@.len() == 0,
        len > 0 && old(state).download_error is Some ==> r is Failed && (r->Failed_0).kind
            == StreamErrorKind::Other && (r->Failed_0).message@ == old(state).download_error->0@,
        len == 0 || old(state).download_error is Some ==> *final(state) == *old(state) && final(reader).read_pos == old(reader).read_pos,
{
}

/// The place that a seek means: from the start, from where the reader stands, or from
/// the end where that is known.
pub open spec fn place_meant(
    reader: BufferedMediaSource,
    state: BufferState,
    target: SeekTarget,
) -> Option<int> {
    match target {
        SeekTarget::Start(offset) => Some(offset as int),
        SeekTarget::Current(offset) => Some(reader.read_pos + offset),
        SeekTarget::End(offset) => if state.total_size is Some {
            Some(state.total_size->0 + offset)
        } else if state.download_complete {
            Some(state.write_pos + offset)
        } else {
            None
        },
    }
}

/// A seek goes to the place that it means where that is held or at the end. One that is
/// still to come is waited for and asked for; one before the start, behind the end of a
/// finished stream, or from an unknown end fails. A reader that does not arrive stays.
pub proof fn law_a_seek_goes_where_it_means_to(
    reader: &mut BufferedMediaSource,
    state: &mut BufferState,
    target: SeekTarget,
    r: SeekStep,
    p: int,
)
    requires
        call_ensures(BufferedMediaSource::seek, (reader, state, target), r),
        old(reader).read_pos <= i64::MAX,
        old(state).write_pos <= i64::MAX,
        old(state).total_size is Some ==> old(state).total_size->0 <= i64::MAX,
        target is Start ==> target->Start_0 <= i64::MAX,
        place_meant(*old(reader), *old(state), target) == Some(p) || place_meant(
            *old(reader),
            *old(state),
            target,
        ) is None,
        i64::MIN <= p <= i64::MAX,
    ensures
        place_meant(*old(reader), *old(state), target) is None ==> r is Failed && (
        r->Failed_0).kind == StreamErrorKind::Unsupported,
        place_meant(*old(reader), *old(state), target) is Some ==> {
            &&& p < 0 ==> r is Failed && (r->Failed_0).kind == StreamErrorKind::InvalidInput
            &&& p >= 0 && old(state).download_error is Some ==> r is Failed && (r->Failed_0).kind
                == StreamErrorKind::Other && (r->Failed_0).message@
                == old(state).download_error->0@
            &&& p >= 0 && old(state).download_error is None ==> {
                &&& old(state).byte_at(p) is Some || nothing_more_comes(*old(state), p)
                    ==> r is At && r->At_0 == p
                &&& old(state).byte_at(p) is None && !nothing_more_comes(*old(state), p) && old(state).download_complete ==> r is Failed && (r->Failed_0).kind
                    == StreamErrorKind::InvalidInput
                &&& old(state).byte_at(p) is None && !nothing_more_comes(*old(state), p) && !old(state).download_complete ==> r is Wait && (r->Wait_requested <==> may_ask(
                    *old(reader),
                    *old(state),
                    p,
                )) && (r->Wait_requested ==> feeder_was_asked(*old(state), *final(state), p))
            }
        },
        r is At ==> final(reader).read_pos == r->At_0,
        !(r is At) ==> final(reader).read_pos == old(reader).read_pos,
        !(r is Wait && r->Wait_requested) ==> *final(state) == *old(state),
        final(reader).reader_id == old(reader).reader_id,
        final(reader).config == old(reader).config,
{
}

/// A chunk that is written is merged where the body stands, and the body stands behind
/// it afterwards.
pub proof fn law_a_written_chunk_moves_the_body_on(
    writer: &BufferWriter,
    state: &mut BufferState,
    chunk: &[u8],
    p: int,
)
    requires
        call_ensures(BufferWriter::push_chunk, (writer, state, chunk), ()),
    ensures
        final(state).write_pos == old(state).write_pos + chunk@.len(),
        old(state).write_pos <= p < old(state).write_pos + chunk@.len() ==> final(state).byte_at(
            p,
        ) is Some,
        old(state).write_pos <= p < old(state).write_pos + chunk@.len() && old(state).byte_at(
            p,
        ) is None ==> final(state).byte_at(p) == Some(chunk@[p - old(state).write_pos]),
        p < old(state).write_pos || p >= old(state).write_pos + chunk@.len() ==> final(state).byte_at(p) == old(state).byte_at(p),
        final(state).range_start == old(state).range_start,
        final(state).download_complete == old(state).download_complete,
        final(state).download_error == old(state).download_error,
        final(state).total_size == old(state).total_size,
        final(state).pending_request == old(state).pending_request,
        final(state).primary_offset == old(state).primary_offset,
        final(state).readers == old(state).readers,
        final(state).reader_epoch == old(state).reader_epoch,
        final(state).seek_mode == old(state).seek_mode,
{
    let b = final(state).byte_at(p);
    if old(state).write_pos <= p && old(state).held_range(old(state).write_pos as int, p + 1) {
        assert(old(state).held(p));
    }
}

/// Taking a request starts the body at the place that was asked for, and leaves no
/// request; without one nothing changes.
pub proof fn law_a_request_is_taken_once(
    writer: &BufferWriter,
    state: &mut BufferState,
    r: Option<FetchPlan>,
    again: &mut BufferState,
    s: Option<FetchPlan>,
)
    requires
        call_ensures(BufferWriter::take_request, (writer, state), r),
        *old(again) == *final(state),
        call_ensures(BufferWriter::take_request, (writer, again), s),
    ensures
        r is Some <==> old(state).pending_request is Some,
        r is Some ==> (r->0).offset == old(state).pending_request->0 && (r->0).end is None && final(state).range_start == (r->0).offset && final(state).write_pos == (r->0).offset,
        r is None ==> *final(state) == *old(state),
        s is None,
        final(state).pending_request is None,
        final(state).segments == old(state).segments,
        final(state).download_complete == old(state).download_complete,
        final(state).total_size == old(state).total_size,
        final(state).primary_offset == old(state).primary_offset,
{
}

/// What a feeder fetches next: what was asked for, else the first gap of a stream that
/// takes ranges, else nothing: the stream is complete then. Without a reader, or after a
/// failure, it fetches nothing and changes nothing.
pub proof fn law_the_next_fetch_fills_what_is_missing(
    writer: &BufferWriter,
    state: &mut BufferState,
    r: Option<FetchPlan>,
    p: int,
)
    requires
        call_ensures(BufferWriter::next_plan, (writer, state), r),
    ensures
        old(state).readers == 0 || old(state).download_error is Some ==> r is None && *final(state)
            == *old(state),
        old(state).readers > 0 && old(state).download_error is None ==> {
            &&& old(state).pending_request is Some ==> r is Some && (r->0).offset == old(state).pending_request->0 && (r->0).end is None && final(state).pending_request is None
            &&& r is Some ==> final(state).range_start == (r->0).offset && final(state).write_pos
                == (r->0).offset && final(state).download_complete == old(state).download_complete
            &&& r is Some && old(state).pending_request is None ==> {
                &&& old(state).seek_mode == StreamSeekMode::RangeRequests
                &&& old(state).total_size is Some
                &&& 0 <= p < (r->0).offset ==> old(state).byte_at(p) is Some
                &&& old(state).byte_at((r->0).offset as int) is None
                &&& (r->0).end is Some ==> old(state).byte_at((r->0).end->0 as int) is Some && ((
                r->0).offset <= p < (r->0).end->0 ==> old(state).byte_at(p) is None)
                &&& (r->0).end is None ==> ((r->0).offset <= p ==> old(state).byte_at(p) is None)
            }
            &&& r is None ==> final(state).download_complete && (old(state).seek_mode
                == StreamSeekMode::RangeRequests && old(state).total_size is Some && 0 <= p < old(state).total_size->0 ==> old(state).byte_at(p) is Some)
            &&& r is None ==> old(state).pending_request is None && final(state).write_pos == old(state).write_pos
        },
        final(state).segments == old(state).segments,
        final(state).total_size == old(state).total_size,
        final(state).readers == old(state).readers,
{
    if old(state).readers > 0 && old(state).download_error is None && old(state).pending_request is None {
        match r {
            Some(plan) => {
                if 0 <= p < plan.offset {
                    assert(old(state).held(p));
                }
                assert(!old(state).held(plan.offset as int));
                match plan.end {
                    Some(end) => {
                        if plan.offset <= p < end {
                            assert(!old(state).held(p));
                        }
                    },
                    None => {
                        if plan.offset <= p {
                            assert(!old(state).held(p));
                        }
                    },
                }
            },
            None => {
                if old(state).seek_mode == StreamSeekMode::RangeRequests && old(state).total_size is Some && 0 <= p < old(state).total_size->0 {
                    assert(old(state).held_range(0, old(state).total_size->0 as int));
                    assert(old(state).held(p));
                }
            },
        }
    }
}

/// The body starts where it is told, a stream ends when it is told, the first failure
/// stays, and the first plan is the whole file.
pub proof fn law_a_writer_does_what_it_is_told(
    writer: &BufferWriter,
    state: &mut BufferState,
    offset: u64,
    done: &mut BufferState,
    failed: &mut BufferState,
    err: String,
    first: FetchPlan,
)
    requires
        call_ensures(BufferWriter::begin_at, (writer, state, offset), ()),
        call_ensures(BufferWriter::complete, (writer, done), ()),
        call_ensures(BufferWriter::error, (writer, failed, err), ()),
        call_ensures(BufferWriter::initial_plan, (writer,), first),
    ensures
        final(state).range_start == offset,
        final(state).write_pos == offset,
        final(state).segments == old(state).segments,
        final(state).pending_request == old(state).pending_request,
        final(state).download_complete == old(state).download_complete,
        final(state).primary_offset == old(state).primary_offset,
        final(done).download_complete,
        final(done).segments == old(done).segments,
        final(done).download_error == old(done).download_error,
        final(done).write_pos == old(done).write_pos,
        old(failed).download_error is None ==> final(failed).download_error == Some(err),
        old(failed).download_error is Some ==> final(failed).download_error == old(failed).download_error,
        final(failed).download_complete == old(failed).download_complete,
        final(failed).segments == old(failed).segments,
        first.offset == 0,
        first.end is None,
{
}

/// A read or a seek that fails says why: which byte is missing, or what is wrong with the
/// place. A place beyond what a signed number holds lies before the start.
pub proof fn law_a_failed_read_or_seek_says_why(
    reader: &mut BufferedMediaSource,
    state: &mut BufferState,
    len: usize,
    r: ReadStep,
    seeker: &mut BufferedMediaSource,
    there: &mut BufferState,
    target: SeekTarget,
    s: SeekStep,
)
    requires
        call_ensures(BufferedMediaSource::read, (reader, state, len), r),
        call_ensures(BufferedMediaSource::seek, (seeker, there, target), s),
    ensures
        r is Failed && old(state).download_error is None ==> (r->Failed_0).message@
            == "stream byte "@ + crate::text::decimal(old(reader).read_pos as nat)
            + " is not buffered and the feeder has stopped"@,
        (s is Failed && (s->Failed_0).kind == StreamErrorKind::Unsupported) ==> (
        s->Failed_0).message@ == "Cannot seek from end while streaming without known size"@,
        (s is Failed && (s->Failed_0).kind == StreamErrorKind::InvalidInput) ==> (
        s->Failed_0).message@ == "Seek position before start of stream"@ || (
        s->Failed_0).message@ == "Seek position beyond end of stream"@ && old(there).download_complete,
        (target matches SeekTarget::Start(offset) && offset > i64::MAX) ==> s is Failed && (
        s->Failed_0).kind == StreamErrorKind::InvalidInput && (s->Failed_0).message@
            == "Seek position before start of stream"@,
{
}

} // verus!
