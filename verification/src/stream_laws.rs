//! What holds of a streaming buffer across several operations.

use vstd::prelude::*;

use crate::media_source::{BufferedMediaSource, FetchPlan};
use crate::stream_buffer::{BufferState, FORWARD_WAIT_BYTES, SEEK_LOOKBEHIND_BYTES};
use crate::stream_config::StreamSeekMode;

verus! {

/// Merging a chunk never drops a byte that was held.
pub proof fn law_merge_keeps_what_was_held(
    before: BufferState,
    after: BufferState,
    offset: u64,
    chunk: Seq<u8>,
    p: int,
)
    requires
        before.merged_into(after, offset, chunk),
        before.held(p),
    ensures
        after.held(p),
{
    assert(after.byte_at(p) is Some);
}

/// Once merged, every byte of the chunk's range is held.
pub proof fn law_merge_holds_the_chunk(
    before: BufferState,
    after: BufferState,
    offset: u64,
    chunk: Seq<u8>,
)
    requires
        before.merged_into(after, offset, chunk),
    ensures
        after.held_range(offset as int, offset + chunk.len()),
{
    assert forall|p: int| offset <= p < offset + chunk.len() implies #[trigger] after.held(p) by {
        if before.held_range(offset as int, p + 1) {
            assert(before.held(p));
        }
        assert(after.byte_at(p) is Some);
    }
}

/// Fetching the same range again changes nothing: the overlap is dropped, not
/// duplicated.
pub proof fn law_refetch_changes_nothing(
    before: BufferState,
    once: BufferState,
    twice: BufferState,
    offset: u64,
    chunk: Seq<u8>,
    p: int,
)
    requires
        before.merged_into(once, offset, chunk),
        once.merged_into(twice, offset, chunk),
    ensures
        twice.byte_at(p) == once.byte_at(p),
{
    law_merge_holds_the_chunk(before, once, offset, chunk);
    if offset <= p < offset + chunk.len() {
        assert(once.held_range(offset as int, p + 1));
    }
}

/// Fetching the first gap to its bound leaves nothing missing up to and over
/// that bound.
pub proof fn law_gap_fill_closes_the_gap(
    before: BufferState,
    after: BufferState,
    plan: FetchPlan,
    chunk: Seq<u8>,
)
    requires
        before.is_first_gap(plan),
        plan.end is Some,
        chunk.len() == plan.end->0 - plan.offset,
        before.merged_into(after, plan.offset, chunk),
    ensures
        after.held_range(0, plan.end->0 + 1),
        forall|p: int|
            plan.offset <= p < plan.end->0 ==> #[trigger] after.byte_at(p) == Some(
                chunk[p - plan.offset],
            ),
{
    let end = plan.end->0;
    law_merge_holds_the_chunk(before, after, plan.offset, chunk);
    assert forall|p: int| 0 <= p < end + 1 implies #[trigger] after.held(p) by {
        if p < plan.offset || p == end {
            assert(before.held(p));
            law_merge_keeps_what_was_held(before, after, plan.offset, chunk, p);
        }
    }
    assert forall|p: int| plan.offset <= p < end implies #[trigger] after.byte_at(p) == Some(
        chunk[p - plan.offset],
    ) by {
        assert(!before.held(p));
        assert(!before.held_range(plan.offset as int, p + 1));
    }
}

/// A stream pushed in order from byte 0 holds exactly the chunks pushed, one
/// behind the other.
pub proof fn law_sequential_pushes_concatenate(
    before: BufferState,
    after: BufferState,
    data: Seq<u8>,
    chunk: Seq<u8>,
)
    requires
        before.holds_exactly(data),
        before.write_pos == data.len(),
        before.merged_into(after, before.write_pos, chunk),
    ensures
        after.holds_exactly(data + chunk),
{
    let all = data + chunk;
    assert forall|p: int|
        #[trigger] after.byte_at(p) == if 0 <= p < all.len() {
            Some(all[p])
        } else {
            None
        } by {
        assert(before.byte_at(p) == if 0 <= p < data.len() {
            Some(data[p])
        } else {
            None
        });
        if data.len() <= p < all.len() {
            assert(before.byte_at(data.len() as int) is None);
            assert(!before.held(data.len() as int));
            assert(!before.held_range(before.write_pos as int, p + 1));
        }
    }
}

/// Once the feeder has taken a reader's request, the reader waits for the body
/// instead of asking again.
pub proof fn law_a_taken_request_is_not_repeated(
    reader: BufferedMediaSource,
    before: BufferState,
    pos: u64,
    taken: BufferState,
)
    requires
        reader.asks(before, pos as int),
        taken == ({
            let posted = reader.after_miss(before, pos);
            let offset = posted.pending_request->0;
            BufferState { pending_request: None, range_start: offset, write_pos: offset, ..posted }
        }),
    ensures
        !taken.wants_request(pos as int),
{
}

/// A request reaches back by at most the look-behind, never past the target.
pub proof fn law_a_request_starts_at_or_just_before_its_target(
    reader: BufferedMediaSource,
    before: BufferState,
    pos: u64,
)
    requires
        reader.asks(before, pos as int),
    ensures
        ({
            let posted = reader.after_miss(before, pos);
            &&& posted.primary_offset == pos
            &&& posted.pending_request is Some
            &&& posted.pending_request->0 <= pos
            &&& pos - posted.pending_request->0 <= SEEK_LOOKBEHIND_BYTES < FORWARD_WAIT_BYTES
            &&& pos >= before.range_start ==> posted.pending_request->0 == pos
        }),
{
}

/// A stream whose feeder only produces bytes in order is never asked for a
/// range.
pub proof fn law_sequential_never_asks(
    reader: BufferedMediaSource,
    state: BufferState,
    pos: u64,
)
    requires
        state.seek_mode == StreamSeekMode::Sequential,
    ensures
        !reader.asks(state, pos as int),
        reader.after_miss(state, pos) == state,
{
}

/// A reader that a newer one has superseded never steers the feeder.
pub proof fn law_a_superseded_reader_never_asks(
    reader: BufferedMediaSource,
    state: BufferState,
    pos: u64,
)
    requires
        reader.reader_id != state.reader_epoch,
    ensures
        reader.after_miss(state, pos) == state,
{
}

/// With a known, non-zero size and no gap left, the buffer is one run from
/// byte 0 that reaches at least that size.
pub proof fn law_no_gap_is_a_whole_file(state: BufferState)
    requires
        state.wf(),
        state.total_size is Some,
        state.total_size->0 > 0,
        !state.has_gap(),
    ensures
        state.is_one_head_run(),
        state.held_range(0, state.total_size->0 as int),
{
    assert(state.held(0));
}

/// What a feeder pushes where its body stands is held at its own offset: a buffer
/// that holds nothing but bytes of a file still does after any piece of the file
/// has been merged in where it belongs, in whatever order the pieces come.
pub proof fn law_a_buffer_holds_only_its_file(
    before: BufferState,
    after: BufferState,
    file: Seq<u8>,
    offset: u64,
    chunk: Seq<u8>,
)
    requires
        before.agrees_with(file),
        offset + chunk.len() <= file.len(),
        chunk == file.subrange(offset as int, offset + chunk.len()),
        before.merged_into(after, offset, chunk),
    ensures
        after.agrees_with(file),
{
    assert forall|p: int| #[trigger] after.held(p) implies 0 <= p < file.len() && after.byte_at(p)
        == Some(file[p]) by {
        if offset <= p < offset + chunk.len() && !before.held_range(offset as int, p + 1) {
            assert(chunk[p - offset] == file[p]);
        } else {
            assert(before.held(p));
        }
    }
}

/// A buffer starts out without a byte that could be wrong.
pub proof fn law_a_fresh_buffer_agrees_with_any_file(
    state: BufferState,
    total_size: Option<u64>,
    seek_mode: StreamSeekMode,
    file: Seq<u8>,
)
    requires
        state.fresh(total_size, seek_mode),
    ensures
        state.agrees_with(file),
{
}

/// What a reader is handed is the file, from where it stands.
pub proof fn law_a_reader_reads_its_file(
    state: BufferState,
    file: Seq<u8>,
    pos: u64,
    data: Seq<u8>,
)
    requires
        state.agrees_with(file),
        forall|i: int|
            0 <= i < data.len() ==> state.byte_at(pos + i) == Some(#[trigger] data[i]),
        data.len() > 0,
    ensures
        pos + data.len() <= file.len(),
        data == file.subrange(pos as int, pos + data.len()),
{
    assert forall|i: int| 0 <= i < data.len() implies pos + i < file.len() && #[trigger] data[i]
        == file[pos + i] by {
        assert(state.byte_at(pos + i) == Some(data[i]));
        assert(state.held(pos + i));
    }
    let last = data.len() - 1;
    assert(data[last] == file[pos + last]);
    assert(data =~= file.subrange(pos as int, pos + data.len()));
}

/// A stream of known size without a gap is its file, whole: whatever data the
/// buffer holds exactly, as it does what it hands out when complete, is the file.
pub proof fn law_a_stream_without_a_gap_is_its_file(
    state: BufferState,
    file: Seq<u8>,
    data: Seq<u8>,
)
    requires
        state.wf(),
        state.total_size is Some,
        state.total_size->0 == file.len(),
        !state.has_gap(),
        state.agrees_with(file),
        state.holds_exactly(data),
    ensures
        data == file,
{
    assert(state.held_range(0, file.len() as int));
    assert forall|p: int| 0 <= p < file.len() implies p < data.len() && data[p] == file[p] by {
        assert(state.held(p));
        assert(state.byte_at(p) == Some(file[p]));
    }
    if data.len() > file.len() {
        assert(state.byte_at(file.len() as int) is Some);
        assert(state.held(file.len() as int));
    }
    if file.len() > data.len() {
        assert(state.held(data.len() as int));
        assert(state.byte_at(data.len() as int) is None);
    }
    assert(data =~= file);
}

} // verus!
