//! What holds of a remote stream's feeder and its settings, call by call.

use vstd::prelude::*;
use vstd::string::*;

use crate::media_source::{BufferWriter, FetchPlan};
use crate::remote_stream::{
    describe_error_chain, is_header_flood_error, is_success_status, probe_format, probe_size,
    sniff_format, BodyEnd, FeedError, FeedStep, Feeder, ProbeError, StreamFormat,
};
use crate::stream_buffer::BufferState;
use crate::stream_config::{
    max_initial_buffer_bytes, raw_initial_buffer_for_speed, set_max_initial_buffer_bytes,
    InitialBufferCap, SpeedBand, StreamSeekMode, StreamingConfig,
};
use crate::volume_curve::{set_volume_curve, volume_curve, VolumeCurve, VolumeCurveSetting};

verus! {

/// A status is a success from 200 up to 299.
pub proof fn law_a_success_is_a_two_hundred(status: u16, r: bool)
    requires
        call_ensures(is_success_status, (status,), r),
    ensures
        r <==> 200 <= status <= 299,
{
}

/// What is read from the head of a FLAC file are the fields of its stream info: 20 bits
/// of sample rate, 3 bits of channels less one, 5 bits of depth less one, in that order
/// from byte 18 on. Anything else counts as compact disc audio.
pub proof fn law_a_format_is_read_from_its_bits(bytes: &[u8], r: StreamFormat, low: int)
    requires
        call_ensures(sniff_format, (bytes,), r),
        bytes@.len() > 21 ==> low == bytes@[21] % 16,
    ensures
        bytes@.len() >= 26 && bytes@[0] == 'f' as u8 && bytes@[1] == 'L' as u8 && bytes@[2]
            == 'a' as u8 && bytes@[3] == 'C' as u8 ==> {
            &&& bytes@[18] * 16777216 + bytes@[19] * 65536 + bytes@[20] * 256 + bytes@[21]
                == r.sample_rate * 4096 + (r.channels - 1) * 512 + (r.bit_depth - 1) * 16 + low
            &&& 0 <= r.channels - 1 < 8
            &&& 0 <= r.bit_depth - 1 < 32
        },
        !(bytes@.len() >= 26 && bytes@[0] == 'f' as u8 && bytes@[1] == 'L' as u8 && bytes@[2]
            == 'a' as u8 && bytes@[3] == 'C' as u8) ==> r.sample_rate == 44100 && r.channels == 2
            && r.bit_depth == 16,
{
}

/// The size of a remote file is the number in its length header, where the answer is a
/// success; its format is read where the answer is one too. Each failure names what was
/// wrong.
pub proof fn law_a_probe_takes_successes(
    status: u16,
    length: Option<&str>,
    size: Result<u64, ProbeError>,
    bytes: &[u8],
    format: Result<StreamFormat, ProbeError>,
    sniffed: StreamFormat,
)
    requires
        call_ensures(probe_size, (status, length), size),
        call_ensures(probe_format, (status, bytes), format),
        call_ensures(sniff_format, (bytes,), sniffed),
    ensures
        !(200 <= status <= 299) ==> size == Err::<u64, ProbeError>(ProbeError::HeadStatus(status))
            && format == Err::<StreamFormat, ProbeError>(ProbeError::RangeStatus(status)),
        200 <= status <= 299 ==> format == Ok::<StreamFormat, ProbeError>(sniffed),
        200 <= status <= 299 && length is None ==> size == Err::<u64, ProbeError>(
            ProbeError::MissingContentLength,
        ),
        200 <= status <= 299 && length is Some ==> match crate::text::spelled_u64(length->0@) {
            Some(n) => size == Ok::<u64, ProbeError>(n),
            None => size == Err::<u64, ProbeError>(ProbeError::MissingContentLength),
        },
{
}

/// A feeder starts with the whole file, nothing received and no barren body. It names a
/// range unless it wants the whole file, and the range is its plan's.
pub proof fn law_a_feeder_starts_with_the_whole_file(
    writer: BufferWriter,
    fresh: Feeder,
    feeder: &Feeder,
    header: Option<String>,
    plan: &FetchPlan,
    written: String,
)
    requires
        call_ensures(Feeder::new, (writer,), fresh),
        call_ensures(Feeder::request_range, (feeder,), header),
        *plan == feeder.plan,
        call_ensures(FetchPlan::range_header, (plan,), written),
    ensures
        fresh.plan.offset == 0,
        fresh.plan.end is None,
        fresh.body_start == 0,
        fresh.body_bytes == 0,
        fresh.bytes_received == 0,
        fresh.barren_bodies == 0,
        fresh.plan_limit is None,
        header is None <==> feeder.plan.offset == 0 && feeder.plan.end is None,
        header is Some ==> header->0@ == written@,
{
}

/// An answer that is no success is an error with its status and changes nothing. One
/// that serves the range starts the body at the plan's offset; one that serves the whole
/// file instead starts it at byte 0, and without a limit. The buffer's writer stands
/// where the body starts.
pub proof fn law_an_answer_sets_where_the_body_starts(
    feeder: &mut Feeder,
    state: &mut BufferState,
    status: u16,
    r: Result<(), FeedError>,
)
    requires
        call_ensures(Feeder::on_response, (feeder, state, status), r),
    ensures
        !(200 <= status <= 299) ==> r == Err::<(), FeedError>(FeedError::Status(status)) && *final(feeder) == *old(feeder) && *final(state) == *old(state),
        200 <= status <= 299 ==> {
            let whole = old(feeder).plan.offset == 0 && old(feeder).plan.end is None;
            let plan = old(feeder).plan;
            &&& r is Ok
            &&& final(feeder).plan == plan
            &&& final(feeder).body_bytes == 0
            &&& final(feeder).bytes_received == old(feeder).bytes_received
            &&& final(feeder).barren_bodies == old(feeder).barren_bodies
            &&& whole || status == 206 ==> final(feeder).body_start == plan.offset
            &&& !whole && status != 206 ==> final(feeder).body_start == 0 && final(feeder).plan_limit is None
            &&& status == 206 && plan.end is Some && plan.end->0 >= plan.offset ==> final(feeder).plan_limit is Some && plan.offset + final(feeder).plan_limit->0 == plan.end->0
            &&& plan.end is None ==> final(feeder).plan_limit is None
            &&& final(state).write_pos == final(feeder).body_start
            &&& final(state).segments == old(state).segments
            &&& final(state).pending_request == old(state).pending_request
            &&& final(state).readers == old(state).readers
            &&& old(state).write_pos != final(feeder).body_start ==> final(state).range_start
                == final(feeder).body_start
            &&& final(state).download_complete == old(state).download_complete
            &&& final(state).download_error == old(state).download_error
            &&& (whole || status == 206) && old(state).write_pos == plan.offset ==> *final(state)
                == *old(state)
            &&& !whole && status != 206 ==> final(state).range_start == 0
        },
{
}

/// A chunk of a body counts by its length and is merged where the body stands. A bounded
/// plan ends once its bytes are there; else a request that came up meanwhile restarts the
/// body at its place.
pub proof fn law_a_chunk_goes_where_the_body_stands(
    feeder: &mut Feeder,
    state: &mut BufferState,
    chunk: &[u8],
    r: Option<BodyEnd>,
    p: int,
)
    requires
        old(feeder).body_bytes + chunk@.len() <= u64::MAX,
        old(feeder).bytes_received + chunk@.len() <= u64::MAX,
        old(state).write_pos + chunk@.len() <= u64::MAX,
        call_ensures(Feeder::on_chunk, (feeder, state, chunk), r),
    ensures
        final(feeder).body_bytes == old(feeder).body_bytes + chunk@.len(),
        final(feeder).bytes_received == old(feeder).bytes_received + chunk@.len(),
        final(feeder).body_start == old(feeder).body_start,
        final(feeder).plan == old(feeder).plan,
        final(feeder).plan_limit == old(feeder).plan_limit,
        final(feeder).barren_bodies == old(feeder).barren_bodies,
        old(state).write_pos <= p < old(state).write_pos + chunk@.len() ==> final(state).byte_at(
            p,
        ) is Some,
        old(state).write_pos <= p < old(state).write_pos + chunk@.len() && old(state).byte_at(
            p,
        ) is None ==> final(state).byte_at(p) == Some(chunk@[p - old(state).write_pos]),
        !(old(state).write_pos <= p < old(state).write_pos + chunk@.len()) ==> final(state).byte_at(p) == old(state).byte_at(p),
        ({
            let filled = old(feeder).plan_limit is Some && final(feeder).body_bytes >= old(feeder).plan_limit->0;
            &&& filled <==> r == Some(BodyEnd::Ended)
            &&& !filled && old(state).pending_request is Some ==> (r matches Some(
                BodyEnd::Restart(next),
            ) && next.offset == old(state).pending_request->0 && next.end is None && final(state).write_pos == next.offset && final(state).range_start == next.offset && final(state).pending_request is None)
            &&& !filled && old(state).pending_request is None ==> r is None
            &&& filled || r is None ==> final(state).write_pos == old(state).write_pos
                + chunk@.len() && final(state).pending_request == old(state).pending_request
                && final(state).range_start == old(state).range_start
        }),
        final(state).download_complete == old(state).download_complete,
        final(state).download_error == old(state).download_error,
        final(state).total_size == old(state).total_size,
        final(state).primary_offset == old(state).primary_offset,
        final(state).readers == old(state).readers,
        final(state).reader_epoch == old(state).reader_epoch,
        final(state).seek_mode == old(state).seek_mode,
{
    let b = final(state).byte_at(p);
    if old(state).write_pos <= p && old(state).held_range(old(state).write_pos as int, p + 1) {
        assert(old(state).held(p));
    }
}

/// A feeder that is woken goes to the place that was asked for, and only where one was.
pub proof fn law_a_woken_feeder_goes_where_it_was_asked(
    feeder: &Feeder,
    state: &mut BufferState,
    r: Option<BodyEnd>,
)
    requires
        call_ensures(Feeder::on_wake, (feeder, state), r),
    ensures
        old(state).pending_request is None ==> r is None && *final(state) == *old(state),
        old(state).pending_request is Some ==> (r matches Some(BodyEnd::Restart(next))
            && next.offset == old(state).pending_request->0 && next.end is None && final(state).write_pos == next.offset && final(state).range_start == next.offset) && final(state).pending_request is None && final(state).segments == old(state).segments && final(state).download_complete == old(state).download_complete,
{
}

/// A body that brought bytes clears the count of barren ones, and one that brought none
/// adds one. The third barren body in a row gives up, and names where.
pub proof fn law_three_barren_bodies_give_up(
    feeder: &mut Feeder,
    state: &mut BufferState,
    end: BodyEnd,
    r: FeedStep,
)
    requires
        call_ensures(Feeder::on_body_end, (feeder, state, end), r),
    ensures
        old(feeder).body_bytes > 0 ==> final(feeder).barren_bodies == 0 && !(r is Fail),
        old(feeder).body_bytes == 0 ==> final(feeder).barren_bodies == old(feeder).barren_bodies
            + 1,
        !(end is Restart) && final(feeder).barren_bodies >= 3 ==> r is Fail && final(feeder).plan
            == old(feeder).plan && *final(state) == *old(state),
        end == BodyEnd::Failed && final(feeder).barren_bodies >= 3 ==> r == FeedStep::Fail(
            FeedError::BodyFailed { offset: old(feeder).plan.offset },
        ),
        end == BodyEnd::Ended && final(feeder).barren_bodies >= 3 ==> r == FeedStep::Fail(
            FeedError::NoProgress {
                offset: old(feeder).plan.offset,
                empty_bodies: final(feeder).barren_bodies,
            },
        ),
        end is Restart || final(feeder).barren_bodies < 3 ==> !(r is Fail),
        end == BodyEnd::Ended && 0 < final(feeder).barren_bodies < 3 ==> r == FeedStep::Open
            && final(feeder).plan == old(feeder).plan && *final(state) == *old(state),
        final(state).segments == old(state).segments,
{
}

/// A restart opens at its own plan. A body that broke off goes on where it broke, or at
/// the place that was asked for meanwhile.
pub proof fn law_a_broken_body_goes_on(
    feeder: &mut Feeder,
    state: &mut BufferState,
    end: BodyEnd,
    r: FeedStep,
)
    requires
        old(feeder).body_start + old(feeder).body_bytes <= u64::MAX,
        call_ensures(Feeder::on_body_end, (feeder, state, end), r),
    ensures
        end is Restart ==> r == FeedStep::Open && final(feeder).plan == end->Restart_0 && *final(state) == *old(state),
        end == BodyEnd::Failed && final(feeder).barren_bodies < 3 && (old(feeder).plan.end is None || old(feeder).body_start + old(feeder).body_bytes < old(feeder).plan.end->0) ==> {
            &&& r == FeedStep::Open
            &&& old(state).pending_request is None ==> final(feeder).plan.offset == old(feeder).body_start + old(feeder).body_bytes && final(feeder).plan.end == old(feeder).plan.end
            &&& old(state).pending_request is Some ==> final(feeder).plan.offset == old(state).pending_request->0 && final(feeder).plan.end is None
            &&& final(state).pending_request is None
            &&& final(state).write_pos == final(feeder).plan.offset
            &&& final(state).range_start == final(feeder).plan.offset
        },
{
}

/// A body that did its part makes way for what is missing: what was asked for, else the
/// first gap. The stream is done where nothing is missing, or where nobody reads it.
pub proof fn law_a_finished_body_makes_way(
    feeder: &mut Feeder,
    state: &mut BufferState,
    r: FeedStep,
    p: int,
)
    requires
        call_ensures(Feeder::on_body_end, (feeder, state, BodyEnd::Ended), r),
        old(feeder).body_bytes > 0,
    ensures
        r == FeedStep::Open || r == FeedStep::Done,
        r == FeedStep::Done ==> final(state).download_complete,
        old(state).readers == 0 || old(state).download_error is Some ==> r == FeedStep::Done,
        old(state).readers > 0 && old(state).download_error is None && old(state).pending_request is Some ==> r == FeedStep::Open && final(feeder).plan.offset == old(state).pending_request->0 && final(feeder).plan.end is None && final(state).write_pos == final(feeder).plan.offset,
        old(state).readers > 0 && old(state).download_error is None && old(state).pending_request is None && r == FeedStep::Open ==> {
            &&& old(state).seek_mode == StreamSeekMode::RangeRequests
            &&& 0 <= p < final(feeder).plan.offset ==> old(state).byte_at(p) is Some
            &&& old(state).byte_at(final(feeder).plan.offset as int) is None
            &&& final(state).write_pos == final(feeder).plan.offset
        },
        old(state).readers > 0 && old(state).download_error is None && r == FeedStep::Done && old(state).seek_mode == StreamSeekMode::RangeRequests && old(state).total_size is Some && 0 <= p
            < old(state).total_size->0 ==> old(state).byte_at(p) is Some,
{
    if old(state).readers > 0 && old(state).download_error is None && old(state).pending_request is None {
        if r == FeedStep::Open {
            let plan = final(feeder).plan;
            if 0 <= p < plan.offset {
                assert(old(state).held(p));
            }
            match plan.end {
                Some(end) => {
                    assert(!old(state).held(plan.offset as int));
                },
                None => {
                    assert(!old(state).held(plan.offset as int));
                },
            }
        } else if old(state).seek_mode == StreamSeekMode::RangeRequests && old(state).total_size is Some && 0 <= p < old(state).total_size->0 {
            assert(old(state).held_range(0, old(state).total_size->0 as int));
            assert(old(state).held(p));
        }
    }
}

/// A stream that is broken off fails, unless it has failed already.
pub proof fn law_a_stream_that_is_broken_off_fails(feeder: &Feeder, state: &mut BufferState)
    requires
        call_ensures(Feeder::abort, (feeder, state), ()),
    ensures
        final(state).download_error is Some,
        old(state).download_error is Some ==> *final(state) == *old(state),
        old(state).download_error is None ==> final(state).download_error->0@
            == "remote stream aborted before completion"@,
        final(state).segments == old(state).segments,
        final(state).download_complete == old(state).download_complete,
        final(state).write_pos == old(state).write_pos,
{
}

/// The causes of an error are told one behind the other: a further one follows behind a
/// colon and a space.
pub proof fn law_causes_are_told_in_order(
    causes: &Vec<String>,
    r: String,
    more: &Vec<String>,
    s: String,
)
    requires
        call_ensures(describe_error_chain, (causes,), r),
        call_ensures(describe_error_chain, (more,), s),
        more@.len() == causes@.len() + 1,
        more@.drop_last() == causes@,
    ensures
        causes@.len() == 0 ==> r@.len() == 0 && s@ == more@[0]@,
        causes@.len() > 0 ==> s@ == r@ + seq![':', ' '] + more@.last()@,
{
    reveal_strlit(": ");
    assert(": "@ =~= seq![':', ' ']);
}

/// An error tells of too many headers where its words do, in whatever case.
pub proof fn law_a_flood_of_headers_is_known_by_its_words(
    message: &str,
    r: bool,
    head: &str,
    many: &str,
    large: bool,
    many_headers: bool,
)
    requires
        call_ensures(is_header_flood_error, (message,), r),
        head@ == "message head is too large"@,
        many@ == "too many headers"@,
        call_ensures(crate::text::lowered_has_text, (message, head), large),
        call_ensures(crate::text::lowered_has_text, (message, many), many_headers),
    ensures
        r <==> large || many_headers,
{
}

/// A stream starts with a mebibyte for each second that is wanted, a quarter of one
/// where none is; no stream holds more than a hundred.
pub proof fn law_a_buffer_is_sized_by_its_seconds(
    seconds: u8,
    r: StreamingConfig,
    quick: StreamingConfig,
)
    requires
        call_ensures(StreamingConfig::from_seconds, (seconds,), r),
        call_ensures(StreamingConfig::fast_start, (), quick),
    ensures
        seconds > 0 ==> r.initial_buffer_bytes == seconds * 1048576,
        seconds == 0 ==> r.initial_buffer_bytes == 262144,
        r.max_buffer_bytes == 104857600,
        quick.initial_buffer_bytes == 262144,
        quick.max_buffer_bytes == 104857600,
{
}

/// A slower line starts with more, and each band has its own size; a cap holds for all
/// of them, and is the one that was set last.
pub proof fn law_a_buffer_is_sized_by_its_band(
    band: SpeedBand,
    size: usize,
    cap: usize,
    r: StreamingConfig,
    setting: &mut InitialBufferCap,
    set: &InitialBufferCap,
    told: usize,
)
    requires
        call_ensures(raw_initial_buffer_for_speed, (band,), size),
        call_ensures(StreamingConfig::from_speed_band, (band, cap), r),
        call_ensures(set_max_initial_buffer_bytes, (setting, cap), ()),
        *set == *final(setting),
        call_ensures(max_initial_buffer_bytes, (set,), told),
    ensures
        band is VeryFast ==> size == 262144,
        band is Fast ==> size == 393216,
        band is Normal ==> size == 524288,
        band is Slow ==> size == 1048576,
        band is VerySlow ==> size == 2097152,
        r.initial_buffer_bytes <= cap,
        r.initial_buffer_bytes <= size,
        r.initial_buffer_bytes == cap || r.initial_buffer_bytes == size,
        r.max_buffer_bytes == 104857600,
        told == cap,
{
}

/// A curve is found by its own key, and by its other names, in whatever case and with
/// white space around; no other text names one.
pub proof fn law_a_curve_is_found_by_its_names(
    key: &str,
    r: Option<VolumeCurve>,
    curve: VolumeCurve,
    name: &str,
    again: Option<VolumeCurve>,
)
    requires
        call_ensures(VolumeCurve::from_key, (key,), r),
        call_ensures(VolumeCurve::as_key, (curve,), name),
        call_ensures(VolumeCurve::from_key, (name,), again),
    ensures
        again == Some(curve),
        ({
            let word = crate::text::lowered(crate::text::trimmed(key@));
            &&& r == Some(VolumeCurve::Perceptual) <==> word == "perceptual"@ || word == "mpd"@
                || word == "exponential"@
            &&& r == Some(VolumeCurve::Linear) <==> word == "linear"@ || word == "amplitude"@
        }),
        curve is Perceptual ==> name@ == "perceptual"@,
        curve is Linear ==> name@ == "linear"@,
{
    reveal_strlit("perceptual");
    reveal_strlit("linear");
    reveal_strlit("mpd");
    reveal_strlit("exponential");
    reveal_strlit("amplitude");
    assert("perceptual"@[0] == 'p' && "perceptual"@.len() == 10);
    assert("exponential"@.len() == 11 && "linear"@.len() == 6 && "amplitude"@.len() == 9
        && "mpd"@.len() == 3);
    let t = crate::text::trimmed(name@);
    assert(t == name@);
    assert(crate::text::lowered(name@) =~= name@);
}

/// The curve that is set is the one that is used.
pub proof fn law_the_set_curve_is_used(
    setting: &mut VolumeCurveSetting,
    curve: VolumeCurve,
    after: &VolumeCurveSetting,
    r: VolumeCurve,
)
    requires
        call_ensures(set_volume_curve, (setting, curve), ()),
        *after == *final(setting),
        call_ensures(volume_curve, (after,), r),
    ensures
        r == curve,
{
}

} // verus!
