//! What holds of the values that the rest is built from, call by call.

use vstd::prelude::*;
use vstd::string::*;

use crate::decode::IncrementalStreamingSource;
use crate::engine::{BufferingLatch, LoadStage, TrackLoad, VolumeMode};
use crate::media_source::{BufferWriter, BufferedMediaSource};
use crate::pairing::{
    accept_handoff, parse_connect_request, read_handoff, HandoffFields, PairingTokens, TokenKind,
};
use crate::playback_engine::{Line, PlaybackEngine, SourceQueue};
use crate::queue::{
    copy_items, copy_opt_vec, copy_vec, same_indices, same_items, same_order, QConnectQueueState,
    QueueItem, QueueVersion,
};
use crate::renderer_model::{
    copy_opt_text, QConnectRendererState, QconnectRemoteSyncState, QueueTrack,
};
use crate::report::ReportScheduler;
use crate::stream_buffer::{BufferSegment, BufferState};
use crate::stream_config::{InitialBufferCap, StreamSeekMode, StreamingConfig};
use crate::volume_curve::{VolumeCurve, VolumeCurveSetting};
use crate::writer::{AlsaWriter, DopWriter, JackFeeder};

verus! {

/// Items are the same where they name the same track in the same place of the same
/// context, and a copy is.
pub proof fn law_items_are_compared_and_copied_whole(
    a: &QueueItem,
    b: &QueueItem,
    same: bool,
    copy: QueueItem,
)
    requires
        call_ensures(QueueItem::same, (a, b), same),
        call_ensures(QueueItem::copy, (a,), copy),
    ensures
        same <==> crate::command_laws::is_the_same_item(*a, *b),
        crate::command_laws::is_the_same_item(copy, *a),
{
}

/// Lists of items are the same where each item is, and a copy is.
pub proof fn law_lists_are_compared_and_copied_whole(
    a: &Vec<QueueItem>,
    b: &Vec<QueueItem>,
    same: bool,
    copy: Vec<QueueItem>,
)
    requires
        call_ensures(same_items, (a, b), same),
        call_ensures(copy_items, (a,), copy),
    ensures
        same <==> crate::command_laws::are_the_same_items(a@, b@),
        crate::command_laws::are_the_same_items(copy@, a@),
{
    crate::command_laws::lemma_same_items(a@, b@);
    crate::command_laws::lemma_same_items(copy@, a@);
}

/// Orders are the same where they name the same places, and a copy is; there is none only
/// where there was none.
pub proof fn law_orders_are_compared_and_copied_whole(
    a: &Option<Vec<usize>>,
    b: &Option<Vec<usize>>,
    same: bool,
    x: &Vec<usize>,
    y: &Vec<usize>,
    equal: bool,
    v: Vec<usize>,
    copy: Option<Vec<usize>>,
)
    requires
        call_ensures(same_order, (a, b), same),
        call_ensures(same_indices, (x, y), equal),
        call_ensures(copy_vec::<usize>, (x,), v),
        call_ensures(copy_opt_vec::<usize>, (a,), copy),
    ensures
        same <==> (a is Some <==> b is Some) && (a is Some ==> a->0@ == b->0@),
        equal <==> x@ == y@,
        v@ == x@,
        copy is Some <==> a is Some,
        copy is Some ==> copy->0@ == a->0@,
{
}

/// A copy of a queue has everything that the queue has.
pub proof fn law_a_queue_is_copied_whole(queue: &QConnectQueueState, r: QConnectQueueState)
    requires
        call_ensures(QConnectQueueState::copy, (queue,), r),
    ensures
        r.version.major == queue.version.major,
        r.version.minor == queue.version.minor,
        crate::command_laws::are_the_same_items(r.queue_items@, queue.queue_items@),
        crate::command_laws::are_the_same_items(r.autoplay_items@, queue.autoplay_items@),
        r.shuffle_mode == queue.shuffle_mode,
        r.shuffle_order is Some <==> queue.shuffle_order is Some,
        r.shuffle_order is Some ==> r.shuffle_order->0@ == queue.shuffle_order->0@,
        r.autoplay_mode == queue.autoplay_mode,
        r.autoplay_loading == queue.autoplay_loading,
        r.updated_at_ms == queue.updated_at_ms,
        r.last_server_queue_hash is Some <==> queue.last_server_queue_hash is Some,
        r.last_server_queue_hash is Some ==> r.last_server_queue_hash->0@
            == queue.last_server_queue_hash->0@,
        r.selected_queue_position == queue.selected_queue_position,
{
    assert(r@ == queue@);
    crate::command_laws::lemma_same_items(r.queue_items@, queue.queue_items@);
    crate::command_laws::lemma_same_items(r.autoplay_items@, queue.autoplay_items@);
    assert(r@.shuffle_order == queue@.shuffle_order);
    assert(r@.last_server_queue_hash == queue@.last_server_queue_hash);
}

/// A version has the parts that it is given, the first is zero, and a queue starts with it
/// and with nothing in it.
pub proof fn law_a_queue_starts_empty(
    major: u64,
    minor: u64,
    version: QueueVersion,
    first: QueueVersion,
    queue: QConnectQueueState,
)
    requires
        call_ensures(QueueVersion::new, (major, minor), version),
        call_ensures(QueueVersion::default, (), first),
        call_ensures(QConnectQueueState::default, (), queue),
    ensures
        version.major == major,
        version.minor == minor,
        first.major == 0,
        first.minor == 0,
        queue.version.major == 0,
        queue.version.minor == 0,
        queue.queue_items@.len() == 0,
        queue.autoplay_items@.len() == 0,
        !queue.shuffle_mode,
        queue.shuffle_order is None,
        !queue.autoplay_mode,
        !queue.autoplay_loading,
        queue.updated_at_ms == 0,
        queue.last_server_queue_hash is None,
        queue.selected_queue_position is None,
{
    assert(queue@.queue_items.len() == queue.queue_items@.len());
    assert(queue@.autoplay_items.len() == queue.autoplay_items@.len());
}

/// A copy of a track of the queue is that track, and a copy of a text is that text.
pub proof fn law_a_track_is_copied_whole(
    track: &QueueTrack,
    r: QueueTrack,
    text: &Option<String>,
    copy: Option<String>,
)
    requires
        call_ensures(QueueTrack::copy, (track,), r),
        call_ensures(copy_opt_text, (text,), copy),
    ensures
        r == *track,
        copy == *text,
{
}

/// Nothing is known of a renderer or of a session at first.
pub proof fn law_nothing_is_known_at_first(
    renderer: QConnectRendererState,
    sync: QconnectRemoteSyncState,
    latch: BufferingLatch,
    mode: VolumeMode,
)
    requires
        call_ensures(QConnectRendererState::default, (), renderer),
        call_ensures(QconnectRemoteSyncState::default, (), sync),
        call_ensures(BufferingLatch::default, (), latch),
        call_ensures(VolumeMode::default, (), mode),
    ensures
        renderer.playing_state is None,
        renderer.current_position_ms is None,
        renderer.current_track is None,
        renderer.next_track is None,
        renderer.volume is None,
        renderer.loop_mode is None,
        renderer.shuffle_mode is None,
        renderer.max_audio_quality is None,
        sync.last_load_attempt is None,
        sync.last_remote_queue_state is None,
        sync.last_applied_queue_state is None,
        sync.last_renderer_queue_item_id is None,
        sync.last_renderer_track_id is None,
        sync.last_renderer_next_queue_item_id is None,
        sync.last_renderer_next_track_id is None,
        sync.last_renderer_playing_state is None,
        sync.last_renderer_max_audio_quality is None,
        sync.last_materialized_start_index is None,
        sync.last_materialized_core_shuffle_order is None,
        sync.local_render_active is None,
        latch.load is None,
        mode is Software,
{
}

/// The volume is locked where the setting says so, with white space around or without; any
/// other setting, and none, leaves it to the software. A load starts at its track and its
/// place, by finding where it is.
pub proof fn law_a_volume_is_locked_by_its_word(
    value: Option<&str>,
    mode: VolumeMode,
    track: u64,
    duration: u64,
    start: u64,
    load: TrackLoad,
)
    requires
        call_ensures(VolumeMode::from_kv, (value,), mode),
        call_ensures(TrackLoad::new, (track, duration, start), load),
    ensures
        mode is Locked <==> value is Some && crate::text::trimmed(value->0@) == "locked"@,
        load.track_id == track,
        load.duration_secs == duration,
        load.start_position_secs == start,
        load.stage == LoadStage::Resolving,
{
}

/// A new line is idle and silent, at the rate that it was made for; each engine is of its
/// own kind and says so.
pub proof fn law_an_engine_starts_idle<S>(
    rate: u32,
    hardware: bool,
    queue: SourceQueue<S>,
    line: Line<S>,
    rodio: PlaybackEngine<S>,
    alsa: PlaybackEngine<S>,
    jack: PlaybackEngine<S>,
    dop: PlaybackEngine<S>,
)
    requires
        call_ensures(SourceQueue::<S>::new, (), queue),
        call_ensures(Line::<S>::new, (rate,), line),
        call_ensures(PlaybackEngine::<S>::new_rodio, (), rodio),
        call_ensures(PlaybackEngine::<S>::new_alsa_direct, (rate, hardware), alsa),
        call_ensures(PlaybackEngine::<S>::new_jack, (rate,), jack),
        call_ensures(PlaybackEngine::<S>::new_alsa_dop, (rate,), dop),
    ensures
        queue@.len() == 0,
        is_a_fresh_line(line, rate),
        rodio is Rodio,
        (alsa matches PlaybackEngine::AlsaDirect { line, hardware_volume } && is_a_fresh_line(
            line,
            rate,
        ) && hardware_volume == hardware),
        (jack matches PlaybackEngine::Jack { line } && is_a_fresh_line(line, rate)),
        (dop matches PlaybackEngine::AlsaDop { line } && is_a_fresh_line(line, rate)),
{
}

/// Nothing plays on the line, nothing waits, and nothing has been counted.
pub open spec fn is_a_fresh_line<S>(line: Line<S>, rate: u32) -> bool {
    &&& !line.is_playing
    &&& !line.should_stop
    &&& line.position_frames == 0
    &&& line.duration_frames == 0
    &&& line.sources@.len() == 0
    &&& !line.source_transition
    &&& line.sample_rate == rate
}

/// What kind an engine is, and whether its queue is empty, is told as it is.
pub proof fn law_an_engine_tells_its_kind<S>(
    engine: &PlaybackEngine<S>,
    dop: bool,
    alsa: bool,
    queue: &SourceQueue<S>,
    empty: bool,
)
    requires
        call_ensures(PlaybackEngine::<S>::is_dop, (engine,), dop),
        call_ensures(PlaybackEngine::<S>::is_alsa_direct, (engine,), alsa),
        call_ensures(SourceQueue::<S>::is_empty, (queue,), empty),
    ensures
        dop <==> *engine is AlsaDop,
        alsa <==> *engine is AlsaDirect,
        empty <==> queue@.len() == 0,
{
}

/// A new writer has no source and has written nothing; one that leaves stops its line and
/// nothing else.
pub proof fn law_a_writer_starts_and_leaves_silent<S>(
    channels: u16,
    carrier: u32,
    alsa: AlsaWriter<S>,
    jack: JackFeeder<S>,
    dop: DopWriter<S>,
    writer: &AlsaWriter<S>,
    line: &mut Line<S>,
    feeder: &JackFeeder<S>,
    other: &mut Line<S>,
)
    requires
        call_ensures(AlsaWriter::<S>::new, (channels,), alsa),
        call_ensures(JackFeeder::<S>::new, (), jack),
        call_ensures(DopWriter::<S>::new, (channels, carrier), dop),
        call_ensures(AlsaWriter::<S>::on_exit, (writer, line), ()),
        call_ensures(JackFeeder::<S>::on_exit, (feeder, other), ()),
    ensures
        alsa.current is None,
        alsa.total_frames == 0,
        !alsa.resume_pending,
        alsa.channels == channels,
        jack.current is None,
        jack.total_frames == 0,
        dop.current is None,
        !dop.had_source,
        dop.channels == channels,
        dop.carrier == carrier,
        !final(line).is_playing,
        final(line).should_stop == old(line).should_stop,
        final(line).position_frames == old(line).position_frames,
        final(line).duration_frames == old(line).duration_frames,
        final(line).sources == old(line).sources,
        final(line).source_transition == old(line).source_transition,
        final(line).sample_rate == old(line).sample_rate,
        !final(other).is_playing,
        final(other).should_stop == old(other).should_stop,
        final(other).position_frames == old(other).position_frames,
        final(other).duration_frames == old(other).duration_frames,
        final(other).sources == old(other).sources,
        final(other).source_transition == old(other).source_transition,
        final(other).sample_rate == old(other).sample_rate,
{
}

/// A source tells its own rate and channels.
pub proof fn law_a_source_tells_its_format(
    source: &IncrementalStreamingSource,
    rate: u32,
    channels: u16,
)
    requires
        call_ensures(IncrementalStreamingSource::get_sample_rate, (source,), rate),
        call_ensures(IncrementalStreamingSource::get_channels, (source,), channels),
    ensures
        rate == source.sample_rate,
        channels == source.channels,
{
}

/// A stream of either mode starts empty, for its size and in its mode.
pub proof fn law_a_stream_starts_in_its_mode(
    config: StreamingConfig,
    size: Option<u64>,
    mode: StreamSeekMode,
    r: (BufferedMediaSource, BufferWriter, BufferState),
    state: BufferState,
    p: int,
)
    requires
        call_ensures(BufferedMediaSource::with_seek_mode, (config, size, mode), r),
        call_ensures(BufferState::empty, (size, mode), state),
    ensures
        r.0.config == config,
        r.0.read_pos == 0,
        r.0.reader_id == r.2.reader_epoch,
        r.2.seek_mode == mode,
        r.2.total_size == size,
        r.2.byte_at(p) is None,
        r.2.readers == 1,
        !r.2.download_complete,
        r.2.pending_request is None,
        r.2.download_error is None,
        state.byte_at(p) is None,
        state.total_size == size,
        state.seek_mode == mode,
        state.write_pos == 0,
        state.range_start == 0,
        state.primary_offset == 0,
        state.readers == 1,
        state.reader_epoch == 0,
        !state.download_complete,
        state.download_error is None,
        state.pending_request is None,
{
    assert(!r.2.held(p));
    assert(!state.held(p));
}

/// A run ends behind its bytes; joining runs changes no byte; a body that begins stands at
/// its offset; the head is the run that starts at byte 0.
pub proof fn law_runs_keep_their_bytes(
    seg: &BufferSegment,
    end: u64,
    state: &mut BufferState,
    begun: &mut BufferState,
    offset: u64,
    whole: &BufferState,
    head: Option<&BufferSegment>,
    p: int,
)
    requires
        call_ensures(BufferSegment::end, (seg,), end),
        call_ensures(BufferState::coalesce, (state,), ()),
        call_ensures(BufferState::begin, (begun, offset), ()),
        call_ensures(BufferState::head_run, (whole,), head),
    ensures
        end == seg.offset + seg.data@.len(),
        final(state).byte_at(p) == old(state).byte_at(p),
        final(state).write_pos == old(state).write_pos,
        final(state).range_start == old(state).range_start,
        final(state).total_size == old(state).total_size,
        final(begun).range_start == offset,
        final(begun).write_pos == offset,
        final(begun).segments == old(begun).segments,
        final(begun).total_size == old(begun).total_size,
        final(begun).pending_request == old(begun).pending_request,
        head is Some <==> whole.segments@.len() > 0 && whole.segments@[0].offset == 0,
        head is Some ==> *head->0 == whole.segments@[0],
        head is Some && 0 <= p < head->0.data@.len() ==> crate::buffer_laws::run_covers(*whole, 0, p),
{
    let b = old(state).byte_at(p);
}

/// Joined runs do not touch: there is a byte missing between any two.
pub proof fn law_joined_runs_are_apart(state: &mut BufferState, i: int, j: int)
    requires
        call_ensures(BufferState::coalesce, (state,), ()),
        0 <= i < j < final(state).segments@.len(),
    ensures
        final(state).segments@[i].offset + final(state).segments@[i].data@.len() < final(state).segments@[j].offset,
        final(state).segments@[i].data@.len() > 0,
{
    let runs = final(state).segments@;
    assert(runs[i].end_pos() < runs[j].offset);
}

/// The settings as they are at first: half a mebibyte to start with and a hundred at most,
/// no cap, and the perceptual curve; nothing has been reported.
pub proof fn law_settings_have_their_defaults(
    config: StreamingConfig,
    cap: InitialBufferCap,
    curve: VolumeCurve,
    setting: VolumeCurveSetting,
    scheduler: ReportScheduler,
)
    requires
        call_ensures(StreamingConfig::default, (), config),
        call_ensures(InitialBufferCap::default, (), cap),
        call_ensures(VolumeCurve::default, (), curve),
        call_ensures(VolumeCurveSetting::default, (), setting),
        call_ensures(ReportScheduler::default, (), scheduler),
    ensures
        config.initial_buffer_bytes == 524288,
        config.max_buffer_bytes == 104857600,
        cap.bytes == usize::MAX,
        curve is Perceptual,
        setting.curve is Perceptual,
        scheduler.floor_ms == 2000,
        !scheduler.was_buffering,
        scheduler.at_end_since is None,
        scheduler.last_signature is None,
{
}

/// A handoff is read from its document field by field, and taken as its fields are.
pub proof fn law_a_handoff_is_read_field_by_field(
    body: &serde_json::Value,
    fields: HandoffFields,
    now: u64,
    r: Result<PairingTokens, String>,
    taken: Result<PairingTokens, String>,
)
    requires
        call_ensures(read_handoff, (body,), fields),
        call_ensures(parse_connect_request, (body, now), r),
        call_ensures(accept_handoff, (fields, now), taken),
    ensures
        fields.has_ws <==> crate::json::json_places(*body).contains("/jwt_qconnect"@),
        says(fields.session_id, *body, "/session_id"@),
        says(fields.ws_jwt, *body, "/jwt_qconnect/jwt"@),
        says(fields.ws_endpoint, *body, "/jwt_qconnect/endpoint"@),
        says(fields.api_jwt, *body, "/jwt_api/jwt"@),
        counts(fields.ws_exp, *body, "/jwt_qconnect/exp"@),
        counts(fields.api_exp, *body, "/jwt_api/exp"@),
        r is Ok <==> taken is Ok,
        r is Err ==> r->Err_0@ == taken->Err_0@,
        r is Ok ==> {
            &&& (r->Ok_0).ws_jwt@ == (taken->Ok_0).ws_jwt@
            &&& (r->Ok_0).ws_endpoint@ == (taken->Ok_0).ws_endpoint@
            &&& (r->Ok_0).session_id@ == (taken->Ok_0).session_id@
            &&& (r->Ok_0).ws_exp == (taken->Ok_0).ws_exp
            &&& (r->Ok_0).api_exp == (taken->Ok_0).api_exp
            &&& (r->Ok_0).api_jwt is Some <==> (taken->Ok_0).api_jwt is Some
            &&& (r->Ok_0).api_jwt is Some ==> (r->Ok_0).api_jwt->0@ == (
            taken->Ok_0).api_jwt->0@
        },
{
    let other = choose|other: HandoffFields|
        {
            &&& #[trigger] crate::pairing::carries(*body, other)
            &&& match other.refusal(now) {
                Some(why) => r matches Err(message) && message@ == why,
                None => r matches Ok(tokens) && other.hands_over(tokens) && tokens.is_live(now),
            }
        };
    assert(crate::pairing::carries(*body, other));
    assert(crate::pairing::carries(*body, fields));
    crate::pairing_laws::lemma_same_fields(*body, fields, other, now);
}

/// The text is the one at this place of the document.
pub open spec fn says(
    text: Option<String>,
    document: serde_json::Value,
    place: Seq<char>,
) -> bool {
    let texts = crate::json::json_texts(document);
    &&& text is Some <==> texts.contains_key(place)
    &&& text is Some ==> text->0@ == texts[place]
}

/// The number is the one at this place of the document.
pub open spec fn counts(
    number: Option<u64>,
    document: serde_json::Value,
    place: Seq<char>,
) -> bool {
    let numbers = crate::json::json_unsigned(document);
    &&& number is Some <==> numbers.contains_key(place)
    &&& number is Some ==> number->0 == numbers[place]
}

/// The kinds of tokens have their names.
pub proof fn law_a_token_kind_has_its_name(kind: TokenKind, r: &'static str)
    requires
        call_ensures(TokenKind::name, (kind,), r),
    ensures
        kind is Api ==> r@ == "jwt_api"@,
        kind is Ws ==> r@ == "jwt_qws"@,
{
    reveal_strlit("/");
    reveal_strlit("/jwt_api");
    reveal_strlit("/jwt_qws");
    reveal_strlit("jwt_api");
    reveal_strlit("jwt_qws");
    let all = "/"@ + r@;
    assert(all.skip(1) =~= r@);
    assert("/jwt_api"@.skip(1) =~= "jwt_api"@);
    assert("/jwt_qws"@.skip(1) =~= "jwt_qws"@);
}

} // verus!
