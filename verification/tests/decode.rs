use qbz::decode::{
    DecodeAction, DecodeOutcome, InMemorySource, IncrementalStreamingSource, PacketAction,
    PacketOutcome, TrackParams,
};

const TRACK: TrackParams = TrackParams { id: 3, sample_rate: Some(44_100), channels: None };

#[test]
fn a_track_needs_a_sample_rate_and_is_stereo_by_default() {
    let source = IncrementalStreamingSource::new(Some(TRACK)).expect("decodable");
    assert_eq!(source.get_sample_rate(), 44_100);
    assert_eq!(source.get_channels(), 2);
    let mono = TrackParams { channels: Some(1), ..TRACK };
    assert_eq!(InMemorySource::new(Some(mono)).expect("decodable").channels, 1);
    assert_eq!(
        IncrementalStreamingSource::new(None),
        Err("Symphonia: no supported audio tracks in stream".to_string())
    );
    assert_eq!(
        InMemorySource::new(None),
        Err("Symphonia: no supported audio tracks".to_string())
    );
    let unknown = TrackParams { sample_rate: None, ..TRACK };
    assert_eq!(
        InMemorySource::new(Some(unknown)),
        Err("No sample rate in codec params".to_string())
    );
    assert_eq!(
        IncrementalStreamingSource::new(Some(unknown)),
        Err("No sample rate in codec params".to_string())
    );
}

#[test]
fn half_a_second_is_kept_ready() {
    let source = IncrementalStreamingSource::new(Some(TRACK)).expect("decodable");
    assert!(source.wants_more(44_099));
    assert!(!source.wants_more(44_100));
}

#[test]
fn a_stall_is_one_underrun() {
    let mut source = IncrementalStreamingSource::new(Some(TRACK)).expect("decodable");
    let wait = |record_underrun| PacketAction::Wait { record_underrun };
    // The initial fill is no underrun.
    assert_eq!(source.on_packet(PacketOutcome::WouldBlock), wait(false));
    assert_eq!(source.on_packet(PacketOutcome::Packet(3)), PacketAction::Decode);
    assert_eq!(source.on_decoded(DecodeOutcome::Samples), DecodeAction::Continue);
    assert_eq!(source.on_packet(PacketOutcome::WouldBlock), wait(true));
    assert_eq!(source.on_packet(PacketOutcome::WouldBlock), wait(false));
    // A damaged packet does not end the stall, a good one does.
    assert_eq!(source.on_decoded(DecodeOutcome::DecodeError), DecodeAction::Skip);
    assert_eq!(source.on_packet(PacketOutcome::WouldBlock), wait(false));
    assert_eq!(source.on_decoded(DecodeOutcome::Samples), DecodeAction::Continue);
    assert_eq!(source.on_packet(PacketOutcome::WouldBlock), wait(true));
}

#[test]
fn other_tracks_are_skipped_and_errors_end_the_source() {
    let mut source = IncrementalStreamingSource::new(Some(TRACK)).expect("decodable");
    assert_eq!(source.on_packet(PacketOutcome::Packet(4)), PacketAction::Skip);
    assert_eq!(source.on_decoded(DecodeOutcome::ResetRequired), DecodeAction::Reset);
    assert_eq!(source.on_packet(PacketOutcome::IoError), PacketAction::Stop);
    assert!(!source.wants_more(0));
    // A seek starts it anew.
    source.seek_to();
    assert!(source.wants_more(0));
    assert_eq!(source.on_decoded(DecodeOutcome::OtherError), DecodeAction::Stop);
    assert!(!source.wants_more(0));
}

#[test]
fn a_whole_track_waits_for_nothing() {
    let mut source = InMemorySource::new(Some(TRACK)).expect("decodable");
    assert_eq!(source.on_packet(PacketOutcome::Packet(3)), PacketAction::Decode);
    assert_eq!(source.on_decoded(DecodeOutcome::Samples), DecodeAction::Continue);
    assert!(source.wants_more(0));
    assert_eq!(source.on_packet(PacketOutcome::WouldBlock), PacketAction::Stop);
    assert!(!source.wants_more(0));
    source.seek_to();
    assert!(source.wants_more(0));
}
