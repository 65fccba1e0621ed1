//! How decoding goes on: which packets are decoded, what a missing one means, and
//! when a source is at its end.

use vstd::prelude::*;
use vstd::string::*;

verus! {

/// How long to wait for more of the stream.
pub const STALL_WAIT_MS: u64 = 5;

/// The track that a demuxer found.
#[derive(Debug, Clone, Copy, PartialEq, Eq, Structural)]
pub struct TrackParams {
    pub id: u32,
    pub sample_rate: Option<u32>,
    pub channels: Option<u16>,
}

/// What the demuxer came up with.
#[derive(Debug, Clone, Copy, PartialEq, Eq, Structural)]
pub enum PacketOutcome {
    /// A packet of this track.
    Packet(u32),
    /// The data is not there yet.
    WouldBlock,
    /// The end, or an I/O error.
    IoError,
    OtherError,
}

/// What to do about a packet.
#[derive(Debug, Clone, Copy, PartialEq, Eq, Structural)]
pub enum PacketAction {
    Decode,
    /// Another track's: leave it.
    Skip,
    /// Wait for the download; a stall that begins is an underrun to record.
    Wait { record_underrun: bool },
    Stop,
}

/// What the decoder came up with.
#[derive(Debug, Clone, Copy, PartialEq, Eq, Structural)]
pub enum DecodeOutcome {
    Samples,
    /// The packet is damaged.
    DecodeError,
    ResetRequired,
    OtherError,
}

/// What to do about a decoded packet.
#[derive(Debug, Clone, Copy, PartialEq, Eq, Structural)]
pub enum DecodeAction {
    /// Go on, the samples are in the queue.
    Continue,
    /// Go on without the packet.
    Skip,
    /// Reset the decoder and go on.
    Reset,
    Stop,
}

/// The action that follows a packet's decoding.
pub open spec fn after_decoding(outcome: DecodeOutcome) -> DecodeAction {
    match outcome {
        DecodeOutcome::Samples => DecodeAction::Continue,
        DecodeOutcome::DecodeError => DecodeAction::Skip,
        DecodeOutcome::ResetRequired => DecodeAction::Reset,
        DecodeOutcome::OtherError => DecodeAction::Stop,
    }
}

fn action_after(outcome: DecodeOutcome) -> (r: DecodeAction)
    ensures
        r == after_decoding(outcome),
{
    match outcome {
        DecodeOutcome::Samples => DecodeAction::Continue,
        DecodeOutcome::DecodeError => DecodeAction::Skip,
        DecodeOutcome::ResetRequired => DecodeAction::Reset,
        DecodeOutcome::OtherError => DecodeAction::Stop,
    }
}

/// Half a second of samples.
pub open spec fn half_second(sample_rate: u32, channels: u16) -> int {
    (sample_rate * channels) / 2
}

fn half_second_of(sample_rate: u32, channels: u16) -> (r: u64)
    ensures
        r == half_second(sample_rate, channels),
{
    assert(0 <= sample_rate * channels <= u32::MAX * u16::MAX) by (nonlinear_arith)
        requires
            0 <= sample_rate <= u32::MAX,
            0 <= channels <= u16::MAX,
    ;
    (sample_rate as u64 * channels as u64) / 2
}

/// Why a track cannot be decoded, if it cannot.
pub open spec fn undecodable(track: Option<TrackParams>, no_track: Seq<char>) -> Option<
    Seq<char>,
> {
    match track {
        None => Some(no_track),
        Some(found) => if found.sample_rate is None {
            Some("No sample rate in codec params"@)
        } else {
            None
        },
    }
}

/// The channels of a track, stereo where it does not say.
pub open spec fn channels_of(track: TrackParams) -> u16 {
    match track.channels {
        Some(channels) => channels,
        None => 2,
    }
}

/// The decoding of a track that is still downloading.
#[derive(Debug, Clone, Copy, PartialEq, Eq, Structural)]
pub struct IncrementalStreamingSource {
    pub sample_rate: u32,
    pub channels: u16,
    pub track_id: u32,
    /// Nothing more comes.
    pub finished: bool,
    pub packets_decoded: u64,
    /// Playback has caught up with the download.
    pub stalled: bool,
}

impl IncrementalStreamingSource {
    /// Start decoding the track that the demuxer found.
    pub fn new(track: Option<TrackParams>) -> (r: Result<Self, String>)
        ensures
            match undecodable(track, "Symphonia: no supported audio tracks in stream"@) {
                Some(why) => r matches Err(message) && message@ == why,
                None => r == Ok::<Self, String>(
                    IncrementalStreamingSource {
                        sample_rate: track->0.sample_rate->0,
                        channels: channels_of(track->0),
                        track_id: track->0.id,
                        finished: false,
                        packets_decoded: 0,
                        stalled: false,
                    },
                ),
            },
    {
        let found = match track {
            Some(found) => found,
            None => return Err(
                String::from_str("Symphonia: no supported audio tracks in stream"),
            ),
        };
        let sample_rate: u32 = match found.sample_rate {
            Some(rate) => rate,
            None => return Err(String::from_str("No sample rate in codec params")),
        };
        let channels: u16 = match found.channels {
            Some(channels) => channels,
            None => 2,
        };
        Ok(
            IncrementalStreamingSource {
                sample_rate,
                channels,
                track_id: found.id,
                finished: false,
                packets_decoded: 0,
                stalled: false,
            },
        )
    }

    pub fn get_sample_rate(&self) -> (r: u32)
        ensures
            r == self.sample_rate,
    {
        self.sample_rate
    }

    pub fn get_channels(&self) -> (r: u16)
        ensures
            r == self.channels,
    {
        self.channels
    }

    /// The next sample cannot be taken before more is decoded: half a second is
    /// kept ready, until nothing more comes.
    pub fn wants_more(&self, queued: u64) -> (r: bool)
        ensures
            r == (!self.finished && queued < half_second(self.sample_rate, self.channels)),
    {
        !self.finished && queued < half_second_of(self.sample_rate, self.channels)
    }

    /// The decoder was moved to another place in the track.
    pub fn seek_to(&mut self)
        ensures
            *final(self) == (IncrementalStreamingSource {
                packets_decoded: 0,
                finished: false,
                ..*old(self)
            }),
    {
        self.packets_decoded = 0;
        self.finished = false;
    }

    /// What a packet, or the lack of one, leads to.
    pub open spec fn packet_action(self, outcome: PacketOutcome) -> PacketAction {
        match outcome {
            PacketOutcome::Packet(track_id) => if track_id == self.track_id {
                PacketAction::Decode
            } else {
                PacketAction::Skip
            },
            PacketOutcome::WouldBlock => PacketAction::Wait {
                record_underrun: !self.stalled && self.packets_decoded > 0,
            },
            PacketOutcome::IoError => PacketAction::Stop,
            PacketOutcome::OtherError => PacketAction::Stop,
        }
    }

    /// The state after a packet, or the lack of one.
    pub open spec fn after_packet(self, outcome: PacketOutcome) -> Self {
        IncrementalStreamingSource {
            finished: self.finished || self.packet_action(outcome) == PacketAction::Stop,
            stalled: self.stalled || (outcome == PacketOutcome::WouldBlock
                && self.packets_decoded > 0),
            ..self
        }
    }

    /// Take in what the demuxer came up with.
    pub fn on_packet(&mut self, outcome: PacketOutcome) -> (r: PacketAction)
        ensures
            r == old(self).packet_action(outcome),
            *final(self) == old(self).after_packet(outcome),
    {
        match outcome {
            PacketOutcome::Packet(track_id) => {
                if track_id == self.track_id {
                    PacketAction::Decode
                } else {
                    PacketAction::Skip
                }
            },
            PacketOutcome::WouldBlock => {
                let record_underrun = !self.stalled && self.packets_decoded > 0;
                if record_underrun {
                    self.stalled = true;
                }
                PacketAction::Wait { record_underrun }
            },
            PacketOutcome::IoError | PacketOutcome::OtherError => {
                self.finished = true;
                PacketAction::Stop
            },
        }
    }

    /// The state after a packet was decoded.
    pub open spec fn after_decode(self, outcome: DecodeOutcome) -> Self {
        match outcome {
            DecodeOutcome::Samples => IncrementalStreamingSource {
                packets_decoded: (self.packets_decoded + 1) as u64,
                stalled: false,
                ..self
            },
            DecodeOutcome::OtherError => IncrementalStreamingSource { finished: true, ..self },
            _ => self,
        }
    }

    /// Take in what the decoder came up with.
    pub fn on_decoded(&mut self, outcome: DecodeOutcome) -> (r: DecodeAction)
        requires
            old(self).packets_decoded < u64::MAX,
        ensures
            r == after_decoding(outcome),
            *final(self) == old(self).after_decode(outcome),
    {
        match outcome {
            DecodeOutcome::Samples => {
                self.packets_decoded = self.packets_decoded + 1;
                self.stalled = false;
            },
            DecodeOutcome::OtherError => {
                self.finished = true;
            },
            _ => {},
        }
        action_after(outcome)
    }
}

/// A stall is one underrun: once recorded, waiting on records none until a packet
/// has been decoded, and waiting before the first packet records none at all.
pub proof fn law_a_stall_is_one_underrun(source: IncrementalStreamingSource)
    ensures
        source.after_packet(PacketOutcome::WouldBlock).packet_action(PacketOutcome::WouldBlock)
            == (PacketAction::Wait { record_underrun: false }),
        source.packets_decoded == 0 ==> source.packet_action(PacketOutcome::WouldBlock) == (
        PacketAction::Wait { record_underrun: false }),
        source.packets_decoded < u64::MAX ==> source.after_decode(
            DecodeOutcome::Samples,
        ).packet_action(PacketOutcome::WouldBlock) == (PacketAction::Wait {
            record_underrun: true,
        }),
{
}

/// The decoding of a track that is there as a whole.
#[derive(Debug, Clone, Copy, PartialEq, Eq, Structural)]
pub struct InMemorySource {
    pub sample_rate: u32,
    pub channels: u16,
    pub track_id: u32,
    /// Nothing more comes.
    pub finished: bool,
}

impl InMemorySource {
    /// Start decoding the track that the demuxer found.
    pub fn new(track: Option<TrackParams>) -> (r: Result<Self, String>)
        ensures
            match undecodable(track, "Symphonia: no supported audio tracks"@) {
                Some(why) => r matches Err(message) && message@ == why,
                None => r == Ok::<Self, String>(
                    InMemorySource {
                        sample_rate: track->0.sample_rate->0,
                        channels: channels_of(track->0),
                        track_id: track->0.id,
                        finished: false,
                    },
                ),
            },
    {
        let found = match track {
            Some(found) => found,
            None => return Err(String::from_str("Symphonia: no supported audio tracks")),
        };
        let sample_rate: u32 = match found.sample_rate {
            Some(rate) => rate,
            None => return Err(String::from_str("No sample rate in codec params")),
        };
        let channels: u16 = match found.channels {
            Some(channels) => channels,
            None => 2,
        };
        Ok(InMemorySource { sample_rate, channels, track_id: found.id, finished: false })
    }

    /// The next sample cannot be taken before more is decoded: half a second is
    /// kept ready, until nothing more comes.
    pub fn wants_more(&self, queued: u64) -> (r: bool)
        ensures
            r == (!self.finished && queued < half_second(self.sample_rate, self.channels)),
    {
        !self.finished && queued < half_second_of(self.sample_rate, self.channels)
    }

    /// The decoder was moved to another place in the track.
    pub fn seek_to(&mut self)
        ensures
            *final(self) == (InMemorySource { finished: false, ..*old(self) }),
    {
        self.finished = false;
    }

    /// Take in what the demuxer came up with. The whole track is there, so there
    /// is nothing to wait for.
    pub fn on_packet(&mut self, outcome: PacketOutcome) -> (r: PacketAction)
        ensures
            r == (match outcome {
                PacketOutcome::Packet(track_id) => if track_id == old(self).track_id {
                    PacketAction::Decode
                } else {
                    PacketAction::Skip
                },
                _ => PacketAction::Stop,
            }),
            *final(self) == (InMemorySource {
                finished: old(self).finished || r == PacketAction::Stop,
                ..*old(self)
            }),
    {
        match outcome {
            PacketOutcome::Packet(track_id) => {
                if track_id == self.track_id {
                    PacketAction::Decode
                } else {
                    PacketAction::Skip
                }
            },
            _ => {
                self.finished = true;
                PacketAction::Stop
            },
        }
    }

    /// Take in what the decoder came up with.
    pub fn on_decoded(&mut self, outcome: DecodeOutcome) -> (r: DecodeAction)
        ensures
            r == after_decoding(outcome),
            *final(self) == (InMemorySource {
                finished: old(self).finished || r == DecodeAction::Stop,
                ..*old(self)
            }),
    {
        if matches!(outcome, DecodeOutcome::OtherError) {
            self.finished = true;
        }
        action_after(outcome)
    }
}

} // verus!
