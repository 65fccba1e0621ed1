//! Streaming-buffer configuration.

use vstd::prelude::*;

verus! {

const KIB: usize = 1024;

const MAX_BUFFER_BYTES: usize = 100 * 1024 * 1024;

/// Configuration for the streaming buffer.
#[derive(Debug, Clone, Copy)]
pub struct StreamingConfig {
    /// Minimum bytes to buffer before allowing reads (for format detection).
    pub initial_buffer_bytes: usize,
    /// Maximum buffer size before backpressure (not enforced, just for info).
    pub max_buffer_bytes: usize,
}

impl Default for StreamingConfig {
    fn default() -> (r: Self)
        ensures
            r.initial_buffer_bytes == 512 * 1024,
            r.max_buffer_bytes == 100 * 1024 * 1024,
    {
        Self { initial_buffer_bytes: 512 * KIB, max_buffer_bytes: MAX_BUFFER_BYTES }
    }
}

impl StreamingConfig {
    /// Configuration from buffer seconds, at about a mebibyte per second, and
    /// never below what format detection needs.
    pub fn from_seconds(seconds: u8) -> (r: Self)
        ensures
            r.initial_buffer_bytes == if seconds == 0 {
                256 * 1024int
            } else {
                seconds * 1024 * 1024
            },
            r.max_buffer_bytes == 100 * 1024 * 1024,
    {
        let asked: usize = (seconds as usize) * 1024 * 1024;
        let bytes: usize = if asked > 256 * KIB {
            asked
        } else {
            256 * KIB
        };
        Self { initial_buffer_bytes: bytes, max_buffer_bytes: MAX_BUFFER_BYTES }
    }

    /// The smallest buffer that still allows format detection.
    pub fn fast_start() -> (r: Self)
        ensures
            r.initial_buffer_bytes == 256 * 1024,
            r.max_buffer_bytes == 100 * 1024 * 1024,
    {
        Self { initial_buffer_bytes: 256 * KIB, max_buffer_bytes: MAX_BUFFER_BYTES }
    }

    /// Configuration for a measured download speed, its initial buffer never
    /// above `cap`.
    pub fn from_speed_band(band: SpeedBand, cap: usize) -> (r: Self)
        ensures
            r.initial_buffer_bytes == if band.initial_buffer() <= cap {
                band.initial_buffer()
            } else {
                cap as nat
            },
            r.max_buffer_bytes == 100 * 1024 * 1024,
    {
        let raw: usize = raw_initial_buffer_for_speed(band);
        Self {
            initial_buffer_bytes: if raw <= cap {
                raw
            } else {
                cap
            },
            max_buffer_bytes: MAX_BUFFER_BYTES,
        }
    }
}

/// A measured download speed, as the ladder of initial buffers tells them
/// apart.
#[derive(Debug, Clone, Copy, PartialEq, Eq, Structural)]
pub enum SpeedBand {
    /// 10 MB/s and more.
    VeryFast,
    /// 5 MB/s up to 10 MB/s.
    Fast,
    /// 2 MB/s up to 5 MB/s.
    Normal,
    /// 1 MB/s up to 2 MB/s.
    Slow,
    /// Less than 1 MB/s.
    VerySlow,
}

impl SpeedBand {
    /// The initial buffer for the band, before any cap.
    pub open spec fn initial_buffer(self) -> nat {
        match self {
            SpeedBand::VeryFast => 256 * 1024,
            SpeedBand::Fast => 384 * 1024,
            SpeedBand::Normal => 512 * 1024,
            SpeedBand::Slow => 1024 * 1024,
            SpeedBand::VerySlow => 2 * 1024 * 1024,
        }
    }
}

/// Speed-driven initial buffer size, before any cap is applied.
pub fn raw_initial_buffer_for_speed(band: SpeedBand) -> (r: usize)
    ensures
        r == band.initial_buffer(),
{
    match band {
        SpeedBand::VeryFast => 256 * KIB,
        SpeedBand::Fast => 384 * KIB,
        SpeedBand::Normal => 512 * KIB,
        SpeedBand::Slow => 1024 * KIB,
        SpeedBand::VerySlow => 2048 * KIB,
    }
}

/// The host's cap on speed-driven initial buffers. No cap until one is set.
#[derive(Debug, Clone, Copy)]
pub struct InitialBufferCap {
    pub bytes: usize,
}

impl Default for InitialBufferCap {
    fn default() -> (r: Self)
        ensures
            r.bytes == usize::MAX,
    {
        Self { bytes: usize::MAX }
    }
}

/// Set the cap on speed-driven initial buffers.
pub fn set_max_initial_buffer_bytes(cap: &mut InitialBufferCap, bytes: usize)
    ensures
        final(cap).bytes == bytes,
{
    cap.bytes = bytes;
}

/// The cap on speed-driven initial buffers.
pub fn max_initial_buffer_bytes(cap: &InitialBufferCap) -> (r: usize)
    ensures
        r == cap.bytes,
{
    cap.bytes
}

/// Whether the feeder behind a buffer can restart its body at an arbitrary
/// byte offset.
#[derive(Debug, Clone, Copy, PartialEq, Eq, Structural)]
pub enum StreamSeekMode {
    /// Bytes arrive in order from wherever the feeder started; reads ahead
    /// of the download head block until it gets there.
    Sequential,
    /// The feeder honors range requests: a read anywhere in the file makes
    /// it re-open the body at that offset.
    RangeRequests,
}

/// A slower connection never gets a smaller initial buffer.
pub proof fn law_slower_never_buffers_less(fast: SpeedBand, slow: SpeedBand)
    requires
        fast.rank() <= slow.rank(),
    ensures
        fast.initial_buffer() <= slow.initial_buffer(),
{
}

impl SpeedBand {
    /// The bands from the fastest to the slowest.
    pub open spec fn rank(self) -> nat {
        match self {
            SpeedBand::VeryFast => 0,
            SpeedBand::Fast => 1,
            SpeedBand::Normal => 2,
            SpeedBand::Slow => 3,
            SpeedBand::VerySlow => 4,
        }
    }
}

} // verus!
