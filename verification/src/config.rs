//! Stream configuration data model: sample formats, rates, buffer sizes, the
//! envelope of configurations a device can operate within, and the pure
//! predicates and orderings used to validate and rank them.

use vstd::prelude::*;

verus! {

/// Number of bytes one 32-bit float sample occupies.
pub const F32_SAMPLE_SIZE: usize = 4;

/// Smallest channel count the platform device supports.
pub const MIN_CHANNELS: u16 = 1;
/// Largest channel count the platform device supports.
pub const MAX_CHANNELS: u16 = 2;
/// Lowest supported sampling rate, in Hertz.
pub const MIN_SAMPLE_RATE_HZ: u32 = 44_100;
/// Highest supported sampling rate, in Hertz.
pub const MAX_SAMPLE_RATE_HZ: u32 = 44_100;
/// The platform's single canonical sampling rate, in Hertz.
pub const DEFAULT_SAMPLE_RATE_HZ: u32 = 44_100;
/// Smallest supported buffer size, in frames.
pub const MIN_BUFFER_SIZE: u32 = 512;
/// Largest supported buffer size, in frames.
pub const MAX_BUFFER_SIZE: u32 = 512;
/// Buffer size used when the caller leaves the choice to the platform.
pub const DEFAULT_BUFFER_SIZE: usize = 512;

/// The sample encodings a stream can carry. Exactly one format is supported
/// end to end on this platform; requests for anything else are rejected
/// before a stream is created.
#[derive(Clone, Copy, Debug, PartialEq, Eq, Structural)]
pub enum SampleFormat {
    /// 32-bit floating point, interleaved, packed linear PCM.
    F32,
}

impl SampleFormat {
    /// Size in bytes of one sample of this format.
    pub open spec fn sample_size_spec(self) -> int {
        match self {
            SampleFormat::F32 => F32_SAMPLE_SIZE as int,
        }
    }

    /// Size in bytes of one sample of this format.
    pub fn sample_size(&self) -> (r: usize)
        ensures
            r == self.sample_size_spec(),
            r >= 1,
    {
        match self {
            SampleFormat::F32 => F32_SAMPLE_SIZE,
        }
    }
}

/// A sampling rate in Hertz.
#[derive(Clone, Copy, Debug, PartialEq, Eq, Structural)]
pub struct SampleRate(pub u32);

/// The buffer size a caller requests for a stream: either a fixed number of
/// frames per buffer, or the platform's default.
#[derive(Clone, Copy, Debug, PartialEq, Eq, Structural)]
pub enum BufferSize {
    /// Let the platform choose the buffer size.
    Default,
    /// Request exactly this many frames per buffer.
    Fixed(u32),
}

/// A caller-supplied stream configuration; immutable once a stream is built
/// from it.
#[derive(Clone, Copy, Debug, PartialEq, Eq, Structural)]
pub struct StreamConfig {
    pub channels: u16,
    pub sample_rate: SampleRate,
    pub buffer_size: BufferSize,
}

/// The buffer sizes a device reports it can operate with.
#[derive(Clone, Copy, Debug, PartialEq, Eq, Structural)]
pub enum SupportedBufferSize {
    Range { min: u32, max: u32 },
    /// The device did not report buffer-size bounds.
    Unknown,
}

/// A channel/rate/buffer-size/format envelope a device can operate within.
/// Produced by enumeration and never mutated afterwards.
#[derive(Clone, Copy, Debug, PartialEq, Eq, Structural)]
pub struct SupportedStreamConfigRange {
    pub channels: u16,
    pub min_sample_rate: SampleRate,
    pub max_sample_rate: SampleRate,
    pub buffer_size: SupportedBufferSize,
    pub sample_format: SampleFormat,
}

/// A supported range narrowed to one concrete sampling rate: the output of
/// default-configuration selection or of an exact caller match.
#[derive(Clone, Copy, Debug, PartialEq, Eq, Structural)]
pub struct SupportedStreamConfig {
    pub channels: u16,
    pub sample_rate: SampleRate,
    pub buffer_size: SupportedBufferSize,
    pub sample_format: SampleFormat,
}

impl SupportedStreamConfigRange {
    /// A range is well formed when it has at least one channel and a
    /// non-empty rate interval.
    pub open spec fn wf(self) -> bool {
        &&& self.channels >= 1
        &&& self.min_sample_rate.0 <= self.max_sample_rate.0
    }

    /// Whether this range admits the given rate.
    pub open spec fn admits_rate(self, hz: u32) -> bool {
        self.min_sample_rate.0 <= hz <= self.max_sample_rate.0
    }

    /// Narrow this range to one concrete sampling rate, which must lie
    /// within the range's rate interval.
    pub fn with_sample_rate(self, sample_rate: SampleRate) -> (r: SupportedStreamConfig)
        requires
            self.admits_rate(sample_rate.0),
        ensures
            r == (SupportedStreamConfig {
                channels: self.channels,
                sample_rate: sample_rate,
                buffer_size: self.buffer_size,
                sample_format: self.sample_format,
            }),
    {
        SupportedStreamConfig {
            channels: self.channels,
            sample_rate,
            buffer_size: self.buffer_size,
            sample_format: self.sample_format,
        }
    }

    /// Whether `self` ranks at least as high as `other` under the
    /// default-selection heuristic: prefer a higher channel count, then a
    /// rate interval that admits the canonical rate, then a higher maximum
    /// rate. The ordering is total (`lemma_heuristic_total`), so a maximum
    /// always exists in a non-empty set.
    pub open spec fn ranks_at_least_spec(self, other: SupportedStreamConfigRange) -> bool {
        if self.channels != other.channels {
            self.channels > other.channels
        } else if self.admits_rate(DEFAULT_SAMPLE_RATE_HZ) != other.admits_rate(
            DEFAULT_SAMPLE_RATE_HZ,
        ) {
            self.admits_rate(DEFAULT_SAMPLE_RATE_HZ)
        } else {
            self.max_sample_rate.0 >= other.max_sample_rate.0
        }
    }

    /// Executable form of the default-selection ranking.
    pub fn ranks_at_least(&self, other: &SupportedStreamConfigRange) -> (r: bool)
        ensures
            r == self.ranks_at_least_spec(*other),
    {
        if self.channels != other.channels {
            self.channels > other.channels
        } else {
            let self_admits = self.min_sample_rate.0 <= DEFAULT_SAMPLE_RATE_HZ
                && DEFAULT_SAMPLE_RATE_HZ <= self.max_sample_rate.0;
            let other_admits = other.min_sample_rate.0 <= DEFAULT_SAMPLE_RATE_HZ
                && DEFAULT_SAMPLE_RATE_HZ <= other.max_sample_rate.0;
            if self_admits != other_admits {
                self_admits
            } else {
                self.max_sample_rate.0 >= other.max_sample_rate.0
            }
        }
    }
}

/// The default-selection ranking is total: of any two ranges, one ranks at
/// least as high as the other, so a non-empty set always has a maximum.
pub proof fn lemma_heuristic_total(a: SupportedStreamConfigRange, b: SupportedStreamConfigRange)
    ensures
        a.ranks_at_least_spec(b) || b.ranks_at_least_spec(a),
{
}

/// Whether a requested configuration lies within the platform's hardware
/// bounds and carries the one supported sample format.
pub open spec fn valid_config_spec(conf: StreamConfig, sample_format: SampleFormat) -> bool {
    &&& MIN_CHANNELS <= conf.channels <= MAX_CHANNELS
    &&& MIN_SAMPLE_RATE_HZ <= conf.sample_rate.0 <= MAX_SAMPLE_RATE_HZ
    &&& sample_format == SampleFormat::F32
}

/// Whether the given stream configuration is valid for building a stream:
/// channel count and sampling rate within the hardware bounds, and the
/// sample format equal to the one supported format. Pure: the result depends
/// on the arguments alone.
pub fn valid_config(conf: &StreamConfig, sample_format: SampleFormat) -> (r: bool)
    ensures
        r == valid_config_spec(*conf, sample_format),
{
    conf.channels <= MAX_CHANNELS && conf.channels >= MIN_CHANNELS
        && conf.sample_rate.0 <= MAX_SAMPLE_RATE_HZ && conf.sample_rate.0 >= MIN_SAMPLE_RATE_HZ
        && sample_format == SampleFormat::F32
}

/// A configuration with no channels, or with a sampling rate outside the
/// hardware bounds, is never valid.
pub proof fn lemma_valid_config_rejects(conf: StreamConfig, sample_format: SampleFormat)
    ensures
        conf.channels == 0 ==> !valid_config_spec(conf, sample_format),
        conf.sample_rate.0 < MIN_SAMPLE_RATE_HZ ==> !valid_config_spec(conf, sample_format),
        conf.sample_rate.0 > MAX_SAMPLE_RATE_HZ ==> !valid_config_spec(conf, sample_format),
{
}

} // verus!
