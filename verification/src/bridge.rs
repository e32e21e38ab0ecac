//! The per-buffer real-time bridge: the decision taken on every native
//! buffer-ready notification, and the integer model of the native stream
//! description that format negotiation sets on the endpoint.
//!
//! The native layer owns the buffer memory and drives the cycle; the
//! unverified glue reads the native buffer descriptor, asks the platform's
//! time service for the host time in nanoseconds, calls [`on_buffer_ready`]
//! with those plain values, and then performs the returned action: invoke
//! the user's data callback over the buffer, or invoke the error callback
//! and produce no data this cycle.

use vstd::prelude::*;

use crate::config::{
    BufferSize, SampleFormat, SampleRate, StreamConfig, DEFAULT_BUFFER_SIZE,
    valid_config, valid_config_spec,
};
use crate::errors::{
    build_stream_error_from_native, native_kind_rejects_config, BackendSpecificError,
    BuildStreamError, NativeErrorKind, StreamError,
};
use crate::stream::{Stream, StreamState};
use crate::timestamp::{
    duration_from_frames, frames_to_duration, host_time_to_stream_instant, instant_from_nanos,
    lemma_instant_from_nanos_unique, max_instant_nanos, StreamInstant,
};

verus! {

/// The timing record handed to the data callback: when the native layer
/// delivered the buffer, and when its samples are predicted to reach the
/// output under the one-buffer-period latency approximation.
#[derive(Clone, Copy, Debug, PartialEq, Eq, Structural)]
pub struct OutputStreamTimestamp {
    /// The instant the buffer-ready notification was delivered.
    pub callback: StreamInstant,
    /// The predicted instant the delivered samples reach the output.
    pub playback: StreamInstant,
}

/// Everything a data callback learns about one cycle besides the buffer
/// itself.
#[derive(Clone, Copy, Debug, PartialEq, Eq, Structural)]
pub struct OutputCallbackInfo {
    pub timestamp: OutputStreamTimestamp,
}

/// An integer model of the native stream description negotiated on the
/// endpoint: interleaved, packed, linear PCM with the given rate, channel
/// count and sample width. The unverified glue translates it field for
/// field into the native descriptor.
#[derive(Clone, Copy, Debug, PartialEq, Eq, Structural)]
pub struct StreamDescription {
    pub sample_rate_hz: u32,
    pub channels_per_frame: u32,
    pub bits_per_channel: u32,
    pub bytes_per_frame: u32,
    pub frames_per_packet: u32,
    pub bytes_per_packet: u32,
    /// The samples are floating point.
    pub is_float: bool,
    /// The samples are tightly packed, with no padding bits.
    pub is_packed: bool,
}

/// The native stream description that matches a configuration exactly:
/// one frame per packet, every channel interleaved in the frame, each
/// sample packed linear PCM of the format's width.
pub open spec fn description_spec(config: StreamConfig, sample_format: SampleFormat)
    -> StreamDescription {
    StreamDescription {
        sample_rate_hz: config.sample_rate.0,
        channels_per_frame: config.channels as u32,
        bits_per_channel: (sample_format.sample_size_spec() * 8) as u32,
        bytes_per_frame: (config.channels * sample_format.sample_size_spec()) as u32,
        frames_per_packet: 1,
        bytes_per_packet: (config.channels * sample_format.sample_size_spec()) as u32,
        is_float: true,
        is_packed: true,
    }
}

/// Build the native stream description for a configuration and format.
pub fn description_from_config(config: &StreamConfig, sample_format: SampleFormat) -> (r:
    StreamDescription)
    ensures
        r == description_spec(*config, sample_format),
{
    let bytes_per_channel: usize = sample_format.sample_size();
    let bytes_per_frame: u32 = (config.channels as u32) * (bytes_per_channel as u32);
    StreamDescription {
        sample_rate_hz: config.sample_rate.0,
        channels_per_frame: config.channels as u32,
        bits_per_channel: (bytes_per_channel as u32) * 8,
        bytes_per_frame,
        frames_per_packet: 1,
        bytes_per_packet: bytes_per_frame,
        is_float: true,
        is_packed: true,
    }
}

/// Everything decided about an output stream before any native call: the
/// number of frames per buffer and the description to negotiate.
#[derive(Clone, Copy, Debug, PartialEq, Eq, Structural)]
pub struct OutputStreamPlan {
    pub buffer_size_frames: usize,
    pub description: StreamDescription,
}

/// The frames per buffer a configuration resolves to: the fixed request, or
/// the platform default when the caller left the choice open.
pub open spec fn resolved_buffer_frames(size: BufferSize) -> int {
    match size {
        BufferSize::Fixed(v) => v as int,
        BufferSize::Default => DEFAULT_BUFFER_SIZE as int,
    }
}

/// Validate a requested configuration and decide the stream parameters,
/// before any native resource is acquired. Succeeds exactly on
/// configurations within the hardware bounds whose fixed buffer size, if
/// any, is not zero; everything else is rejected with
/// `StreamConfigNotSupported` and no stream is built.
pub fn plan_output_stream(config: &StreamConfig, sample_format: SampleFormat) -> (r: Result<
    OutputStreamPlan,
    BuildStreamError,
>)
    ensures
        r is Ok <==> valid_config_spec(*config, sample_format) && config.buffer_size
            != BufferSize::Fixed(0u32),
        r matches Ok(p) ==> p == (OutputStreamPlan {
            buffer_size_frames: resolved_buffer_frames(config.buffer_size) as usize,
            description: description_spec(*config, sample_format),
        }),
        r matches Err(e) ==> e is StreamConfigNotSupported,
{
    if !valid_config(config, sample_format) {
        return Err(BuildStreamError::StreamConfigNotSupported);
    }
    let buffer_size_frames: usize = match config.buffer_size {
        BufferSize::Fixed(v) => {
            if v == 0 {
                return Err(BuildStreamError::StreamConfigNotSupported);
            } else {
                v as usize
            }
        },
        BufferSize::Default => DEFAULT_BUFFER_SIZE,
    };
    Ok(OutputStreamPlan { buffer_size_frames, description: description_from_config(config, sample_format) })
}

/// Finish building an output stream once the native endpoint has been set
/// up from the plan and started. A successful native setup yields an owning
/// handle already in the playing state; a native failure yields no stream
/// at all, mapped into the closed build error by its category.
pub fn complete_output_stream_build(native_setup: Result<(), NativeErrorKind>) -> (r: Result<
    Stream,
    BuildStreamError,
>)
    ensures
        native_setup is Ok ==> (r matches Ok(s) && s.state is Playing),
        native_setup matches Err(kind) ==> r matches Err(e) && {
            &&& native_kind_rejects_config(kind) ==> e is StreamConfigNotSupported
            &&& !native_kind_rejects_config(kind) ==> e is DeviceNotAvailable
        },
{
    match native_setup {
        Ok(()) => Ok(Stream::new(StreamState::Playing)),
        Err(kind) => Err(build_stream_error_from_native(kind)),
    }
}

/// The action one buffer-ready notification resolves to.
#[derive(Clone, Debug)]
pub enum RenderOutcome {
    /// Invoke the user's data callback synchronously over a view of
    /// `buffer_len` samples with this timing, and let it fill the memory in
    /// place.
    Deliver { buffer_len: usize, info: OutputCallbackInfo },
    /// Invoke the user's error callback and produce no data this cycle; the
    /// stream keeps running for subsequent cycles.
    ReportError { error: StreamError },
}

/// The number of samples one native buffer holds.
pub open spec fn buffer_len_spec(data_byte_size: u32, sample_format: SampleFormat) -> int {
    data_byte_size as int / sample_format.sample_size_spec()
}

/// The number of frames one native buffer holds.
pub open spec fn buffer_frames_spec(data_byte_size: u32, sample_format: SampleFormat, channels: u32) -> int {
    buffer_len_spec(data_byte_size, sample_format) / channels as int
}

/// Decide one buffer cycle. `channels` and `data_byte_size` come from the
/// native buffer descriptor; `host_time` is the platform time service's
/// answer for this cycle, either the host time as nanoseconds or its
/// failure. A time-conversion failure aborts the cycle with that error and
/// no data; a playback instant beyond the representable range likewise
/// aborts the cycle rather than handing the callback a wrapped timestamp;
/// otherwise the buffer is delivered with its timing record.
pub fn on_buffer_ready(
    channels: u32,
    data_byte_size: u32,
    sample_format: SampleFormat,
    sample_rate: SampleRate,
    host_time: Result<u64, BackendSpecificError>,
) -> (r: RenderOutcome)
    requires
        channels >= 1,
        sample_rate.0 >= 1,
    ensures
        host_time matches Err(e) ==> r == (RenderOutcome::ReportError {
            error: StreamError::BackendSpecific { err: e },
        }),
        host_time matches Ok(n) ==> {
            let len = buffer_len_spec(data_byte_size, sample_format);
            let cb = instant_from_nanos(n as int);
            let delay = duration_from_frames(
                buffer_frames_spec(data_byte_size, sample_format, channels),
                sample_rate.0 as int,
            );
            if cb.as_nanos() + delay.as_nanos() <= max_instant_nanos() {
                r == (RenderOutcome::Deliver {
                    buffer_len: len as usize,
                    info: OutputCallbackInfo {
                        timestamp: OutputStreamTimestamp {
                            callback: cb,
                            playback: instant_from_nanos(cb.as_nanos() + delay.as_nanos()),
                        },
                    },
                })
            } else {
                &&& r matches RenderOutcome::ReportError { error }
                &&& error matches StreamError::BackendSpecific { err }
                &&& err.description@ == "playback instant exceeds the representable range"@
            }
        },
{
    let nanos: u64 = match host_time {
        Err(e) => {
            return RenderOutcome::ReportError { error: StreamError::BackendSpecific { err: e } };
        },
        Ok(n) => n,
    };
    let bytes_per_channel: usize = sample_format.sample_size();
    let len: usize = (data_byte_size as usize) / bytes_per_channel;
    let callback = host_time_to_stream_instant(nanos);
    let buffer_frames: usize = len / (channels as usize);
    let delay = frames_to_duration(buffer_frames, sample_rate);
    match callback.add(&delay) {
        Some(playback) => {
            proof {
                lemma_instant_from_nanos_unique(playback);
            }
            RenderOutcome::Deliver {
                buffer_len: len,
                info: OutputCallbackInfo {
                    timestamp: OutputStreamTimestamp { callback, playback },
                },
            }
        },
        None => RenderOutcome::ReportError {
            error: StreamError::BackendSpecific {
                err: BackendSpecificError {
                    description: "playback instant exceeds the representable range".to_owned(),
                },
            },
        },
    }
}

} // verus!
