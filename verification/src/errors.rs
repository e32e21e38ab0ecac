//! The closed error taxonomy exposed to callers, and the mapping from native
//! failure categories into it. No raw platform code leaks past this module:
//! the unverified glue converts a native failure into either a
//! `NativeErrorKind` or a textual description before it reaches the library.

use vstd::prelude::*;

verus! {

/// An opaque native failure, wrapped uniformly so callers can log or display
/// it without depending on native error types.
#[derive(Clone, Debug)]
pub struct BackendSpecificError {
    pub description: String,
}

impl BackendSpecificError {
    /// Wrap a native failure description.
    pub fn new(description: String) -> (r: BackendSpecificError)
        ensures
            r.description == description,
    {
        BackendSpecificError { description }
    }
}

/// The host is not available on this platform.
#[derive(Clone, Copy, Debug, PartialEq, Eq, Structural)]
pub struct HostUnavailable;

/// Failure to enumerate the available devices.
#[derive(Clone, Debug)]
pub enum DevicesError {
    BackendSpecific { err: BackendSpecificError },
}

/// Failure to fetch a device's name.
#[derive(Clone, Debug)]
pub enum DeviceNameError {
    BackendSpecific { err: BackendSpecificError },
}

/// Failure to enumerate the configurations a device supports.
#[derive(Clone, Debug)]
pub enum SupportedStreamConfigsError {
    /// The device is no longer available, for instance because it was
    /// disconnected.
    DeviceNotAvailable,
    /// The requested stream direction is not supported by the device.
    StreamTypeNotSupported,
    BackendSpecific { err: BackendSpecificError },
}

/// Failure to derive a device's default configuration.
#[derive(Clone, Debug)]
pub enum DefaultStreamConfigError {
    /// The device is no longer available.
    DeviceNotAvailable,
    /// The requested stream direction is not supported by the device.
    StreamTypeNotSupported,
    /// Selection was asked for a default among an empty set of supported
    /// configurations.
    NoSupportedConfig,
    BackendSpecific { err: BackendSpecificError },
}

/// Failure to build a stream, reported synchronously and never retried
/// automatically; a build failure yields no stream at all.
#[derive(Clone, Debug)]
pub enum BuildStreamError {
    /// The native endpoint could not be acquired.
    DeviceNotAvailable,
    /// The requested configuration lies outside what the device supports,
    /// or the native format negotiation rejected it.
    StreamConfigNotSupported,
    BackendSpecific { err: BackendSpecificError },
}

/// Failure to start playback on a stream.
#[derive(Clone, Debug)]
pub enum PlayStreamError {
    DeviceNotAvailable,
    BackendSpecific { err: BackendSpecificError },
}

/// Failure to pause playback on a stream.
#[derive(Clone, Debug)]
pub enum PauseStreamError {
    DeviceNotAvailable,
    BackendSpecific { err: BackendSpecificError },
}

/// A runtime failure delivered through a stream's error callback in place of
/// the data callback for the cycle that could not produce valid timing or
/// buffer data.
#[derive(Clone, Debug)]
pub enum StreamError {
    DeviceNotAvailable,
    BackendSpecific { err: BackendSpecificError },
}

/// The categories of native audio-toolkit failure that stream building
/// distinguishes. The unverified glue tells the native error's variants
/// apart and hands the library one of these.
#[derive(Clone, Copy, Debug, PartialEq, Eq, Structural)]
pub enum NativeErrorKind {
    /// The render callback's buffer format does not match the negotiated
    /// stream format.
    RenderCallbackFormatMismatch,
    /// The component type has no known subtype.
    NoKnownSubtype,
    /// The audio unit rejected the format.
    FormatNotSupported,
    /// A failure in the audio codec layer.
    AudioCodec,
    /// A failure in the audio format layer.
    AudioFormat,
    /// Any other native failure.
    Other,
}

/// Which native failure categories mean the requested configuration was
/// rejected, as opposed to the device being unavailable.
pub open spec fn native_kind_rejects_config(kind: NativeErrorKind) -> bool {
    match kind {
        NativeErrorKind::RenderCallbackFormatMismatch => true,
        NativeErrorKind::NoKnownSubtype => true,
        NativeErrorKind::FormatNotSupported => true,
        NativeErrorKind::AudioCodec => true,
        NativeErrorKind::AudioFormat => true,
        NativeErrorKind::Other => false,
    }
}

/// Map a native failure met while building a stream into the closed build
/// error: format-negotiation failures become `StreamConfigNotSupported`,
/// everything else `DeviceNotAvailable`.
pub fn build_stream_error_from_native(kind: NativeErrorKind) -> (r: BuildStreamError)
    ensures
        native_kind_rejects_config(kind) ==> r is StreamConfigNotSupported,
        !native_kind_rejects_config(kind) ==> r is DeviceNotAvailable,
{
    match kind {
        NativeErrorKind::RenderCallbackFormatMismatch
        | NativeErrorKind::NoKnownSubtype
        | NativeErrorKind::FormatNotSupported
        | NativeErrorKind::AudioCodec
        | NativeErrorKind::AudioFormat => BuildStreamError::StreamConfigNotSupported,
        NativeErrorKind::Other => BuildStreamError::DeviceNotAvailable,
    }
}

/// Wrap a native failure met while enumerating configurations.
pub fn configs_error_from_native(description: String) -> (r: SupportedStreamConfigsError)
    ensures
        r matches SupportedStreamConfigsError::BackendSpecific { err } && err.description
            == description,
{
    SupportedStreamConfigsError::BackendSpecific {
        err: BackendSpecificError { description },
    }
}

/// Wrap a native failure met while deriving a default configuration.
pub fn default_config_error_from_native(description: String) -> (r: DefaultStreamConfigError)
    ensures
        r matches DefaultStreamConfigError::BackendSpecific { err } && err.description
            == description,
{
    DefaultStreamConfigError::BackendSpecific {
        err: BackendSpecificError { description },
    }
}

} // verus!
