//! Host and device discovery, stream control-state transitions, and the
//! native error mapping.

use cpal::config::{BufferSize, SampleFormat, SampleRate, StreamConfig};
use cpal::device::{Device, Devices, Host};
use cpal::errors::{
    build_stream_error_from_native, configs_error_from_native, default_config_error_from_native,
    BackendSpecificError, BuildStreamError, DefaultStreamConfigError, NativeErrorKind,
    PauseStreamError, PlayStreamError, SupportedStreamConfigsError,
};
use cpal::stream::{Stream, StreamState};

#[test]
fn host_is_available_and_has_one_output_device() {
    assert!(Host::is_available());
    let host = Host::new().unwrap();
    assert!(host.default_input_device().is_none());
    assert_eq!(host.default_output_device(), Some(Device));

    let mut devices = host.devices().unwrap();
    assert_eq!(devices.next(), Some(Device));
    assert_eq!(devices.next(), None);

    let mut fresh: Devices = Default::default();
    assert_eq!(fresh.next(), Some(Device));
}

#[test]
fn device_reports_its_name() {
    assert_eq!(Device.name().unwrap(), "RemoteIO Device");
}

#[test]
fn play_on_a_playing_stream_is_a_successful_no_op() {
    let mut stream = Stream::new(StreamState::Playing);
    assert!(stream.play(None).is_ok());
    assert!(stream.is_playing());
}

#[test]
fn pause_on_a_paused_stream_is_a_successful_no_op() {
    let mut stream = Stream::new(StreamState::Paused);
    assert!(stream.pause(None).is_ok());
    assert!(!stream.is_playing());
}

#[test]
fn play_and_pause_move_the_state_on_native_success() {
    let mut stream = Stream::new(StreamState::Paused);
    assert!(stream.play(Some(Ok(()))).is_ok());
    assert!(stream.is_playing());
    assert!(stream.pause(Some(Ok(()))).is_ok());
    assert!(!stream.is_playing());
}

#[test]
fn a_native_start_failure_is_wrapped_and_leaves_the_state() {
    let mut stream = Stream::new(StreamState::Paused);
    let failure = BackendSpecificError::new("endpoint busy".to_string());
    match stream.play(Some(Err(failure))) {
        Err(PlayStreamError::BackendSpecific { err }) => {
            assert_eq!(err.description, "endpoint busy");
        }
        other => panic!("expected a wrapped backend failure, got {:?}", other),
    }
    assert!(!stream.is_playing());
}

#[test]
fn a_native_stop_failure_is_wrapped_and_leaves_the_state() {
    let mut stream = Stream::new(StreamState::Playing);
    let failure = BackendSpecificError::new("endpoint busy".to_string());
    match stream.pause(Some(Err(failure))) {
        Err(PauseStreamError::BackendSpecific { err }) => {
            assert_eq!(err.description, "endpoint busy");
        }
        other => panic!("expected a wrapped backend failure, got {:?}", other),
    }
    assert!(stream.is_playing());
}

#[test]
fn building_an_input_stream_is_always_rejected() {
    let config = StreamConfig {
        channels: 1,
        sample_rate: SampleRate(44_100),
        buffer_size: BufferSize::Default,
    };
    let r = Device.build_input_stream_raw(&config, SampleFormat::F32);
    assert!(matches!(r, Err(BuildStreamError::StreamConfigNotSupported)));
}

#[test]
fn format_failures_map_to_config_not_supported() {
    for kind in [
        NativeErrorKind::RenderCallbackFormatMismatch,
        NativeErrorKind::NoKnownSubtype,
        NativeErrorKind::FormatNotSupported,
        NativeErrorKind::AudioCodec,
        NativeErrorKind::AudioFormat,
    ] {
        assert!(matches!(
            build_stream_error_from_native(kind),
            BuildStreamError::StreamConfigNotSupported
        ));
    }
    assert!(matches!(
        build_stream_error_from_native(NativeErrorKind::Other),
        BuildStreamError::DeviceNotAvailable
    ));
}

#[test]
fn native_descriptions_are_carried_through_the_wrappers() {
    match configs_error_from_native("query refused".to_string()) {
        SupportedStreamConfigsError::BackendSpecific { err } => {
            assert_eq!(err.description, "query refused");
        }
        other => panic!("expected a backend-specific wrap, got {:?}", other),
    }
    match default_config_error_from_native("query refused".to_string()) {
        DefaultStreamConfigError::BackendSpecific { err } => {
            assert_eq!(err.description, "query refused");
        }
        other => panic!("expected a backend-specific wrap, got {:?}", other),
    }
}
