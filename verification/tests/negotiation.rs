//! Configuration enumeration, validation, default selection and stream
//! planning.

use cpal::bridge::{complete_output_stream_build, description_from_config, plan_output_stream};
use cpal::config::{
    BufferSize, SampleFormat, SampleRate, StreamConfig, SupportedBufferSize,
    SupportedStreamConfigRange,
};
use cpal::device::{default_config, Device, NativeStreamFormat};
use cpal::errors::{BuildStreamError, DefaultStreamConfigError, SupportedStreamConfigsError};

fn range(channels: u16, min_hz: u32, max_hz: u32) -> SupportedStreamConfigRange {
    SupportedStreamConfigRange {
        channels,
        min_sample_rate: SampleRate(min_hz),
        max_sample_rate: SampleRate(max_hz),
        buffer_size: SupportedBufferSize::Range { min: 512, max: 512 },
        sample_format: SampleFormat::F32,
    }
}

#[test]
fn output_configs_cover_every_channel_count() {
    let configs = Device.supported_output_configs().unwrap();
    assert_eq!(configs.len(), 2);
    for (i, c) in configs.iter().enumerate() {
        assert_eq!(c.channels, 1 + i as u16);
        assert_eq!(c.min_sample_rate, SampleRate(44_100));
        assert_eq!(c.max_sample_rate, SampleRate(44_100));
        assert_eq!(
            c.buffer_size,
            SupportedBufferSize::Range { min: 512, max: 512 }
        );
        assert_eq!(c.sample_format, SampleFormat::F32);
    }
}

#[test]
fn output_configs_are_non_empty_and_well_formed() {
    let configs = Device.supported_output_configs().unwrap();
    assert!(!configs.is_empty());
    for c in &configs {
        assert!(c.channels >= 1);
        assert!(c.min_sample_rate.0 <= c.max_sample_rate.0);
    }
}

#[test]
fn default_output_config_prefers_more_channels() {
    let config = Device.default_output_config().unwrap();
    assert_eq!(config.channels, 2);
    assert_eq!(config.sample_rate, SampleRate(44_100));
    assert_eq!(
        config.buffer_size,
        SupportedBufferSize::Range { min: 512, max: 512 }
    );
    assert_eq!(config.sample_format, SampleFormat::F32);
}

#[test]
fn default_config_is_deterministic() {
    let first = Device.default_output_config().unwrap();
    let second = Device.default_output_config().unwrap();
    assert_eq!(first, second);

    let set = vec![range(1, 44_100, 44_100), range(2, 44_100, 44_100)];
    let a = default_config(&set).unwrap();
    let b = default_config(&set).unwrap();
    assert_eq!(a, b);
}

#[test]
fn default_config_of_empty_set_is_a_reported_failure() {
    let r = default_config(&Vec::new());
    assert!(matches!(r, Err(DefaultStreamConfigError::NoSupportedConfig)));
}

#[test]
fn default_config_breaks_ties_toward_the_last_maximum() {
    let twin = vec![range(2, 44_100, 44_100), range(2, 44_100, 44_100)];
    let picked = default_config(&twin).unwrap();
    assert_eq!(picked.channels, 2);
    assert_eq!(picked.sample_rate, SampleRate(44_100));
}

#[test]
fn validate_is_pure_and_rejects_out_of_bounds() {
    let good = StreamConfig {
        channels: 2,
        sample_rate: SampleRate(44_100),
        buffer_size: BufferSize::Default,
    };
    assert!(cpal::config::valid_config(&good, SampleFormat::F32));
    assert!(cpal::config::valid_config(&good, SampleFormat::F32));

    let zero_channels = StreamConfig { channels: 0, ..good };
    assert!(!cpal::config::valid_config(&zero_channels, SampleFormat::F32));

    let rate_too_low = StreamConfig {
        sample_rate: SampleRate(22_050),
        ..good
    };
    assert!(!cpal::config::valid_config(&rate_too_low, SampleFormat::F32));

    let rate_too_high = StreamConfig {
        sample_rate: SampleRate(96_000),
        ..good
    };
    assert!(!cpal::config::valid_config(&rate_too_high, SampleFormat::F32));
}

#[test]
fn build_succeeds_within_bounds_and_starts_playing() {
    let config = StreamConfig {
        channels: 2,
        sample_rate: SampleRate(44_100),
        buffer_size: BufferSize::Fixed(512),
    };
    let plan = plan_output_stream(&config, SampleFormat::F32).unwrap();
    assert_eq!(plan.buffer_size_frames, 512);
    let stream = complete_output_stream_build(Ok(())).unwrap();
    assert!(stream.is_playing());
}

#[test]
fn build_rejects_too_many_channels_before_any_native_call() {
    let config = StreamConfig {
        channels: 3,
        sample_rate: SampleRate(44_100),
        buffer_size: BufferSize::Fixed(512),
    };
    let r = plan_output_stream(&config, SampleFormat::F32);
    assert!(matches!(r, Err(BuildStreamError::StreamConfigNotSupported)));
}

#[test]
fn build_rejects_a_zero_frame_fixed_buffer() {
    let config = StreamConfig {
        channels: 2,
        sample_rate: SampleRate(44_100),
        buffer_size: BufferSize::Fixed(0),
    };
    let r = plan_output_stream(&config, SampleFormat::F32);
    assert!(matches!(r, Err(BuildStreamError::StreamConfigNotSupported)));
}

#[test]
fn build_resolves_the_default_buffer_size() {
    let config = StreamConfig {
        channels: 1,
        sample_rate: SampleRate(44_100),
        buffer_size: BufferSize::Default,
    };
    let plan = plan_output_stream(&config, SampleFormat::F32).unwrap();
    assert_eq!(plan.buffer_size_frames, 512);
}

#[test]
fn stream_description_matches_the_config_exactly() {
    let config = StreamConfig {
        channels: 2,
        sample_rate: SampleRate(44_100),
        buffer_size: BufferSize::Fixed(512),
    };
    let desc = description_from_config(&config, SampleFormat::F32);
    assert_eq!(desc.sample_rate_hz, 44_100);
    assert_eq!(desc.channels_per_frame, 2);
    assert_eq!(desc.bits_per_channel, 32);
    assert_eq!(desc.bytes_per_frame, 8);
    assert_eq!(desc.frames_per_packet, 1);
    assert_eq!(desc.bytes_per_packet, 8);
    assert!(desc.is_float);
    assert!(desc.is_packed);
}

#[test]
fn input_configs_come_from_the_probed_native_format() {
    let probed = NativeStreamFormat {
        channels: 1,
        sample_rate_hz: 48_000,
    };
    let configs = Device.supported_input_configs(Some(probed)).unwrap();
    assert_eq!(configs.len(), 1);
    assert_eq!(configs[0].channels, 1);
    assert_eq!(configs[0].min_sample_rate, SampleRate(48_000));
    assert_eq!(configs[0].max_sample_rate, SampleRate(48_000));
    assert_eq!(configs[0].sample_format, SampleFormat::F32);
}

#[test]
fn input_configs_fail_when_the_probe_failed() {
    let r = Device.supported_input_configs(None);
    assert!(matches!(
        r,
        Err(SupportedStreamConfigsError::StreamTypeNotSupported)
    ));
}

#[test]
fn default_input_config_fixes_the_probed_rate() {
    let probed = NativeStreamFormat {
        channels: 1,
        sample_rate_hz: 48_000,
    };
    let config = Device.default_input_config(Some(probed)).unwrap();
    assert_eq!(config.channels, 1);
    assert_eq!(config.sample_rate, SampleRate(48_000));
    assert_eq!(config.sample_format, SampleFormat::F32);
}

#[test]
fn default_input_config_fails_when_the_probe_failed() {
    let r = Device.default_input_config(None);
    assert!(matches!(
        r,
        Err(DefaultStreamConfigError::StreamTypeNotSupported)
    ));
}
