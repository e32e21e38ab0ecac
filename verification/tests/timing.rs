//! Timestamp conversion, buffer-period durations, overflow behaviour and
//! the per-buffer render decision.

use cpal::bridge::{on_buffer_ready, RenderOutcome};
use cpal::config::{SampleFormat, SampleRate};
use cpal::errors::{BackendSpecificError, StreamError};
use cpal::timestamp::{
    frames_to_duration, host_time_to_stream_instant, playback_instant, to_stream_instant,
    Duration, InstantOverflow, StreamInstant,
};

#[test]
fn host_nanos_split_into_seconds_and_remainder() {
    let i = host_time_to_stream_instant(1_500_000_000);
    assert_eq!(i, StreamInstant { secs: 1, nanos: 500_000_000 });
    let zero = host_time_to_stream_instant(0);
    assert_eq!(zero, StreamInstant { secs: 0, nanos: 0 });
}

#[test]
fn callback_instants_increase_with_host_time() {
    let host_times: [u64; 5] = [1, 999_999_999, 1_000_000_000, 1_500_000_000, 2_000_000_001];
    let mut previous: Option<StreamInstant> = None;
    for t in host_times {
        let instant = to_stream_instant(Ok(t)).unwrap();
        if let Some(p) = previous {
            assert!(p.secs < instant.secs || (p.secs == instant.secs && p.nanos < instant.nanos));
        }
        previous = Some(instant);
    }
}

#[test]
fn time_conversion_failure_is_surfaced() {
    let failure = BackendSpecificError::new("host clock query failed".to_string());
    let r = to_stream_instant(Err(failure));
    match r {
        Err(e) => assert_eq!(e.description, "host clock query failed"),
        Ok(_) => panic!("a conversion failure must not yield an instant"),
    }
}

#[test]
fn one_buffer_delay_at_the_canonical_rate() {
    let d = frames_to_duration(256, SampleRate(44_100));
    assert_eq!(d, Duration { secs: 0, nanos: 5_804_988 });
}

#[test]
fn whole_second_buffer_delay() {
    let d = frames_to_duration(88_200, SampleRate(44_100));
    assert_eq!(d, Duration { secs: 2, nanos: 0 });
}

#[test]
fn instant_addition_carries_the_subsecond_part() {
    let i = StreamInstant { secs: 0, nanos: 600_000_000 };
    let d = Duration { secs: 0, nanos: 700_000_000 };
    let sum = i.add(&d).unwrap();
    assert_eq!(sum, StreamInstant { secs: 1, nanos: 300_000_000 });
}

#[test]
fn playback_instant_near_the_maximum_fails_explicitly() {
    let callback = StreamInstant { secs: i64::MAX, nanos: 999_999_999 };
    let delay = Duration { secs: 0, nanos: 1 };
    let r = playback_instant(&callback, &delay);
    assert_eq!(r, Err(InstantOverflow));
    assert!(callback.add(&delay).is_none());
}

#[test]
fn playback_instant_at_the_edge_still_succeeds() {
    let callback = StreamInstant { secs: i64::MAX, nanos: 999_999_998 };
    let delay = Duration { secs: 0, nanos: 1 };
    let r = playback_instant(&callback, &delay).unwrap();
    assert_eq!(r, StreamInstant { secs: i64::MAX, nanos: 999_999_999 });
}

#[test]
fn buffer_cycle_delivers_the_sized_view_with_timing() {
    let outcome = on_buffer_ready(2, 2048, SampleFormat::F32, SampleRate(44_100), Ok(0));
    match outcome {
        RenderOutcome::Deliver { buffer_len, info } => {
            assert_eq!(buffer_len, 512);
            assert_eq!(info.timestamp.callback, StreamInstant { secs: 0, nanos: 0 });
            assert_eq!(
                info.timestamp.playback,
                StreamInstant { secs: 0, nanos: 5_804_988 }
            );
        }
        RenderOutcome::ReportError { .. } => panic!("a healthy cycle must deliver data"),
    }
}

#[test]
fn failed_time_conversion_skips_the_cycle_and_only_that_cycle() {
    let failure = BackendSpecificError::new("host clock query failed".to_string());
    let first = on_buffer_ready(2, 2048, SampleFormat::F32, SampleRate(44_100), Err(failure));
    match first {
        RenderOutcome::ReportError { error } => match error {
            StreamError::BackendSpecific { err } => {
                assert_eq!(err.description, "host clock query failed");
            }
            StreamError::DeviceNotAvailable => panic!("wrong error category"),
        },
        RenderOutcome::Deliver { .. } => {
            panic!("the data callback must not run on a failed conversion")
        }
    }

    let next = on_buffer_ready(2, 2048, SampleFormat::F32, SampleRate(44_100), Ok(1_000));
    assert!(matches!(next, RenderOutcome::Deliver { .. }));
}
