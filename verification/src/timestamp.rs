//! Timing for the real-time callback path: stream instants derived from the
//! native clock, buffer-period durations, and the explicit-overflow addition
//! that predicts when delivered samples reach the output transducer.

use vstd::prelude::*;
use vstd::arithmetic::div_mod::lemma_fundamental_div_mod;

use crate::config::SampleRate;
use crate::errors::BackendSpecificError;

verus! {

/// Nanoseconds in one second.
pub const NANOS_PER_SEC: u32 = 1_000_000_000;

/// A monotonic, stream-relative point in time derived from the native
/// hardware time base, with nanosecond resolution.
#[derive(Clone, Copy, Debug, PartialEq, Eq, Structural)]
pub struct StreamInstant {
    pub secs: i64,
    pub nanos: u32,
}

/// A span of time with nanosecond resolution, as produced by the
/// buffer-period computation.
#[derive(Clone, Copy, Debug, PartialEq, Eq, Structural)]
pub struct Duration {
    pub secs: u64,
    pub nanos: u32,
}

/// Adding a delay to an instant would leave the representable range. The
/// failure is explicit: timestamps are a correctness-critical output, so a
/// silent wrap to a smaller value is never produced.
#[derive(Clone, Copy, Debug, PartialEq, Eq, Structural)]
pub struct InstantOverflow;

impl StreamInstant {
    /// An instant is well formed when it is non-negative and its
    /// sub-second part holds less than one second.
    pub open spec fn wf(self) -> bool {
        &&& 0 <= self.secs
        &&& self.nanos < NANOS_PER_SEC
    }

    /// The instant as a total count of nanoseconds.
    pub open spec fn as_nanos(self) -> int {
        self.secs * (NANOS_PER_SEC as int) + self.nanos
    }

    /// Whether `self` lies strictly before `other`, comparing seconds first
    /// and the sub-second part on a tie.
    pub open spec fn lt_spec(self, other: StreamInstant) -> bool {
        self.secs < other.secs || (self.secs == other.secs && self.nanos < other.nanos)
    }

    /// Add a duration, failing explicitly instead of wrapping when the sum
    /// leaves the representable range.
    pub fn add(&self, duration: &Duration) -> (r: Option<StreamInstant>)
        requires
            self.wf(),
            duration.wf(),
        ensures
            r is Some <==> self.as_nanos() + duration.as_nanos() <= max_instant_nanos(),
            r matches Some(i) ==> i.wf() && i.as_nanos() == self.as_nanos() + duration.as_nanos(),
    {
        let sum_nanos: u32 = self.nanos + duration.nanos;
        let carry: u32 = sum_nanos / NANOS_PER_SEC;
        let rem: u32 = sum_nanos % NANOS_PER_SEC;
        proof {
            lemma_fundamental_div_mod(sum_nanos as int, NANOS_PER_SEC as int);
        }
        match self.secs.checked_add_unsigned(duration.secs) {
            None => None,
            Some(s1) => match s1.checked_add(carry as i64) {
                None => None,
                Some(s2) => Some(StreamInstant { secs: s2, nanos: rem }),
            },
        }
    }
}

impl Duration {
    /// A duration is well formed when its sub-second part holds less than
    /// one second.
    pub open spec fn wf(self) -> bool {
        self.nanos < NANOS_PER_SEC
    }

    /// The duration as a total count of nanoseconds.
    pub open spec fn as_nanos(self) -> int {
        self.secs * (NANOS_PER_SEC as int) + self.nanos
    }
}

/// The largest nanosecond count an instant can represent.
pub open spec fn max_instant_nanos() -> int {
    i64::MAX * (NANOS_PER_SEC as int) + (NANOS_PER_SEC - 1)
}

/// The instant that represents a total count of nanoseconds.
pub open spec fn instant_from_nanos(n: int) -> StreamInstant {
    StreamInstant {
        secs: (n / (NANOS_PER_SEC as int)) as i64,
        nanos: (n % (NANOS_PER_SEC as int)) as u32,
    }
}

/// The duration of `frames` frames at `rate_hz` frames per second, to
/// nanosecond resolution.
pub open spec fn duration_from_frames(frames: int, rate_hz: int) -> Duration {
    Duration {
        secs: (frames / rate_hz) as u64,
        nanos: ((frames % rate_hz) * (NANOS_PER_SEC as int) / rate_hz) as u32,
    }
}

/// A well-formed instant is determined by its total nanosecond count.
pub proof fn lemma_instant_from_nanos_unique(i: StreamInstant)
    requires
        i.wf(),
    ensures
        instant_from_nanos(i.as_nanos()) == i,
{
    vstd::arithmetic::div_mod::lemma_fundamental_div_mod_converse(
        i.as_nanos(),
        NANOS_PER_SEC as int,
        i.secs as int,
        i.nanos as int,
    );
}

/// Turn a native host-time value, already converted by the platform's time
/// service into nanoseconds, into a stream instant.
pub fn host_time_to_stream_instant(host_nanos: u64) -> (r: StreamInstant)
    ensures
        r.wf(),
        r.as_nanos() == host_nanos,
        r == instant_from_nanos(host_nanos as int),
{
    let secs_u: u64 = host_nanos / (NANOS_PER_SEC as u64);
    let rem: u64 = host_nanos % (NANOS_PER_SEC as u64);
    proof {
        lemma_fundamental_div_mod(host_nanos as int, NANOS_PER_SEC as int);
        assert(secs_u <= u64::MAX as int / NANOS_PER_SEC as int) by (nonlinear_arith)
            requires
                secs_u == host_nanos as int / NANOS_PER_SEC as int,
                host_nanos <= u64::MAX,
        ;
    }
    StreamInstant { secs: secs_u as i64, nanos: rem as u32 }
}

/// The playback latency of one full buffer: `frames / sample_rate` seconds,
/// to nanosecond resolution. Under the double-buffering assumption, a
/// callback's delivery time advanced by this span predicts when the
/// delivered samples reach the output; this is a deliberate approximation,
/// not a hardware-measured latency.
pub fn frames_to_duration(frames: usize, rate: SampleRate) -> (r: Duration)
    requires
        rate.0 >= 1,
    ensures
        r.wf(),
        r == duration_from_frames(frames as int, rate.0 as int),
        r.secs == frames as int / rate.0 as int,
        r.nanos == (frames as int % rate.0 as int) * (NANOS_PER_SEC as int) / rate.0 as int,
{
    let frames64: u64 = frames as u64;
    let rate64: u64 = rate.0 as u64;
    let secs: u64 = frames64 / rate64;
    let rem: u64 = frames64 % rate64;
    let nanos: u64 = rem * (NANOS_PER_SEC as u64) / rate64;
    proof {
        assert(nanos < NANOS_PER_SEC) by (nonlinear_arith)
            requires
                nanos == rem * (NANOS_PER_SEC as int) / rate64 as int,
                rem < rate64,
                1 <= rate64,
        ;
    }
    Duration { secs, nanos: nanos as u32 }
}

/// Predict when samples delivered at `callback` will reach the output, by
/// advancing the callback instant by the buffer delay. Fails explicitly with
/// an overflow error rather than wrapping when the sum would exceed the
/// representable range.
pub fn playback_instant(callback: &StreamInstant, delay: &Duration) -> (r: Result<
    StreamInstant,
    InstantOverflow,
>)
    requires
        callback.wf(),
        delay.wf(),
    ensures
        r is Ok <==> callback.as_nanos() + delay.as_nanos() <= max_instant_nanos(),
        r matches Ok(i) ==> i.wf() && i.as_nanos() == callback.as_nanos() + delay.as_nanos(),
{
    match callback.add(delay) {
        Some(i) => Ok(i),
        None => Err(InstantOverflow),
    }
}

/// Convert the native time service's answer for one callback cycle into a
/// stream instant. The service hands either the host time as wall-clock
/// nanoseconds or a description of its failure; a failure is surfaced, never
/// silently defaulted, since a made-up instant would corrupt downstream
/// latency math.
pub fn to_stream_instant(host_time: Result<u64, BackendSpecificError>) -> (r: Result<
    StreamInstant,
    BackendSpecificError,
>)
    ensures
        host_time matches Ok(n) ==> r == Ok::<StreamInstant, BackendSpecificError>(
            instant_from_nanos(n as int),
        ),
        host_time matches Err(e) ==> r == Err::<StreamInstant, BackendSpecificError>(e),
{
    match host_time {
        Ok(nanos) => Ok(host_time_to_stream_instant(nanos)),
        Err(e) => Err(e),
    }
}

/// A callback sequence with strictly increasing host times carries strictly
/// increasing callback instants: conversion preserves the strict order.
pub proof fn lemma_host_time_monotonic(n1: u64, n2: u64)
    requires
        n1 < n2,
    ensures
        instant_from_nanos(n1 as int).lt_spec(instant_from_nanos(n2 as int)),
{
    lemma_instant_from_nanos_wf(n1);
    lemma_instant_from_nanos_wf(n2);
    lemma_instant_monotonic(instant_from_nanos(n1 as int), instant_from_nanos(n2 as int));
}

/// The instant a non-negative nanosecond count converts to is well formed
/// and represents that count.
pub proof fn lemma_instant_from_nanos_wf(n: u64)
    ensures
        instant_from_nanos(n as int).wf(),
        instant_from_nanos(n as int).as_nanos() == n,
{
    lemma_fundamental_div_mod(n as int, NANOS_PER_SEC as int);
    vstd::arithmetic::div_mod::lemma_mod_bound(n as int, NANOS_PER_SEC as int);
    assert(0 <= n as int / (NANOS_PER_SEC as int) <= i64::MAX) by (nonlinear_arith)
        requires
            n <= u64::MAX,
    ;
}

/// Strictly later host times yield strictly later stream instants: for any
/// two well-formed instants, an ordering of their total nanosecond counts is
/// an ordering of the instants themselves, seconds first and the sub-second
/// part on a tie.
pub proof fn lemma_instant_monotonic(a: StreamInstant, b: StreamInstant)
    requires
        a.wf(),
        b.wf(),
        a.as_nanos() < b.as_nanos(),
    ensures
        a.lt_spec(b),
{
    if a.secs > b.secs {
        assert(a.as_nanos() >= b.as_nanos()) by (nonlinear_arith)
            requires
                a.secs >= b.secs + 1,
                a.nanos < NANOS_PER_SEC,
                b.nanos < NANOS_PER_SEC,
                0 <= b.nanos,
                a.as_nanos() == a.secs * (NANOS_PER_SEC as int) + a.nanos,
                b.as_nanos() == b.secs * (NANOS_PER_SEC as int) + b.nanos,
        ;
    }
}

} // verus!
