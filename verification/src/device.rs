//! The host, its devices, and configuration selection: enumerating the
//! ranges a device supports, validating against them, and picking a default
//! by the deterministic ranking heuristic.
//!
//! Output enumeration needs no hardware query on this platform: the bounds
//! are fixed. Input enumeration must transiently activate the endpoint to
//! read back the native stream format; that activation is performed by the
//! unverified glue, which hands the read-back format (or its absence, when
//! the activation failed) to the functions here.

use vstd::prelude::*;

use crate::config::{
    SampleFormat, SampleRate, StreamConfig, SupportedBufferSize, SupportedStreamConfig,
    SupportedStreamConfigRange, DEFAULT_SAMPLE_RATE_HZ, MAX_BUFFER_SIZE, MAX_CHANNELS,
    MAX_SAMPLE_RATE_HZ, MIN_BUFFER_SIZE, MIN_CHANNELS, MIN_SAMPLE_RATE_HZ,
};
use crate::errors::{
    BuildStreamError, DefaultStreamConfigError, DeviceNameError, DevicesError, HostUnavailable,
    SupportedStreamConfigsError,
};
use crate::stream::Stream;

verus! {

/// The platform's audio host. There is no hidden process-wide registry: a
/// `Host` value is constructed once and passed to every enumeration and
/// stream-building call.
pub struct Host;

/// The platform's one audio device, reached through the host.
#[derive(Clone, Debug, PartialEq, Eq, Structural)]
pub struct Device;

/// An enumeration over the available devices; this platform exposes exactly
/// one.
pub struct Devices {
    yielded: bool,
}

/// The native stream format read back from a transiently activated input
/// endpoint: the plain values the selection logic needs from the native
/// descriptor.
#[derive(Clone, Copy, Debug, PartialEq, Eq, Structural)]
pub struct NativeStreamFormat {
    pub channels: u16,
    pub sample_rate_hz: u32,
}

impl Host {
    /// The platform host; always available.
    pub fn new() -> (r: Result<Host, HostUnavailable>)
        ensures
            r is Ok,
    {
        Ok(Host)
    }

    /// Whether this host is available on the running platform.
    pub fn is_available() -> (r: bool)
        ensures
            r,
    {
        true
    }

    /// Enumerate the available devices.
    pub fn devices(&self) -> (r: Result<Devices, DevicesError>)
        ensures
            r matches Ok(d) && !d.spec_yielded(),
    {
        Devices::new()
    }

    /// The device to record from when the caller names none. Input capture
    /// is not wired up on this platform.
    pub fn default_input_device(&self) -> (r: Option<Device>)
        ensures
            r is None,
    {
        None
    }

    /// The device to play through when the caller names none.
    pub fn default_output_device(&self) -> (r: Option<Device>)
        ensures
            r == Some(Device),
    {
        default_output_device()
    }
}

impl Devices {
    /// A fresh enumeration that has yielded nothing yet.
    pub fn new() -> (r: Result<Devices, DevicesError>)
        ensures
            r matches Ok(d) && !d.spec_yielded(),
    {
        Ok(Devices { yielded: false })
    }

    /// Whether the one device was already handed out.
    pub closed spec fn spec_yielded(self) -> bool {
        self.yielded
    }

    /// The next device: the platform's one device on the first call, then
    /// nothing.
    pub fn next(&mut self) -> (r: Option<Device>)
        ensures
            final(self).spec_yielded(),
            old(self).spec_yielded() ==> r is None,
            !old(self).spec_yielded() ==> r == Some(Device),
    {
        if self.yielded {
            None
        } else {
            self.yielded = true;
            Some(Device)
        }
    }
}

impl Default for Devices {
    /// A fresh enumeration, equal to what `Devices::new` yields.
    fn default() -> (r: Devices)
        ensures
            !r.spec_yielded(),
    {
        Devices { yielded: false }
    }
}

/// The device to record from when the caller names none. Input capture is
/// not wired up on this platform.
pub fn default_input_device() -> (r: Option<Device>)
    ensures
        r is None,
{
    None
}

/// The device to play through when the caller names none.
pub fn default_output_device() -> (r: Option<Device>)
    ensures
        r == Some(Device),
{
    Some(Device)
}

/// The output range enumeration reports for one channel count: the full
/// fixed rate and buffer envelope of the platform.
pub open spec fn output_config_range(channels: u16) -> SupportedStreamConfigRange {
    SupportedStreamConfigRange {
        channels,
        min_sample_rate: SampleRate(MIN_SAMPLE_RATE_HZ),
        max_sample_rate: SampleRate(MAX_SAMPLE_RATE_HZ),
        buffer_size: SupportedBufferSize::Range { min: MIN_BUFFER_SIZE, max: MAX_BUFFER_SIZE },
        sample_format: SampleFormat::F32,
    }
}

/// The one input range a read-back native format yields: its channel count
/// and rate, with the platform's buffer envelope.
pub open spec fn input_config_range(format: NativeStreamFormat) -> SupportedStreamConfigRange {
    SupportedStreamConfigRange {
        channels: format.channels,
        min_sample_rate: SampleRate(format.sample_rate_hz),
        max_sample_rate: SampleRate(format.sample_rate_hz),
        buffer_size: SupportedBufferSize::Range { min: MIN_BUFFER_SIZE, max: MAX_BUFFER_SIZE },
        sample_format: SampleFormat::F32,
    }
}

impl Device {
    /// The device's human-readable name.
    pub fn name(&self) -> (r: Result<String, DeviceNameError>)
        ensures
            r matches Ok(n) && n@ == "RemoteIO Device"@,
    {
        Ok("RemoteIO Device".to_owned())
    }

    /// Enumerate the output configurations this device supports: one range
    /// per supported channel count, each carrying the full rate and buffer
    /// envelope. The result is never empty and every range is well formed.
    pub fn supported_output_configs(&self) -> (r: Result<
        Vec<SupportedStreamConfigRange>,
        SupportedStreamConfigsError,
    >)
        ensures
            r matches Ok(v) && {
                &&& v@.len() == MAX_CHANNELS - MIN_CHANNELS + 1
                &&& v@.len() >= 1
                &&& forall|i: int|
                    0 <= i < v@.len() ==> v@[i] == output_config_range((MIN_CHANNELS + i) as u16)
                &&& forall|i: int| 0 <= i < v@.len() ==> (#[trigger] v@[i]).wf()
            },
    {
        let mut configs: Vec<SupportedStreamConfigRange> = Vec::new();
        let mut channels: u16 = MIN_CHANNELS;
        while channels <= MAX_CHANNELS
            invariant
                MIN_CHANNELS <= channels <= MAX_CHANNELS + 1,
                configs@.len() == channels - MIN_CHANNELS,
                forall|i: int|
                    0 <= i < configs@.len() ==> configs@[i] == output_config_range(
                        (MIN_CHANNELS + i) as u16,
                    ),
            decreases MAX_CHANNELS + 1 - channels,
        {
            configs.push(
                SupportedStreamConfigRange {
                    channels,
                    min_sample_rate: SampleRate(MIN_SAMPLE_RATE_HZ),
                    max_sample_rate: SampleRate(MAX_SAMPLE_RATE_HZ),
                    buffer_size: SupportedBufferSize::Range {
                        min: MIN_BUFFER_SIZE,
                        max: MAX_BUFFER_SIZE,
                    },
                    sample_format: SampleFormat::F32,
                },
            );
            channels = channels + 1;
        }
        Ok(configs)
    }

    /// Enumerate the input configurations this device supports, from the
    /// native stream format the transient activation read back. When that
    /// activation failed (`None`), the stream direction is reported as
    /// unsupported and no partial result is returned.
    pub fn supported_input_configs(&self, probe: Option<NativeStreamFormat>) -> (r: Result<
        Vec<SupportedStreamConfigRange>,
        SupportedStreamConfigsError,
    >)
        ensures
            probe matches Some(format) ==> (r matches Ok(v) && v@ == seq![
                input_config_range(format),
            ]),
            probe is None ==> (r matches Err(e) && e is StreamTypeNotSupported),
    {
        match probe {
            None => Err(SupportedStreamConfigsError::StreamTypeNotSupported),
            Some(format) => {
                let mut configs: Vec<SupportedStreamConfigRange> = Vec::new();
                configs.push(
                    SupportedStreamConfigRange {
                        channels: format.channels,
                        min_sample_rate: SampleRate(format.sample_rate_hz),
                        max_sample_rate: SampleRate(format.sample_rate_hz),
                        buffer_size: SupportedBufferSize::Range {
                            min: MIN_BUFFER_SIZE,
                            max: MAX_BUFFER_SIZE,
                        },
                        sample_format: SampleFormat::F32,
                    },
                );
                proof {
                    assert(configs@ =~= seq![input_config_range(format)]);
                }
                Ok(configs)
            },
        }
    }

    /// Building an input stream is always rejected on this platform, before
    /// any native call: input capture is not wired up.
    pub fn build_input_stream_raw(
        &self,
        _config: &StreamConfig,
        _sample_format: SampleFormat,
    ) -> (r: Result<Stream, BuildStreamError>)
        ensures
            r matches Err(e) && e is StreamConfigNotSupported,
    {
        Err(BuildStreamError::StreamConfigNotSupported)
    }

    /// The default output configuration: the maximum of the enumerated
    /// ranges under the ranking heuristic, fixed at the canonical rate.
    pub fn default_output_config(&self) -> (r: Result<
        SupportedStreamConfig,
        DefaultStreamConfigError,
    >)
        ensures
            r matches Ok(c) && c == (SupportedStreamConfig {
                channels: MAX_CHANNELS,
                sample_rate: SampleRate(DEFAULT_SAMPLE_RATE_HZ),
                buffer_size: SupportedBufferSize::Range {
                    min: MIN_BUFFER_SIZE,
                    max: MAX_BUFFER_SIZE,
                },
                sample_format: SampleFormat::F32,
            }),
    {
        let configs = match self.supported_output_configs() {
            Ok(v) => v,
            Err(_) => unreached(),
        };
        let ghost s = configs@;
        proof {
            assert(s.drop_last() =~= seq![output_config_range(MIN_CHANNELS)]);
            assert(best_of(s.drop_last()) == output_config_range(MIN_CHANNELS));
            assert(s.last() == output_config_range(MAX_CHANNELS));
            assert(best_of(s) == output_config_range(MAX_CHANNELS));
        }
        match default_config(&configs) {
            Ok(c) => Ok(c),
            Err(_) => unreached(),
        }
    }

    /// The default input configuration, from the native stream format the
    /// transient activation read back: the read-back format fixed at its
    /// own rate, or `StreamTypeNotSupported` when the activation failed.
    pub fn default_input_config(&self, probe: Option<NativeStreamFormat>) -> (r: Result<
        SupportedStreamConfig,
        DefaultStreamConfigError,
    >)
        requires
            probe matches Some(format) ==> format.channels >= 1,
        ensures
            probe matches Some(format) ==> (r matches Ok(c) && c == (SupportedStreamConfig {
                channels: format.channels,
                sample_rate: SampleRate(format.sample_rate_hz),
                buffer_size: SupportedBufferSize::Range {
                    min: MIN_BUFFER_SIZE,
                    max: MAX_BUFFER_SIZE,
                },
                sample_format: SampleFormat::F32,
            })),
            probe is None ==> (r matches Err(e) && e is StreamTypeNotSupported),
    {
        let configs = match self.supported_input_configs(probe) {
            Ok(v) => v,
            Err(_) => {
                return Err(DefaultStreamConfigError::StreamTypeNotSupported);
            },
        };
        match default_config(&configs) {
            Ok(c) => Ok(c),
            Err(_) => unreached(),
        }
    }
}

/// The range the ranking heuristic selects from a non-empty set: scanning
/// left to right, a range that ranks at least as high as the best so far
/// replaces it, so of equally ranked ranges the last is selected.
pub open spec fn best_of(s: Seq<SupportedStreamConfigRange>) -> SupportedStreamConfigRange
    recommends
        s.len() > 0,
    decreases s.len(),
{
    if s.len() <= 1 {
        s[0]
    } else {
        let prev = best_of(s.drop_last());
        if s.last().ranks_at_least_spec(prev) {
            s.last()
        } else {
            prev
        }
    }
}

/// The selected range is one of the set.
pub proof fn lemma_best_of_contains(s: Seq<SupportedStreamConfigRange>)
    requires
        s.len() > 0,
    ensures
        s.contains(best_of(s)),
    decreases s.len(),
{
    if s.len() == 1 {
        assert(s[0] == best_of(s));
    } else {
        lemma_best_of_contains(s.drop_last());
        if !s.last().ranks_at_least_spec(best_of(s.drop_last())) {
            let i = choose|i: int|
                0 <= i < s.drop_last().len() && s.drop_last()[i] == best_of(s.drop_last());
            assert(s[i] == best_of(s));
        }
    }
}

/// The ranking heuristic is transitive; with totality
/// (`lemma_heuristic_total`) this makes it a total preorder, so the
/// selected range is a maximum.
pub proof fn lemma_heuristic_transitive(
    a: SupportedStreamConfigRange,
    b: SupportedStreamConfigRange,
    c: SupportedStreamConfigRange,
)
    requires
        a.ranks_at_least_spec(b),
        b.ranks_at_least_spec(c),
    ensures
        a.ranks_at_least_spec(c),
{
}

/// The selected range ranks at least as high as every range in the set.
pub proof fn lemma_best_of_maximal(s: Seq<SupportedStreamConfigRange>)
    requires
        s.len() > 0,
    ensures
        forall|i: int| 0 <= i < s.len() ==> best_of(s).ranks_at_least_spec(#[trigger] s[i]),
    decreases s.len(),
{
    if s.len() > 1 {
        lemma_best_of_maximal(s.drop_last());
        let prev = best_of(s.drop_last());
        let last = s.last();
        if last.ranks_at_least_spec(prev) {
            assert forall|i: int| 0 <= i < s.len() implies best_of(s).ranks_at_least_spec(
                #[trigger] s[i],
            ) by {
                if i < s.len() - 1 {
                    assert(prev.ranks_at_least_spec(s.drop_last()[i]));
                    lemma_heuristic_transitive(last, prev, s[i]);
                }
            }
        } else {
            crate::config::lemma_heuristic_total(last, prev);
            assert forall|i: int| 0 <= i < s.len() implies best_of(s).ranks_at_least_spec(
                #[trigger] s[i],
            ) by {
                if i < s.len() - 1 {
                    assert(prev.ranks_at_least_spec(s.drop_last()[i]));
                }
            }
        }
    }
}

/// The canonical rate, moved into the given range's rate interval when it
/// lies outside it: the admissible rate closest to the preferred one.
pub open spec fn canonical_rate_in(range: SupportedStreamConfigRange) -> u32 {
    if DEFAULT_SAMPLE_RATE_HZ < range.min_sample_rate.0 {
        range.min_sample_rate.0
    } else if DEFAULT_SAMPLE_RATE_HZ > range.max_sample_rate.0 {
        range.max_sample_rate.0
    } else {
        DEFAULT_SAMPLE_RATE_HZ
    }
}

/// The configuration default selection resolves a non-empty set to: the
/// selected range, narrowed to the canonical rate (clamped into the range).
pub open spec fn resolved_default(s: Seq<SupportedStreamConfigRange>) -> SupportedStreamConfig {
    SupportedStreamConfig {
        channels: best_of(s).channels,
        sample_rate: SampleRate(canonical_rate_in(best_of(s))),
        buffer_size: best_of(s).buffer_size,
        sample_format: best_of(s).sample_format,
    }
}

/// Select the default configuration from an enumerated set of well-formed
/// ranges: the maximum under the ranking heuristic, fixed at the canonical
/// rate. Deterministic: the result is a function of the set alone, so two
/// calls on the same set yield identical results. An empty set is a
/// caller-reachable failure, `NoSupportedConfig`, never an abort.
pub fn default_config(configs: &Vec<SupportedStreamConfigRange>) -> (r: Result<
    SupportedStreamConfig,
    DefaultStreamConfigError,
>)
    requires
        forall|i: int| 0 <= i < configs@.len() ==> (#[trigger] configs@[i]).wf(),
    ensures
        r is Ok <==> configs@.len() > 0,
        r matches Ok(c) ==> c == resolved_default(configs@),
        r matches Err(e) ==> e is NoSupportedConfig,
{
    if configs.len() == 0 {
        return Err(DefaultStreamConfigError::NoSupportedConfig);
    }
    let mut best: SupportedStreamConfigRange = configs[0];
    let mut i: usize = 1;
    proof {
        assert(configs@.take(1) =~= seq![configs@[0]]);
    }
    while i < configs.len()
        invariant
            1 <= i <= configs@.len(),
            best == best_of(configs@.take(i as int)),
        decreases configs@.len() - i,
    {
        proof {
            let t = configs@.take(i as int + 1);
            assert(t.drop_last() =~= configs@.take(i as int));
            assert(t.last() == configs@[i as int]);
        }
        if configs[i].ranks_at_least(&best) {
            best = configs[i];
        }
        i = i + 1;
    }
    proof {
        assert(configs@.take(configs@.len() as int) =~= configs@);
        lemma_best_of_contains(configs@);
        let j = choose|j: int| 0 <= j < configs@.len() && configs@[j] == best_of(configs@);
        assert(configs@[j].wf());
    }
    let rate: u32 = if DEFAULT_SAMPLE_RATE_HZ < best.min_sample_rate.0 {
        best.min_sample_rate.0
    } else if DEFAULT_SAMPLE_RATE_HZ > best.max_sample_rate.0 {
        best.max_sample_rate.0
    } else {
        DEFAULT_SAMPLE_RATE_HZ
    };
    Ok(best.with_sample_rate(SampleRate(rate)))
}

/// Selection is deterministic: any two results resolved from the same
/// enumerated set are bit-identical — same channel count, rate and buffer
/// range.
pub proof fn lemma_default_config_deterministic(
    s: Seq<SupportedStreamConfigRange>,
    c1: SupportedStreamConfig,
    c2: SupportedStreamConfig,
)
    requires
        c1 == resolved_default(s),
        c2 == resolved_default(s),
    ensures
        c1 == c2,
{
}

} // verus!
