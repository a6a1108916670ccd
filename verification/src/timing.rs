use vstd::prelude::*;

verus! {

/// Sample rate and channel count of an interleaved PCM stream.
#[derive(Clone, Copy, PartialEq, Eq, Structural, Debug)]
pub struct SignalSpec {
    /// Frames per second.
    pub rate: u32,
    /// Interleaved channels per frame.
    pub channels: u32,
}

impl SignalSpec {
    pub open spec fn valid(self) -> bool {
        self.rate > 0 && self.channels > 0
    }
}

/// The decoder's time base: one frame timestamp tick lasts `numer / denom`
/// seconds. For plain PCM streams this is `1 / rate`.
#[derive(Clone, Copy, PartialEq, Eq, Structural, Debug)]
pub struct TimeBase {
    pub numer: u32,
    pub denom: u32,
}

impl TimeBase {
    pub open spec fn valid(self) -> bool {
        self.numer > 0 && self.denom > 0
    }
}

/// Milliseconds into the stream after `frames` frames, mathematically.
pub open spec fn frames_to_millis_spec(tb: TimeBase, frames: int) -> int {
    frames * (tb.numer as int) * 1000 / (tb.denom as int)
}

/// Milliseconds into the stream after `samples` interleaved samples.
pub open spec fn samples_to_millis_spec(tb: TimeBase, channels: int, samples: int) -> int {
    frames_to_millis_spec(tb, samples / channels)
}

/// `n` clamped into `u64`.
pub open spec fn clamp_u64(n: int) -> int {
    if n > u64::MAX {
        u64::MAX as int
    } else {
        n
    }
}

/// Converts an interleaved sample count into a stream timestamp in
/// milliseconds, saturating at the largest representable value.
pub fn samples_to_millis(tb: TimeBase, channels: u32, samples: u64) -> (ms: u64)
    requires
        tb.valid(),
        channels > 0,
    ensures
        ms == clamp_u64(samples_to_millis_spec(tb, channels as int, samples as int)),
{
    let frames: u64 = samples / (channels as u64);
    let numer: u128 = tb.numer as u128;
    let denom: u128 = tb.denom as u128;
    assert((frames as int) * (numer as int) * 1000 < u128::MAX) by (nonlinear_arith)
        requires
            frames <= u64::MAX,
            numer <= u32::MAX,
    ;
    let ticks: u128 = frames as u128 * numer * 1000;
    let ms_wide: u128 = ticks / denom;
    assert(ms_wide == samples_to_millis_spec(tb, channels as int, samples as int));
    if ms_wide > u64::MAX as u128 {
        u64::MAX
    } else {
        ms_wide as u64
    }
}

/// Milliseconds between two position reports.
pub const REPORT_INTERVAL_MS: u64 = 900;

/// The reporting threshold in interleaved samples: how far the play-head
/// must advance between two position reports, mathematically.
pub open spec fn report_interval_spec(rate: int, channels: int) -> int {
    rate * channels * REPORT_INTERVAL_MS / 1000
}

/// The reporting threshold in interleaved samples for the given signal,
/// saturating at the largest representable value.
pub fn report_interval_samples(signal: SignalSpec) -> (n: u64)
    requires
        signal.valid(),
    ensures
        n == clamp_u64(report_interval_spec(signal.rate as int, signal.channels as int)),
{
    let rate: u128 = signal.rate as u128;
    let channels: u128 = signal.channels as u128;
    assert((rate as int) * (channels as int) * (REPORT_INTERVAL_MS as int) < u128::MAX)
        by (nonlinear_arith)
        requires
            rate <= u32::MAX,
            channels <= u32::MAX,
    ;
    let scaled: u128 = rate * channels * (REPORT_INTERVAL_MS as u128);
    let n_wide: u128 = scaled / 1000;
    if n_wide > u64::MAX as u128 {
        u64::MAX
    } else {
        n_wide as u64
    }
}

/// `a + b` saturated into `u64`; play-head and written-sample counters
/// advance with it so that no contract needs an artificial bound on how
/// long a stream may run.
pub fn saturating_add(a: u64, b: u64) -> (r: u64)
    ensures
        r == clamp_u64(a as int + b as int),
{
    if a <= u64::MAX - b {
        a + b
    } else {
        u64::MAX
    }
}

/// `frames * channels` saturated into `u64`: the interleaved sample count
/// that a frame count stands for.
pub fn frames_to_samples(frames: u64, channels: u32) -> (n: u64)
    ensures
        n == clamp_u64(frames as int * channels as int),
{
    assert((frames as int) * (channels as int) < u128::MAX) by (nonlinear_arith)
        requires
            frames <= u64::MAX,
            channels <= u32::MAX,
    ;
    let wide: u128 = frames as u128 * channels as u128;
    if wide > u64::MAX as u128 {
        u64::MAX
    } else {
        wide as u64
    }
}

} // verus!
