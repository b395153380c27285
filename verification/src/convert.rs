//! Conversion from raw counter samples to nanoseconds.

use crate::cascade::ONE_GHZ_IN_HZ;
use vstd::arithmetic::div_mod::lemma_div_by_multiple;
use vstd::arithmetic::div_mod::lemma_div_is_ordered;
use vstd::arithmetic::div_mod::lemma_div_pos_is_pos;
use vstd::arithmetic::mul::lemma_mul_inequality;
use vstd::prelude::*;

verus! {

/// Elapsed nanoseconds for `ticks` counter ticks at `frequency_hz` ticks per
/// second: `ticks * 1e9 / frequency_hz`, truncated (never rounded) to the
/// integer nanosecond below the true value. Consumers that subtract two
/// converted values depend on this consistent truncation direction.
pub open spec fn spec_tsc_to_ns(ticks: u64, frequency_hz: u64) -> int
    recommends
        frequency_hz > 0,
{
    ticks * ONE_GHZ_IN_HZ / (frequency_hz as int)
}

/// The conversion as actually returned: saturated at the largest
/// representable value for tick counts whose nanosecond value overflows a
/// 64-bit integer (frequencies below 1 GHz only).
pub open spec fn spec_tsc_to_ns_clamped(ticks: u64, frequency_hz: u64) -> u64
    recommends
        frequency_hz > 0,
{
    if spec_tsc_to_ns(ticks, frequency_hz) > u64::MAX {
        u64::MAX
    } else {
        spec_tsc_to_ns(ticks, frequency_hz) as u64
    }
}

/// A resolved time source: the counter frequency, established once and
/// immutable for the remainder of the process. Every conversion for the
/// process lifetime uses this same value.
#[derive(Clone, Copy, Debug)]
pub struct TimeSource {
    frequency_hz: u64,
}

impl TimeSource {
    /// The counter frequency in Hz. Strictly positive: zero is
    /// "undetermined" and never published as a frequency.
    pub closed spec fn frequency(self) -> u64 {
        self.frequency_hz
    }

    #[verifier::type_invariant]
    spec fn positive_frequency(self) -> bool {
        self.frequency_hz > 0
    }

    /// Publishes a resolved frequency. The cascade never yields zero, and
    /// zero is never a valid frequency, so a positive value is required.
    pub fn new(frequency_hz: u64) -> (source: TimeSource)
        requires
            frequency_hz > 0,
        ensures
            source.frequency() == frequency_hz,
    {
        TimeSource { frequency_hz }
    }

    /// Returns the resolved frequency. Idempotent: the value was computed
    /// when the source was built and every call returns that same value.
    pub fn resolve_frequency(&self) -> (frequency_hz: u64)
        ensures
            frequency_hz == self.frequency(),
            frequency_hz > 0,
    {
        proof {
            use_type_invariant(self);
        }
        self.frequency_hz
    }
}

/// Converts a raw counter sample (or a delta of two samples) to elapsed
/// nanoseconds at the source's resolved frequency, truncating to the
/// nanosecond below. Pure and side-effect-free: safe to call from any
/// execution context once the frequency is resolved.
pub fn tsc_to_ns(source: &TimeSource, ticks: u64) -> (ns: u64)
    ensures
        ns == spec_tsc_to_ns_clamped(ticks, source.frequency()),
{
    proof {
        use_type_invariant(source);
    }
    let frequency_hz: u64 = source.resolve_frequency();
    let scaled: u128 = (ticks as u128) * (ONE_GHZ_IN_HZ as u128);
    let ns_wide: u128 = scaled / (frequency_hz as u128);
    if ns_wide > u64::MAX as u128 {
        u64::MAX
    } else {
        ns_wide as u64
    }
}

/// The composed convenience operation: elapsed nanoseconds for a counter
/// sample read just now. The caller supplies the raw sample, since the read
/// itself is a hardware instruction outside the verified boundary. The
/// result is relative and monotonic only — comparable across calls within
/// one process, with no epoch.
pub fn precise_time_ns(source: &TimeSource, counter_sample: u64) -> (ns: u64)
    ensures
        ns == spec_tsc_to_ns_clamped(counter_sample, source.frequency()),
{
    tsc_to_ns(source, counter_sample)
}

/// Law: the conversion is monotonic in the tick delta — more elapsed ticks
/// never convert to fewer nanoseconds.
pub proof fn lemma_tsc_to_ns_monotonic(frequency_hz: u64, d1: u64, d2: u64)
    requires
        frequency_hz > 0,
        d1 <= d2,
    ensures
        spec_tsc_to_ns_clamped(d1, frequency_hz) <= spec_tsc_to_ns_clamped(d2, frequency_hz),
{
    lemma_mul_inequality(d1 as int, d2 as int, ONE_GHZ_IN_HZ as int);
    lemma_div_is_ordered(
        d1 * ONE_GHZ_IN_HZ,
        d2 * ONE_GHZ_IN_HZ,
        frequency_hz as int,
    );
    lemma_div_pos_is_pos(d1 * ONE_GHZ_IN_HZ, frequency_hz as int);
}

/// Law: a zero tick delta converts to zero nanoseconds at every resolved
/// frequency.
pub proof fn lemma_tsc_to_ns_zero(frequency_hz: u64)
    requires
        frequency_hz > 0,
    ensures
        spec_tsc_to_ns_clamped(0, frequency_hz) == 0,
{
    vstd::arithmetic::div_mod::lemma_basic_div(0, frequency_hz as int);
}

/// Law: at a frequency of exactly 1 GHz the conversion is the identity —
/// one tick per nanosecond, with no truncation loss in either direction.
pub proof fn lemma_tsc_to_ns_gigahertz(ticks: u64)
    ensures
        spec_tsc_to_ns_clamped(ticks, ONE_GHZ_IN_HZ) == ticks,
{
    lemma_div_by_multiple(ticks as int, ONE_GHZ_IN_HZ as int);
}

/// Law: resolution is idempotent. [`TimeSource::resolve_frequency`] pins its
/// result to the source's one frequency, so any two results obtained from
/// the same source — from one caller or many — are the same value.
pub proof fn lemma_resolution_idempotent(source: TimeSource, first: u64, second: u64)
    requires
        first == source.frequency(),
        second == source.frequency(),
    ensures
        first == second,
{
}

} // verus!
