//! The frequency-resolution cascade.
//!
//! The tick rate of the hardware cycle counter is not guaranteed to be
//! discoverable by any single method, so it is derived through a prioritized
//! cascade of imperfect sources, evaluated top to bottom with the first
//! success winning. Success means a strictly positive frequency: zero is
//! "undetermined", never a valid result.
//!
//! 1. A paravirtualized hypervisor hint, in kHz, is authoritative when
//!    present: under virtualization it reflects the emulated or passthrough
//!    counter better than the host's identification leaves.
//! 2. A directly enumerated counter frequency is used verbatim.
//! 3. With a counter/crystal ratio and a base processor frequency, the
//!    crystal rate is anchored from the base frequency and the counter rate
//!    re-derived from the ratio. The round trip is intentional: the
//!    intermediate crystal rate is itself meaningful, so the two divisions
//!    are not collapsed algebraically.
//! 4. Failing all static sources, the caller may measure the rate against an
//!    independent second counter (see [`crate::calibration`]) and feed the
//!    measurement in.
//! 5. As a last resort, a conservative fixed default is assumed.

use vstd::arithmetic::div_mod::lemma_div_is_ordered;
use vstd::arithmetic::div_mod::lemma_div_by_multiple;
use vstd::arithmetic::div_mod::lemma_div_pos_is_pos;
use vstd::arithmetic::div_mod::lemma_fundamental_div_mod;
use vstd::arithmetic::div_mod::lemma_mod_division_less_than_divisor;
use vstd::arithmetic::mul::lemma_mul_is_commutative;
use vstd::arithmetic::mul::lemma_mul_upper_bound;
use vstd::prelude::*;

verus! {

/// Ticks per second of a one-gigahertz counter; also nanoseconds per second.
pub const ONE_GHZ_IN_HZ: u64 = 1_000_000_000;

/// Hz per kHz.
pub const KHZ_TO_HZ: u64 = 1000;

/// Hz per MHz.
pub const MHZ_TO_HZ: u64 = 1_000_000;

/// The conservative assumed counter frequency (3000 MHz) used when every
/// detection strategy fails. Reaching it is a correctness risk, not a normal
/// outcome: callers should surface a warning when this value is returned.
pub const FALLBACK_FREQUENCY_HZ: u64 = 3000 * MHZ_TO_HZ;

/// What the counter-information leaf reports about the cycle counter.
#[derive(Clone, Copy, Debug)]
pub struct CounterInfo {
    /// The counter frequency in Hz, when the platform enumerates it
    /// directly; `None` otherwise. A reported zero is never a valid rate.
    pub direct_frequency_hz: Option<u64>,
    /// Numerator of the counter/crystal ratio; zero when not enumerated.
    pub numerator: u32,
    /// Denominator of the counter/crystal ratio; zero when not enumerated.
    pub denominator: u32,
}

/// The result of one cascade step: either a concrete frequency or "not
/// available", never a partial value.
#[derive(Clone, Copy, Debug, PartialEq, Eq, Structural)]
pub enum DetectionOutcome {
    /// A counter frequency in Hz.
    Frequency(u64),
    /// The strategy produced no usable answer. A normal, non-error outcome.
    Unavailable,
}

/// Everything the cascade consumes from the platform's capability probes,
/// gathered as plain values.
#[derive(Clone, Copy, Debug)]
pub struct PlatformProbe {
    /// The cycle counter instruction is supported at all. Its absence is
    /// fatal to the whole time subsystem.
    pub counter_supported: bool,
    /// The counter ticks at a constant rate across power and frequency
    /// scaling states. Its absence makes every conversion silently wrong, so
    /// it too is required.
    pub invariant_counter: bool,
    /// The hypervisor-reported counter rate in kHz, when running under
    /// virtualization that advertises it.
    pub hypervisor_tsc_khz: Option<u32>,
    /// The counter-information leaf, when present.
    pub counter_info: Option<CounterInfo>,
    /// The base processor frequency in MHz, when enumerated.
    pub base_frequency_mhz: Option<u32>,
}

/// The gating policy for resolution: the counter instruction must be
/// supported and the counter must be invariant. One policy, applied
/// uniformly: a counter whose rate shifts with power states would make every
/// downstream conversion silently wrong, so absence of either property is
/// fatal to the caller — there is no reduced-functionality mode.
pub open spec fn spec_counter_requirements_met(probe: PlatformProbe) -> bool {
    probe.counter_supported && probe.invariant_counter
}

/// Decides whether the hardware meets the gating policy. A caller that gets
/// `false` must abort rather than resolve a frequency.
pub fn counter_requirements_met(probe: &PlatformProbe) -> (met: bool)
    ensures
        met == spec_counter_requirements_met(*probe),
{
    probe.counter_supported && probe.invariant_counter
}

/// The counter frequency derived from the base processor frequency and the
/// counter/crystal ratio: the crystal rate is anchored as
/// `base_hz * denominator / numerator`, and the counter rate re-derived as
/// `crystal_hz * numerator / denominator`, both with truncating division.
pub open spec fn spec_derived_frequency(base_mhz: u32, numerator: u32, denominator: u32) -> int
    recommends
        numerator > 0,
        denominator > 0,
{
    let base_hz = base_mhz * MHZ_TO_HZ;
    let crystal_hz = base_hz * denominator / (numerator as int);
    crystal_hz * numerator / (denominator as int)
}

/// Step 3 of the cascade: derivation via the counter/crystal ratio, usable
/// only when both ratio parts are non-zero and a base frequency is
/// enumerated, and successful only when the derived rate is positive.
pub open spec fn spec_ratio_detection(info: CounterInfo, base_mhz: Option<u32>) -> DetectionOutcome {
    match base_mhz {
        Some(mhz) => {
            if info.numerator > 0 && info.denominator > 0 {
                let derived = spec_derived_frequency(mhz, info.numerator, info.denominator);
                if derived > 0 {
                    DetectionOutcome::Frequency(derived as u64)
                } else {
                    DetectionOutcome::Unavailable
                }
            } else {
                DetectionOutcome::Unavailable
            }
        },
        None => DetectionOutcome::Unavailable,
    }
}

/// Steps 2 and 3 of the cascade: the directly enumerated counter frequency
/// when it is positive, else the ratio derivation.
pub open spec fn spec_counter_info_detection(
    info: Option<CounterInfo>,
    base_mhz: Option<u32>,
) -> DetectionOutcome {
    match info {
        Some(ci) => match ci.direct_frequency_hz {
            Some(f) => if f > 0 {
                DetectionOutcome::Frequency(f)
            } else {
                spec_ratio_detection(ci, base_mhz)
            },
            None => spec_ratio_detection(ci, base_mhz),
        },
        None => DetectionOutcome::Unavailable,
    }
}

/// Steps 1 to 3 of the cascade: the hypervisor hint (kHz, converted to Hz)
/// short-circuits everything else when it is positive.
pub open spec fn spec_static_detection(
    hv_tsc_khz: Option<u32>,
    info: Option<CounterInfo>,
    base_mhz: Option<u32>,
) -> DetectionOutcome {
    match hv_tsc_khz {
        Some(khz) => if khz > 0 {
            DetectionOutcome::Frequency((khz * KHZ_TO_HZ) as u64)
        } else {
            spec_counter_info_detection(info, base_mhz)
        },
        None => spec_counter_info_detection(info, base_mhz),
    }
}

/// Steps 4 and 5 of the cascade: a positive calibration measurement, else
/// the fixed default.
pub open spec fn spec_calibrated_or_fallback(calibrated: DetectionOutcome) -> u64 {
    match calibrated {
        DetectionOutcome::Frequency(f) => if f > 0 {
            f
        } else {
            FALLBACK_FREQUENCY_HZ
        },
        DetectionOutcome::Unavailable => FALLBACK_FREQUENCY_HZ,
    }
}

/// The whole selection: the first positive static result wins, then a
/// positive calibration measurement, then the fixed default.
pub open spec fn spec_select_frequency(
    statically_detected: DetectionOutcome,
    calibrated: DetectionOutcome,
) -> u64 {
    match statically_detected {
        DetectionOutcome::Frequency(f) => if f > 0 {
            f
        } else {
            spec_calibrated_or_fallback(calibrated)
        },
        DetectionOutcome::Unavailable => spec_calibrated_or_fallback(calibrated),
    }
}

/// Bounds on the ratio derivation: every intermediate stays far below the
/// 128-bit range, and the final frequency is at most the base frequency in
/// Hz — the ratio is applied once in each direction, and truncation only
/// loses ground.
proof fn lemma_derived_frequency_bounds(base_mhz: u32, numerator: u32, denominator: u32)
    requires
        numerator > 0,
        denominator > 0,
    ensures
        ({
            let base_hz = base_mhz * MHZ_TO_HZ;
            let product = base_hz * denominator;
            let crystal_hz = product / (numerator as int);
            &&& 0 <= product <= u32::MAX * MHZ_TO_HZ * u32::MAX
            &&& 0 <= crystal_hz * numerator <= product
            &&& 0 <= spec_derived_frequency(base_mhz, numerator, denominator) <= base_hz
        }),
{
    let base_hz = base_mhz * MHZ_TO_HZ;
    let product = base_hz * denominator;
    let crystal_hz = product / (numerator as int);
    lemma_mul_upper_bound(base_mhz as int, u32::MAX as int, MHZ_TO_HZ as int, MHZ_TO_HZ as int);
    lemma_mul_upper_bound(base_hz, u32::MAX * MHZ_TO_HZ, denominator as int, u32::MAX as int);
    lemma_div_pos_is_pos(product, numerator as int);
    lemma_fundamental_div_mod(product, numerator as int);
    lemma_mod_division_less_than_divisor(product, numerator as int);
    lemma_mul_is_commutative(numerator as int, crystal_hz);
    lemma_div_is_ordered(crystal_hz * numerator, product, denominator as int);
    lemma_div_by_multiple(base_hz, denominator as int);
    lemma_div_pos_is_pos(crystal_hz * numerator, denominator as int);
}

/// Derives the counter frequency from the base processor frequency and the
/// counter/crystal ratio, anchoring the crystal rate first and re-deriving
/// the counter rate from it. Computed in 128 bits, where no intermediate
/// can overflow; the result fits 64 bits because it never exceeds the base
/// frequency in Hz.
pub fn derived_counter_frequency(base_mhz: u32, numerator: u32, denominator: u32) -> (freq_hz:
    u64)
    requires
        numerator > 0,
        denominator > 0,
    ensures
        freq_hz == spec_derived_frequency(base_mhz, numerator, denominator),
{
    proof {
        lemma_derived_frequency_bounds(base_mhz, numerator, denominator);
    }
    let base_hz: u128 = (base_mhz as u128) * (MHZ_TO_HZ as u128);
    let product: u128 = base_hz * (denominator as u128);
    let crystal_hz: u128 = product / (numerator as u128);
    let scaled: u128 = crystal_hz * (numerator as u128);
    let freq: u128 = scaled / (denominator as u128);
    freq as u64
}

/// Runs the static portion of the cascade: the hypervisor hint first, then
/// the directly enumerated counter frequency, then the ratio derivation.
/// Every returned frequency is strictly positive.
pub fn static_detection(
    hv_tsc_khz: Option<u32>,
    info: Option<CounterInfo>,
    base_mhz: Option<u32>,
) -> (outcome: DetectionOutcome)
    ensures
        outcome == spec_static_detection(hv_tsc_khz, info, base_mhz),
        outcome matches DetectionOutcome::Frequency(f) ==> f > 0,
{
    if let Some(khz) = hv_tsc_khz {
        if khz > 0 {
            return DetectionOutcome::Frequency((khz as u64) * KHZ_TO_HZ);
        }
    }
    if let Some(ci) = info {
        if let Some(f) = ci.direct_frequency_hz {
            if f > 0 {
                return DetectionOutcome::Frequency(f);
            }
        }
        if ci.numerator > 0 && ci.denominator > 0 {
            if let Some(mhz) = base_mhz {
                let derived: u64 = derived_counter_frequency(mhz, ci.numerator, ci.denominator);
                if derived > 0 {
                    return DetectionOutcome::Frequency(derived);
                }
            }
        }
    }
    DetectionOutcome::Unavailable
}

/// Selects the resolved frequency: a positive static detection wins, then a
/// positive calibration measurement, then the fixed default. Never zero.
pub fn select_frequency(statically_detected: DetectionOutcome, calibrated: DetectionOutcome) -> (freq_hz:
    u64)
    ensures
        freq_hz == spec_select_frequency(statically_detected, calibrated),
        freq_hz > 0,
{
    match statically_detected {
        DetectionOutcome::Frequency(f) if f > 0 => f,
        _ => match calibrated {
            DetectionOutcome::Frequency(f) if f > 0 => f,
            _ => FALLBACK_FREQUENCY_HZ,
        },
    }
}

/// Resolves the counter frequency from the gathered capability reports and
/// an optional calibration measurement, exactly as the cascade prescribes:
/// hypervisor hint, direct enumeration, ratio derivation, calibration, fixed
/// default. The result is never zero.
pub fn determine_cpu_frequency(probe: &PlatformProbe, calibrated: DetectionOutcome) -> (freq_hz:
    u64)
    ensures
        freq_hz == spec_select_frequency(
            spec_static_detection(probe.hypervisor_tsc_khz, probe.counter_info, probe.base_frequency_mhz),
            calibrated,
        ),
        freq_hz > 0,
{
    let statically_detected = static_detection(
        probe.hypervisor_tsc_khz,
        probe.counter_info,
        probe.base_frequency_mhz,
    );
    select_frequency(statically_detected, calibrated)
}

} // verus!

