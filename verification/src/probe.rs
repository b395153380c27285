//! The platform capability probes.
//!
//! The cascade's inputs come from the processor's identification leaves,
//! reached through the `x86` crate (`x86::cpuid` re-exports `raw_cpuid`).
//! The queries are read-only, side-effect-free capability reads; their
//! answers are ground truth for the cascade, which neither retries nor
//! validates them further. What the leaves report depends on the machine, so
//! nothing is assumed about the values — [`probe_platform`] only gathers
//! them into plain data, and the verified cascade handles every possible
//! answer.

use crate::cascade::CounterInfo;
use crate::cascade::PlatformProbe;
use vstd::prelude::*;

verus! {

#[verifier::external_type_specification]
#[verifier::external_body]
pub struct ExCpuId(x86::cpuid::CpuId);

#[verifier::external_type_specification]
#[verifier::external_body]
pub struct ExFeatureInfo(x86::cpuid::FeatureInfo);

#[verifier::external_type_specification]
#[verifier::external_body]
pub struct ExApmInfo(x86::cpuid::ApmInfo);

#[verifier::external_type_specification]
#[verifier::external_body]
pub struct ExTscInfo(x86::cpuid::TscInfo);

#[verifier::external_type_specification]
#[verifier::external_body]
pub struct ExProcessorFrequencyInfo(x86::cpuid::ProcessorFrequencyInfo);

#[verifier::external_type_specification]
#[verifier::external_body]
pub struct ExHypervisorInfo(x86::cpuid::HypervisorInfo);

/// Relies on `x86::cpuid::CpuId::new`: reads the vendor and highest
/// supported leaves with the `cpuid` instruction.
pub assume_specification[ x86::cpuid::CpuId::new ]() -> x86::cpuid::CpuId;

/// Relies on `x86::cpuid::CpuId::get_feature_info`: the feature leaf, when
/// supported.
pub assume_specification[ x86::cpuid::CpuId::get_feature_info ](
    cpuid: &x86::cpuid::CpuId,
) -> Option<x86::cpuid::FeatureInfo>;

/// Relies on `x86::cpuid::FeatureInfo::has_tsc`: the time-stamp-counter
/// feature bit.
pub assume_specification[ x86::cpuid::FeatureInfo::has_tsc ](
    info: &x86::cpuid::FeatureInfo,
) -> bool;

/// Relies on `x86::cpuid::CpuId::get_advanced_power_mgmt_info`: the power
/// management leaf, when supported.
pub assume_specification[ x86::cpuid::CpuId::get_advanced_power_mgmt_info ](
    cpuid: &x86::cpuid::CpuId,
) -> Option<x86::cpuid::ApmInfo>;

/// Relies on `x86::cpuid::ApmInfo::has_invariant_tsc`: the invariant-counter
/// bit.
pub assume_specification[ x86::cpuid::ApmInfo::has_invariant_tsc ](
    info: &x86::cpuid::ApmInfo,
) -> bool;

/// Relies on `x86::cpuid::CpuId::get_tsc_info`: the counter/crystal leaf,
/// when supported.
pub assume_specification[ x86::cpuid::CpuId::get_tsc_info ](
    cpuid: &x86::cpuid::CpuId,
) -> Option<x86::cpuid::TscInfo>;

/// Relies on `x86::cpuid::TscInfo::tsc_frequency`: the counter frequency in
/// Hz computed from the leaf, `None` when any of its three fields is not
/// enumerated.
pub assume_specification[ x86::cpuid::TscInfo::tsc_frequency ](
    info: &x86::cpuid::TscInfo,
) -> Option<u64>;

/// Relies on `x86::cpuid::TscInfo::numerator`: the counter/crystal ratio
/// numerator, zero when not enumerated.
pub assume_specification[ x86::cpuid::TscInfo::numerator ](info: &x86::cpuid::TscInfo) -> u32;

/// Relies on `x86::cpuid::TscInfo::denominator`: the counter/crystal ratio
/// denominator, zero when not enumerated.
pub assume_specification[ x86::cpuid::TscInfo::denominator ](info: &x86::cpuid::TscInfo) -> u32;

/// Relies on `x86::cpuid::CpuId::get_processor_frequency_info`: the
/// processor frequency leaf, when supported.
pub assume_specification[ x86::cpuid::CpuId::get_processor_frequency_info ](
    cpuid: &x86::cpuid::CpuId,
) -> Option<x86::cpuid::ProcessorFrequencyInfo>;

/// Relies on `x86::cpuid::ProcessorFrequencyInfo::processor_base_frequency`:
/// the base processor frequency in MHz.
pub assume_specification[ x86::cpuid::ProcessorFrequencyInfo::processor_base_frequency ](
    info: &x86::cpuid::ProcessorFrequencyInfo,
) -> u16;

/// Relies on `x86::cpuid::CpuId::get_hypervisor_info`: the hypervisor leaf,
/// present only under virtualization that advertises it; absence is a
/// normal, non-error outcome.
pub assume_specification[ x86::cpuid::CpuId::get_hypervisor_info ](
    cpuid: &x86::cpuid::CpuId,
) -> Option<x86::cpuid::HypervisorInfo>;

/// Relies on `x86::cpuid::HypervisorInfo::tsc_frequency`: the
/// paravirtualized counter rate in kHz, when the hypervisor reports one.
pub assume_specification[ x86::cpuid::HypervisorInfo::tsc_frequency ](
    info: &x86::cpuid::HypervisorInfo,
) -> Option<u32>;

/// Gathers everything the frequency cascade consumes in one pass over the
/// identification leaves. The answers are machine-dependent, so nothing is
/// stated about them; the cascade is verified for every possible answer.
pub fn probe_platform() -> PlatformProbe {
    let cpuid = x86::cpuid::CpuId::new();
    let counter_supported: bool = match cpuid.get_feature_info() {
        Some(finfo) => finfo.has_tsc(),
        None => false,
    };
    let invariant_counter: bool = match cpuid.get_advanced_power_mgmt_info() {
        Some(apm) => apm.has_invariant_tsc(),
        None => false,
    };
    let hypervisor_tsc_khz: Option<u32> = match cpuid.get_hypervisor_info() {
        Some(hv) => hv.tsc_frequency(),
        None => None,
    };
    let counter_info: Option<CounterInfo> = match cpuid.get_tsc_info() {
        Some(tinfo) => Some(
            CounterInfo {
                direct_frequency_hz: tinfo.tsc_frequency(),
                numerator: tinfo.numerator(),
                denominator: tinfo.denominator(),
            },
        ),
        None => None,
    };
    let base_frequency_mhz: Option<u32> = match cpuid.get_processor_frequency_info() {
        Some(pinfo) => Some(pinfo.processor_base_frequency() as u32),
        None => None,
    };
    PlatformProbe {
        counter_supported,
        invariant_counter,
        hypervisor_tsc_khz,
        counter_info,
        base_frequency_mhz,
    }
}

} // verus!
