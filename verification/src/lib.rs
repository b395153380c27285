//! A monotonic, nanosecond-resolution time source for code running on bare
//! hardware or in a minimal runtime with no operating-system clock services.
//!
//! The crate has two independent components:
//!
//! - a frequency resolver: a prioritized cascade of detection strategies
//!   (hypervisor hint, directly enumerated counter frequency, a frequency
//!   derived from the counter/crystal ratio, active calibration against a
//!   coarse second counter, and finally a conservative fixed default) that
//!   turns platform capability reports into the tick rate of the hardware
//!   cycle counter, in Hz;
//! - a time converter: arithmetic that turns a raw counter sample into
//!   elapsed nanoseconds for a resolved frequency.
//!
//! Reads of the hardware itself (the cycle counter, the calendar clock, the
//! capability leaves) sit at the edge of the crate: the capability probes are
//! declared in [`probe`], and callers hand raw counter and second-counter
//! samples in as plain values.

pub mod calibration;
pub mod cascade;
pub mod convert;
pub mod datetime;
pub mod probe;

pub use calibration::CalibrationPhase;
pub use calibration::calibration_begin;
pub use calibration::calibration_finished;
pub use calibration::calibration_outcome;
pub use calibration::calibration_step;
pub use cascade::CounterInfo;
pub use cascade::DetectionOutcome;
pub use cascade::PlatformProbe;
pub use cascade::counter_requirements_met;
pub use cascade::determine_cpu_frequency;
pub use cascade::derived_counter_frequency;
pub use cascade::select_frequency;
pub use cascade::static_detection;
pub use cascade::FALLBACK_FREQUENCY_HZ;
pub use cascade::KHZ_TO_HZ;
pub use cascade::MHZ_TO_HZ;
pub use cascade::ONE_GHZ_IN_HZ;
pub use convert::TimeSource;
pub use convert::precise_time_ns;
pub use convert::tsc_to_ns;
pub use datetime::DateTime;
pub use datetime::wallclock;
pub use probe::probe_platform;
