//! Active calibration of the counter rate.
//!
//! When no static source yields a frequency, the rate is measured against an
//! independent, coarser clock: a monotonically non-decreasing whole-second
//! counter. The procedure busy-waits until that counter advances (aligning
//! the start of measurement to a second edge), records the raw counter value
//! as the start sample, busy-waits until the second counter advances once
//! more, and takes the counter delta across that whole second as the
//! frequency in Hz.
//!
//! The busy-wait loop itself needs the hardware reads and the low-power
//! pause hint, so it runs outside the verified boundary; each iteration
//! feeds the freshly read second counter and raw counter sample into
//! [`calibration_step`], which makes every decision. Calibration blocks the
//! calling execution context for one to two wall-clock seconds and must run
//! at most once per process, during resolution, never per time query. It has
//! no timeout: if the second counter never advances, the loop never ends.

use crate::cascade::DetectionOutcome;
use vstd::prelude::*;

verus! {

/// Where a calibration run stands between two observations.
#[derive(Clone, Copy, Debug, PartialEq, Eq, Structural)]
pub enum CalibrationPhase {
    /// Waiting for the second counter to pass `base_seconds`, which aligns
    /// the start of measurement to a second edge.
    AligningStart { base_seconds: u64 },
    /// The start edge was seen at `edge_seconds` and the raw counter read
    /// `start_ticks` there; waiting for the next second edge.
    Measuring { edge_seconds: u64, start_ticks: u64 },
    /// The counter advanced by `elapsed_ticks` across one whole second.
    Done { elapsed_ticks: u64 },
}

/// One decision of the calibration busy-wait, as a function of the phase and
/// the two freshly observed values.
///
/// A phase changes only when the second counter has advanced past the value
/// recorded in it; until then the observation is discarded and the phase
/// kept, which is exactly the busy-wait. A counter sample below the recorded
/// start sample would mean the counter ran backwards; the measurement is
/// then recorded as zero, which the cascade treats as undetermined.
pub open spec fn spec_calibration_step(
    phase: CalibrationPhase,
    seconds_now: u64,
    ticks_now: u64,
) -> CalibrationPhase {
    match phase {
        CalibrationPhase::AligningStart { base_seconds } => {
            if seconds_now > base_seconds {
                CalibrationPhase::Measuring { edge_seconds: seconds_now, start_ticks: ticks_now }
            } else {
                phase
            }
        },
        CalibrationPhase::Measuring { edge_seconds, start_ticks } => {
            if seconds_now > edge_seconds {
                if ticks_now >= start_ticks {
                    CalibrationPhase::Done { elapsed_ticks: (ticks_now - start_ticks) as u64 }
                } else {
                    CalibrationPhase::Done { elapsed_ticks: 0 }
                }
            } else {
                phase
            }
        },
        CalibrationPhase::Done { .. } => phase,
    }
}

/// What a finished run measured: the tick delta when it is positive,
/// otherwise nothing. An unfinished run has measured nothing.
pub open spec fn spec_calibration_outcome(phase: CalibrationPhase) -> DetectionOutcome {
    match phase {
        CalibrationPhase::Done { elapsed_ticks } => {
            if elapsed_ticks > 0 {
                DetectionOutcome::Frequency(elapsed_ticks)
            } else {
                DetectionOutcome::Unavailable
            }
        },
        _ => DetectionOutcome::Unavailable,
    }
}

/// Starts a calibration run from the currently observed second counter.
pub fn calibration_begin(seconds_now: u64) -> (phase: CalibrationPhase)
    ensures
        phase == (CalibrationPhase::AligningStart { base_seconds: seconds_now }),
{
    CalibrationPhase::AligningStart { base_seconds: seconds_now }
}

/// Advances a calibration run by one observation of the second counter and
/// the raw cycle counter.
pub fn calibration_step(phase: CalibrationPhase, seconds_now: u64, ticks_now: u64) -> (next:
    CalibrationPhase)
    ensures
        next == spec_calibration_step(phase, seconds_now, ticks_now),
{
    match phase {
        CalibrationPhase::AligningStart { base_seconds } => {
            if seconds_now > base_seconds {
                CalibrationPhase::Measuring { edge_seconds: seconds_now, start_ticks: ticks_now }
            } else {
                phase
            }
        },
        CalibrationPhase::Measuring { edge_seconds, start_ticks } => {
            if seconds_now > edge_seconds {
                if ticks_now >= start_ticks {
                    CalibrationPhase::Done { elapsed_ticks: ticks_now - start_ticks }
                } else {
                    CalibrationPhase::Done { elapsed_ticks: 0 }
                }
            } else {
                phase
            }
        },
        CalibrationPhase::Done { elapsed_ticks } => CalibrationPhase::Done { elapsed_ticks },
    }
}

/// Whether a calibration run has finished measuring.
pub fn calibration_finished(phase: &CalibrationPhase) -> (finished: bool)
    ensures
        finished == (*phase is Done),
{
    match phase {
        CalibrationPhase::Done { .. } => true,
        _ => false,
    }
}

/// Reads the measurement out of a calibration run.
pub fn calibration_outcome(phase: &CalibrationPhase) -> (outcome: DetectionOutcome)
    ensures
        outcome == spec_calibration_outcome(*phase),
{
    match phase {
        CalibrationPhase::Done { elapsed_ticks } => {
            if *elapsed_ticks > 0 {
                DetectionOutcome::Frequency(*elapsed_ticks)
            } else {
                DetectionOutcome::Unavailable
            }
        },
        _ => DetectionOutcome::Unavailable,
    }
}

/// Law: while the second counter has not advanced past the value recorded in
/// the phase, an observation changes nothing — the busy-wait spins in place.
pub proof fn lemma_calibration_waits(phase: CalibrationPhase, seconds_now: u64, ticks_now: u64)
    requires
        phase matches CalibrationPhase::AligningStart { base_seconds } ==> seconds_now
            <= base_seconds,
        phase matches CalibrationPhase::Measuring { edge_seconds, .. } ==> seconds_now
            <= edge_seconds,
    ensures
        spec_calibration_step(phase, seconds_now, ticks_now) == phase,
{
}

/// Law: a run that sees a second edge, reads `start_ticks` there, and sees
/// the next second edge after the counter advanced by exactly `rate` ticks
/// measures exactly `rate` — the measured frequency equals the true tick
/// rate whenever the counter gains `rate` ticks across the measured second.
pub proof fn lemma_calibration_measures_rate(
    base_seconds: u64,
    edge_seconds: u64,
    end_seconds: u64,
    start_ticks: u64,
    rate: u64,
)
    requires
        edge_seconds > base_seconds,
        end_seconds > edge_seconds,
        start_ticks + rate <= u64::MAX,
    ensures
        ({
            let aligned = spec_calibration_step(
                CalibrationPhase::AligningStart { base_seconds },
                edge_seconds,
                start_ticks,
            );
            let finished = spec_calibration_step(
                aligned,
                end_seconds,
                (start_ticks + rate) as u64,
            );
            finished == (CalibrationPhase::Done { elapsed_ticks: rate })
        }),
{
}

} // verus!
