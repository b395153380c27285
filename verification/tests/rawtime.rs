use rawtime::CalibrationPhase;
use rawtime::CounterInfo;
use rawtime::DetectionOutcome;
use rawtime::PlatformProbe;
use rawtime::TimeSource;
use rawtime::calibration_begin;
use rawtime::calibration_finished;
use rawtime::calibration_outcome;
use rawtime::calibration_step;
use rawtime::determine_cpu_frequency;
use rawtime::derived_counter_frequency;
use rawtime::precise_time_ns;
use rawtime::probe_platform;
use rawtime::select_frequency;
use rawtime::static_detection;
use rawtime::tsc_to_ns;
use rawtime::DateTime;
use rawtime::wallclock;
use rawtime::FALLBACK_FREQUENCY_HZ;
use rawtime::ONE_GHZ_IN_HZ;

fn no_counter_info() -> Option<CounterInfo> {
    None
}

#[test]
fn conversion_zero_ticks_is_zero() {
    for freq in [1u64, 3, 1_000, 999_999_937, 1_000_000_000, 3_000_000_000, u64::MAX] {
        let source = TimeSource::new(freq);
        assert_eq!(tsc_to_ns(&source, 0), 0);
    }
}

#[test]
fn conversion_gigahertz_round_trip() {
    let source = TimeSource::new(1_000_000_000);
    assert_eq!(tsc_to_ns(&source, 1_000_000_000), 1_000_000_000);
    assert_eq!(tsc_to_ns(&source, 1), 1);
    assert_eq!(tsc_to_ns(&source, 12_345), 12_345);
    assert_eq!(tsc_to_ns(&source, u64::MAX), u64::MAX);
}

#[test]
fn conversion_truncates_below_true_value() {
    // At 3 GHz one tick is a third of a nanosecond: the conversion truncates.
    let source = TimeSource::new(3_000_000_000);
    assert_eq!(tsc_to_ns(&source, 1), 0);
    assert_eq!(tsc_to_ns(&source, 2), 0);
    assert_eq!(tsc_to_ns(&source, 3), 1);
    assert_eq!(tsc_to_ns(&source, 4), 1);
    assert_eq!(tsc_to_ns(&source, 3_000_000_000), 1_000_000_000);
}

#[test]
fn conversion_monotonic_in_tick_delta() {
    let source = TimeSource::new(2_500_000_000);
    let samples = [0u64, 1, 2, 3, 1_000, 1_000_000, 2_500_000_000, u64::MAX - 1, u64::MAX];
    let mut previous: u64 = 0;
    for ticks in samples {
        let ns = tsc_to_ns(&source, ticks);
        assert!(previous <= ns);
        previous = ns;
    }
}

#[test]
fn conversion_saturates_for_slow_counters() {
    // At 1 Hz every tick is a full second; u64::MAX ticks overflow the
    // nanosecond range and saturate.
    let source = TimeSource::new(1);
    assert_eq!(tsc_to_ns(&source, u64::MAX), u64::MAX);
    assert_eq!(tsc_to_ns(&source, 7), 7_000_000_000);
}

#[test]
fn precise_time_matches_conversion() {
    let source = TimeSource::new(1_000_000_000);
    assert_eq!(precise_time_ns(&source, 42), tsc_to_ns(&source, 42));
    assert_eq!(precise_time_ns(&source, 42), 42);
}

#[test]
fn resolution_is_idempotent() {
    let source = TimeSource::new(2_000_000_000);
    let first = source.resolve_frequency();
    let second = source.resolve_frequency();
    let third = source.resolve_frequency();
    assert_eq!(first, 2_000_000_000);
    assert_eq!(first, second);
    assert_eq!(second, third);
}

#[test]
fn cascade_hypervisor_hint_wins() {
    let probe = PlatformProbe {
        counter_supported: true,
        invariant_counter: true,
        hypervisor_tsc_khz: Some(2_000_000),
        counter_info: Some(CounterInfo {
            direct_frequency_hz: Some(3_000_000_000),
            numerator: 2,
            denominator: 1,
        }),
        base_frequency_mhz: Some(100),
    };
    let resolved = determine_cpu_frequency(&probe, DetectionOutcome::Unavailable);
    assert_eq!(resolved, 2_000_000_000);
}

#[test]
fn cascade_direct_frequency_used_verbatim() {
    let outcome = static_detection(
        None,
        Some(CounterInfo { direct_frequency_hz: Some(42_000_000), numerator: 0, denominator: 0 }),
        None,
    );
    assert_eq!(outcome, DetectionOutcome::Frequency(42_000_000));
}

#[test]
fn cascade_ratio_derivation() {
    // A 100 MHz base frequency with a ratio of 2/1 anchors the crystal at
    // 50 MHz and re-derives the counter at 100 MHz.
    assert_eq!(derived_counter_frequency(100, 2, 1), 100_000_000);
    let outcome = static_detection(
        None,
        Some(CounterInfo { direct_frequency_hz: None, numerator: 2, denominator: 1 }),
        Some(100),
    );
    assert_eq!(outcome, DetectionOutcome::Frequency(100_000_000));
}

#[test]
fn cascade_zero_hypervisor_hint_falls_through() {
    let outcome = static_detection(
        Some(0),
        Some(CounterInfo { direct_frequency_hz: Some(5_000_000), numerator: 0, denominator: 0 }),
        None,
    );
    assert_eq!(outcome, DetectionOutcome::Frequency(5_000_000));
}

#[test]
fn cascade_zero_direct_frequency_falls_to_ratio() {
    let outcome = static_detection(
        None,
        Some(CounterInfo { direct_frequency_hz: Some(0), numerator: 4, denominator: 2 }),
        Some(200),
    );
    // crystal = 200 MHz * 2 / 4 = 100 MHz; counter = 100 MHz * 4 / 2.
    assert_eq!(outcome, DetectionOutcome::Frequency(200_000_000));
}

#[test]
fn cascade_zero_base_frequency_is_unavailable() {
    let outcome = static_detection(
        None,
        Some(CounterInfo { direct_frequency_hz: None, numerator: 2, denominator: 1 }),
        Some(0),
    );
    assert_eq!(outcome, DetectionOutcome::Unavailable);
}

#[test]
fn cascade_total_failure_yields_fallback() {
    let probe = PlatformProbe {
        counter_supported: true,
        invariant_counter: true,
        hypervisor_tsc_khz: None,
        counter_info: no_counter_info(),
        base_frequency_mhz: None,
    };
    let resolved = determine_cpu_frequency(&probe, DetectionOutcome::Unavailable);
    assert_eq!(resolved, FALLBACK_FREQUENCY_HZ);
    assert_eq!(resolved, 3_000_000_000);
    assert_ne!(resolved, 0);
}

#[test]
fn select_prefers_calibration_over_fallback() {
    assert_eq!(
        select_frequency(DetectionOutcome::Unavailable, DetectionOutcome::Frequency(1_234_567)),
        1_234_567,
    );
    assert_eq!(
        select_frequency(DetectionOutcome::Unavailable, DetectionOutcome::Frequency(0)),
        FALLBACK_FREQUENCY_HZ,
    );
    assert_eq!(
        select_frequency(DetectionOutcome::Frequency(99), DetectionOutcome::Frequency(7)),
        99,
    );
}

#[test]
fn calibration_measures_stub_rate() {
    // A stub second counter that advances by one per observed interval and a
    // stub cycle counter gaining exactly `rate` ticks across the measured
    // second resolve to exactly `rate`.
    let rate: u64 = 2_400_000_000;
    let mut phase = calibration_begin(100);
    assert!(!calibration_finished(&phase));

    // Still inside the alignment second: nothing changes.
    phase = calibration_step(phase, 100, 5_000);
    assert_eq!(phase, CalibrationPhase::AligningStart { base_seconds: 100 });

    // The first edge: the start sample is recorded.
    phase = calibration_step(phase, 101, 10_000);
    assert_eq!(phase, CalibrationPhase::Measuring { edge_seconds: 101, start_ticks: 10_000 });

    // Still inside the measured second: nothing changes.
    phase = calibration_step(phase, 101, 10_000 + rate / 2);
    assert_eq!(phase, CalibrationPhase::Measuring { edge_seconds: 101, start_ticks: 10_000 });

    // The second edge: the delta across the whole second is the frequency.
    phase = calibration_step(phase, 102, 10_000 + rate);
    assert!(calibration_finished(&phase));
    assert_eq!(phase, CalibrationPhase::Done { elapsed_ticks: rate });
    assert_eq!(calibration_outcome(&phase), DetectionOutcome::Frequency(rate));
}

#[test]
fn calibration_skipped_seconds_still_measure() {
    // The second counter may jump by more than one between observations.
    let mut phase = calibration_begin(7);
    phase = calibration_step(phase, 9, 1_000);
    assert_eq!(phase, CalibrationPhase::Measuring { edge_seconds: 9, start_ticks: 1_000 });
    phase = calibration_step(phase, 12, 4_000);
    assert_eq!(phase, CalibrationPhase::Done { elapsed_ticks: 3_000 });
}

#[test]
fn calibration_backwards_counter_is_unavailable() {
    let mut phase = calibration_begin(0);
    phase = calibration_step(phase, 1, 10_000);
    phase = calibration_step(phase, 2, 9_000);
    assert_eq!(phase, CalibrationPhase::Done { elapsed_ticks: 0 });
    assert_eq!(calibration_outcome(&phase), DetectionOutcome::Unavailable);
}

#[test]
fn calibration_unfinished_has_no_outcome() {
    let phase = calibration_begin(50);
    assert_eq!(calibration_outcome(&phase), DetectionOutcome::Unavailable);
    let measuring = calibration_step(phase, 51, 123);
    assert!(!calibration_finished(&measuring));
    assert_eq!(calibration_outcome(&measuring), DetectionOutcome::Unavailable);
}

#[test]
fn calibration_step_after_done_changes_nothing() {
    let done = CalibrationPhase::Done { elapsed_ticks: 77 };
    assert_eq!(calibration_step(done, 1_000, 1_000_000), done);
}

#[test]
fn datetime_new_accepts_calendar_values() {
    let dt = DateTime::new(59, 59, 23, 31, 12, 2024).unwrap();
    assert_eq!(dt.sec, 59);
    assert_eq!(dt.min, 59);
    assert_eq!(dt.hour, 23);
    assert_eq!(dt.day, 31);
    assert_eq!(dt.mon, 12);
    assert_eq!(dt.year, 2024);
}

#[test]
fn datetime_new_rejects_out_of_range_fields() {
    assert!(DateTime::new(60, 0, 0, 1, 1, 2024).is_none());
    assert!(DateTime::new(0, 60, 0, 1, 1, 2024).is_none());
    assert!(DateTime::new(0, 0, 24, 1, 1, 2024).is_none());
    assert!(DateTime::new(0, 0, 0, 0, 1, 2024).is_none());
    assert!(DateTime::new(0, 0, 0, 32, 1, 2024).is_none());
    assert!(DateTime::new(0, 0, 0, 1, 0, 2024).is_none());
    assert!(DateTime::new(0, 0, 0, 1, 13, 2024).is_none());
}

#[test]
fn wallclock_reports_placeholder() {
    let dt = wallclock();
    assert_eq!(dt.sec, 1);
    assert_eq!(dt.min, 1);
    assert_eq!(dt.hour, 1);
    assert_eq!(dt.day, 1);
    assert_eq!(dt.mon, 1);
    assert_eq!(dt.year, 1900);
}

#[test]
fn probe_feeds_cascade_with_positive_result() {
    // Whatever this machine's identification leaves report, the cascade
    // never resolves to zero.
    let probe = probe_platform();
    let statically_detected = static_detection(
        probe.hypervisor_tsc_khz,
        probe.counter_info,
        probe.base_frequency_mhz,
    );
    if let DetectionOutcome::Frequency(f) = statically_detected {
        assert!(f > 0);
    }
    let resolved = determine_cpu_frequency(&probe, DetectionOutcome::Unavailable);
    assert!(resolved > 0);
    let source = TimeSource::new(resolved);
    assert_eq!(source.resolve_frequency(), resolved);
    assert_eq!(tsc_to_ns(&source, 0), 0);
}

#[test]
fn one_second_of_ticks_converts_to_one_second() {
    // At any frequency, `frequency` ticks are one second. The fallback rate
    // divides 1 GHz evenly, so the conversion is exact there.
    let source = TimeSource::new(FALLBACK_FREQUENCY_HZ);
    assert_eq!(tsc_to_ns(&source, FALLBACK_FREQUENCY_HZ), ONE_GHZ_IN_HZ);
}

#[test]
fn gating_requires_counter_and_invariance() {
    let mut probe = PlatformProbe {
        counter_supported: true,
        invariant_counter: true,
        hypervisor_tsc_khz: None,
        counter_info: None,
        base_frequency_mhz: None,
    };
    assert!(rawtime::counter_requirements_met(&probe));
    probe.invariant_counter = false;
    assert!(!rawtime::counter_requirements_met(&probe));
    probe.counter_supported = false;
    probe.invariant_counter = true;
    assert!(!rawtime::counter_requirements_met(&probe));
}
