use physics_time::diagnostic::{
    DiagnosticFrameCount, Sample, ThroughputDiagnostic, DEFAULT_HISTORY_LENGTH,
    NANOS_PER_KILOSECOND,
};

fn per_second(diagnostic: &ThroughputDiagnostic) -> Option<f64> {
    diagnostic.average_per_kilosecond().map(|rate| rate as f64 / 1000.0)
}

#[test]
fn average_of_two_equal_rates() {
    let mut diagnostic = ThroughputDiagnostic::default();
    diagnostic.record(60, 1_000_000_000);
    diagnostic.record(30, 500_000_000);
    assert_eq!(diagnostic.average_per_kilosecond(), Some(60_000));
    assert_eq!(per_second(&diagnostic), Some(60.0));
}

#[test]
fn empty_window_has_no_average() {
    let diagnostic = ThroughputDiagnostic::default();
    assert_eq!(diagnostic.average_per_kilosecond(), None);
    assert_eq!(diagnostic.len(), 0);
    assert!(diagnostic.samples().is_empty());
    assert_eq!(DEFAULT_HISTORY_LENGTH, 10);
    assert_eq!(NANOS_PER_KILOSECOND, 1_000_000_000_000);
}

#[test]
fn zero_duration_frame_is_passed_over() {
    let mut diagnostic = ThroughputDiagnostic::default();
    diagnostic.record(5, 0);
    assert_eq!(diagnostic.len(), 0);
    assert_eq!(diagnostic.average_per_kilosecond(), None);
    diagnostic.record(64, 1_000_000_000);
    diagnostic.record(5, 0);
    assert_eq!(diagnostic.samples(), vec![Sample { steps: 64, frame_nanos: 1_000_000_000 }]);
    assert_eq!(diagnostic.average_per_kilosecond(), Some(64_000));
}

#[test]
fn average_is_the_mean_of_the_rates() {
    let mut diagnostic = ThroughputDiagnostic::default();
    diagnostic.record(1, 16_666_667);
    assert_eq!(diagnostic.average_per_kilosecond(), Some(59_999));
    diagnostic.record(2, 16_666_667);
    assert_eq!(diagnostic.average_per_kilosecond(), Some((59_999 + 119_999) / 2));
    diagnostic.record(0, 16_666_667);
    assert_eq!(diagnostic.average_per_kilosecond(), Some((59_999 + 119_999) / 3));
}

#[test]
fn largest_rate_fits() {
    let mut diagnostic = ThroughputDiagnostic::new(2);
    diagnostic.record(u32::MAX, 1);
    diagnostic.record(u32::MAX, 1);
    assert_eq!(
        diagnostic.average_per_kilosecond(),
        Some(u32::MAX as u128 * 1_000_000_000_000)
    );
}

#[test]
fn full_window_lets_go_of_the_oldest_sample() {
    let mut diagnostic = ThroughputDiagnostic::new(3);
    for steps in 1..=5u32 {
        diagnostic.record(steps, 1_000_000_000);
    }
    assert_eq!(diagnostic.len(), 3);
    assert_eq!(
        diagnostic.samples(),
        vec![
            Sample { steps: 3, frame_nanos: 1_000_000_000 },
            Sample { steps: 4, frame_nanos: 1_000_000_000 },
            Sample { steps: 5, frame_nanos: 1_000_000_000 },
        ]
    );
    assert_eq!(diagnostic.average_per_kilosecond(), Some(4_000));
}

#[test]
fn default_window_keeps_ten_samples() {
    let mut diagnostic = ThroughputDiagnostic::default();
    for steps in 1..=12u32 {
        diagnostic.record(steps, 1_000_000_000);
    }
    assert_eq!(diagnostic.len(), 10);
    assert_eq!(diagnostic.samples()[0].steps, 3);
    assert_eq!(diagnostic.samples()[9].steps, 12);
    assert_eq!(diagnostic.average_per_kilosecond(), Some(7_500));
}

#[test]
fn window_for_no_frames_keeps_the_last_one() {
    for length in [0u32, 1] {
        let mut diagnostic = ThroughputDiagnostic::new(length);
        diagnostic.record(1, 1_000_000_000);
        diagnostic.record(2, 1_000_000_000);
        assert_eq!(diagnostic.samples(), vec![Sample { steps: 2, frame_nanos: 1_000_000_000 }]);
    }
}

#[test]
fn frame_count_counts_and_starts_over() {
    let mut count = DiagnosticFrameCount::default();
    assert_eq!(count.get(), 0);
    count.count_step();
    count.count_step();
    assert_eq!(count.get(), 2);
    assert_eq!(count.take(), 2);
    assert_eq!(count.get(), 0);
    assert_eq!(count.take(), 0);
}

#[test]
fn report_records_the_count_and_resets_it() {
    let mut diagnostic = ThroughputDiagnostic::default();
    let mut count = DiagnosticFrameCount::default();
    for _ in 0..4 {
        count.count_step();
    }
    diagnostic.report(&mut count, 0);
    assert_eq!(count.get(), 4);
    assert_eq!(diagnostic.len(), 0);
    diagnostic.report(&mut count, 62_500_000);
    assert_eq!(count.get(), 0);
    assert_eq!(diagnostic.samples(), vec![Sample { steps: 4, frame_nanos: 62_500_000 }]);
    assert_eq!(diagnostic.average_per_kilosecond(), Some(64_000));
    diagnostic.report(&mut count, 62_500_000);
    assert_eq!(diagnostic.len(), 2);
    assert_eq!(diagnostic.average_per_kilosecond(), Some(32_000));
}
