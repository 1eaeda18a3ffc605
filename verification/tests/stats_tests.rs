use zxpresent::stats::{FrameStats, SAMPLE_THRESHOLD};

#[test]
fn no_summary_before_the_threshold_passes() {
    let mut s = FrameStats::new();
    for k in 0..SAMPLE_THRESHOLD {
        let out = s.record(1_000_000);
        assert!(out.is_none());
        assert_eq!(s.count, k + 1);
        assert_eq!(s.sum_nanos, (k as u128 + 1) * 1_000_000);
    }
}

#[test]
fn counters_reset_after_one_sample_past_the_threshold() {
    let mut s = FrameStats::new();
    for _ in 0..SAMPLE_THRESHOLD {
        assert!(s.record(2_000_000).is_none());
    }
    // The 101st sample closes the window: the summary carries the totals and
    // the counters are zero again before any further sample.
    let out = s.record(2_000_000).expect("the sample window should close");
    assert_eq!(out.frames, SAMPLE_THRESHOLD + 1);
    assert_eq!(out.total_nanos, (SAMPLE_THRESHOLD as u128 + 1) * 2_000_000);
    assert_eq!(s.count, 0);
    assert_eq!(s.sum_nanos, 0);
    // Sample 102 starts a fresh window.
    assert!(s.record(5).is_none());
    assert_eq!(s.count, 1);
    assert_eq!(s.sum_nanos, 5);
}

#[test]
fn summary_sums_varying_durations() {
    let mut s = FrameStats::new();
    let mut expected: u128 = 0;
    for k in 0..=SAMPLE_THRESHOLD as u64 {
        let dt = k * 37 + 1;
        let out = s.record(dt);
        expected += dt as u128;
        if k < SAMPLE_THRESHOLD as u64 {
            assert!(out.is_none());
        } else {
            let summary = out.expect("the sample window should close");
            assert_eq!(summary.total_nanos, expected);
            assert_eq!(summary.frames, SAMPLE_THRESHOLD + 1);
        }
    }
}
