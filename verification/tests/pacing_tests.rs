use yuv_render::{Pacer, REPORT_INTERVAL_MS, TICK_INTERVAL_MS};

#[test]
fn tick_interval_gives_two_hundred_wakes_per_second() {
    assert_eq!(TICK_INTERVAL_MS, 5);
    assert_eq!(REPORT_INTERVAL_MS / TICK_INTERVAL_MS, 200);
}

#[test]
fn counter_reports_once_per_second() {
    let mut p = Pacer::new(0);
    assert_eq!(p.frames, 0);

    // Frames inside the first second are counted silently.
    assert_eq!(p.record_frame(10), None);
    assert_eq!(p.record_frame(500), None);
    assert_eq!(p.record_frame(999), None);
    assert_eq!(p.frames, 3);

    // One second in: the period's count is reported, and the reporting
    // frame opens the next period.
    assert_eq!(p.record_frame(1000), Some(3));
    assert_eq!(p.period_start_ms, 1000);
    assert_eq!(p.frames, 1);

    // A long gap still reports the frames of the period that ended.
    assert_eq!(p.record_frame(5000), Some(1));
    assert_eq!(p.period_start_ms, 5000);
    assert_eq!(p.frames, 1);
}

#[test]
fn counter_starts_where_told() {
    let mut p = Pacer::new(400);
    assert_eq!(p.record_frame(1399), None);
    assert_eq!(p.record_frame(1400), Some(1));
}
