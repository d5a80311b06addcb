use motion_sketch::pacing::frame_budget_nanos;
use motion_sketch::pacing::sleep_nanos;
use motion_sketch::pacing::FpsCounter;
use motion_sketch::pacing::NANOS_PER_SECOND;

#[test]
fn budget_for_target_rate() {
    assert_eq!(frame_budget_nanos(10_000), 100_000);
    assert_eq!(frame_budget_nanos(60), 16_666_666);
    assert_eq!(frame_budget_nanos(1), NANOS_PER_SECOND);
}

#[test]
fn sleep_is_the_shortfall() {
    assert_eq!(sleep_nanos(30_000, 100_000), 70_000);
    assert_eq!(sleep_nanos(0, 100_000), 100_000);
    assert_eq!(sleep_nanos(100_000, 100_000), 0);
    assert_eq!(sleep_nanos(250_000, 100_000), 0);
}

#[test]
fn fps_counts_and_publishes_once_a_second() {
    let mut c = FpsCounter::new();
    assert_eq!(c.tick(1_000), None);
    assert_eq!(c.tick(2_000), None);
    assert_eq!(c.frames, 2);
    assert_eq!(c.fps, 0);
    let report = c.tick(NANOS_PER_SECOND);
    assert_eq!(report, Some(3));
    assert_eq!(c.frames, 0);
    assert_eq!(c.fps, 3);
    assert_eq!(c.tick(5_000), None);
    assert_eq!(c.fps, 3);
    assert_eq!(c.tick(NANOS_PER_SECOND + 7), Some(2));
    assert_eq!(c.fps, 2);
}

#[test]
fn fps_count_saturates() {
    let mut c = FpsCounter::new();
    c.frames = u64::MAX;
    assert_eq!(c.tick(0), None);
    assert_eq!(c.frames, u64::MAX);
    assert_eq!(c.tick(NANOS_PER_SECOND), Some(u64::MAX));
    assert_eq!(c.frames, 0);
}
