use shape_stress::{objects_per_level, FrameStats, StressBuffer, RETAINED_CAP};

#[test]
fn level_table() {
    assert_eq!(objects_per_level(1), 100);
    assert_eq!(objects_per_level(2), 1000);
    assert_eq!(objects_per_level(3), 10000);
}

#[test]
fn stress_buffer_trims_and_resets() {
    let mut b = StressBuffer::new();
    assert_eq!(b.retained(), 0);
    b.step(true, objects_per_level(2));
    b.step(true, objects_per_level(2));
    assert_eq!(b.retained(), 1000);
    assert_eq!(b.objects_created(), 2000);
    b.reset();
    assert_eq!(b.retained(), 0);
    assert_eq!(b.objects_created(), 0);
}

#[test]
fn stress_buffer_grows_below_cap() {
    let mut b = StressBuffer::new();
    for k in 1..=10 {
        b.step(true, objects_per_level(1));
        assert_eq!(b.retained(), (100 * k).min(RETAINED_CAP));
    }
    b.step(true, objects_per_level(1));
    assert_eq!(b.retained(), RETAINED_CAP);
    assert_eq!(b.objects_created(), 1100);
}

#[test]
fn stress_buffer_high_level() {
    let mut b = StressBuffer::new();
    b.step(true, objects_per_level(3));
    assert_eq!(b.retained(), 1000);
    assert_eq!(b.objects_created(), 10000);
}

#[test]
fn disabled_step_does_nothing() {
    let mut b = StressBuffer::new();
    b.step(true, 100);
    b.step(false, 10000);
    assert_eq!(b.retained(), 100);
    assert_eq!(b.objects_created(), 100);
}

#[test]
fn frame_stats_keep_max_and_restart() {
    let mut f = FrameStats::new(0);
    f.record_frame(16_000, 16_000);
    f.record_frame(40_000, 56_000);
    f.record_frame(17_000, 73_000);
    assert_eq!(f.max_frame_time, 40_000);
    f.record_frame(18_000, 5_000_000);
    assert_eq!(f.max_frame_time, 40_000);
    f.record_frame(18_000, 5_000_001);
    assert_eq!(f.max_frame_time, 0);
    assert_eq!(f.window_start, 5_000_001);
    f.record_frame(20_000, 5_020_001);
    assert_eq!(f.max_frame_time, 20_000);
}
