use leek::fps_counter::{
    span_millis, span_nanos, FpsCounter, INTERVAL, INTERVAL_NANOS, NANOS_PER_SECOND, PHYSIC_INTERVAL,
};

const MS: u128 = 1_000_000;

#[test]
fn intervals_are_a_sixtieth_of_a_second() {
    assert_eq!(INTERVAL, 16);
    assert_eq!(PHYSIC_INTERVAL, 16);
    assert_eq!(INTERVAL_NANOS, 16_000_000);
    assert_eq!(NANOS_PER_SECOND, 1_000_000_000);
}

#[test]
fn a_tick_that_comes_too_early_is_skipped() {
    let mut counter = FpsCounter::new();
    assert_eq!(counter.tick_at(0), (true, None, 0));
    assert_eq!(counter.tick_at(15 * MS), (true, None, 0));
    assert_eq!(counter.tick_at(16 * MS - 1), (true, None, 0));
    assert_eq!(counter.time_left(10 * MS), 6 * MS);
    assert_eq!(counter.time_left(16 * MS - 1), 1);
    assert_eq!(counter.time_left(16 * MS), 0);
    assert_eq!(counter.time_left(40 * MS), 0);
}

#[test]
fn a_frame_reports_the_fixed_delta() {
    let mut counter = FpsCounter::new();
    assert_eq!(counter.tick_at(16 * MS), (false, None, 16));
    // Jitter does not change the delta.
    assert_eq!(counter.tick_at(16 * MS + 37 * MS), (false, None, 16));
    assert_eq!(counter.tick_at(53 * MS + 16 * MS), (false, None, 16));
    assert_eq!(counter.tick_at(69 * MS + 500 * MS), (false, None, 16));
    // The last frame began at 569 ms.
    assert_eq!(counter.tick_at(580 * MS), (true, None, 0));
    assert_eq!(counter.time_left(580 * MS), 5 * MS);
}

#[test]
fn frames_are_counted_up_second_by_second() {
    let mut counter = FpsCounter::new();
    let mut now: u128 = 0;
    // Forty-nine frames, 20 ms apart: none ends the first second.
    for _ in 0..49 {
        now += 20 * MS;
        assert_eq!(counter.tick_at(now), (false, None, 16));
    }
    assert_eq!(now, 980 * MS);
    // The fiftieth frame begins when a second has passed: it ends the count.
    now += 20 * MS;
    assert_eq!(counter.tick_at(now), (false, Some(50), 16));
    // The count starts again.
    for _ in 0..49 {
        now += 20 * MS;
        assert_eq!(counter.tick_at(now), (false, None, 16));
    }
    now += 20 * MS;
    assert_eq!(counter.tick_at(now), (false, Some(50), 16));
}

#[test]
fn a_second_is_over_when_a_second_has_passed() {
    let mut counter = FpsCounter::new();
    assert_eq!(counter.tick_at(NANOS_PER_SECOND), (false, Some(1), 16));
    let mut counter = FpsCounter::new();
    assert_eq!(counter.tick_at(NANOS_PER_SECOND - 1), (false, None, 16));
    assert_eq!(counter.tick_at(NANOS_PER_SECOND + 16 * MS), (false, Some(2), 16));
    // The next second is counted from the frame that ended the last one.
    assert_eq!(counter.tick_at(2 * NANOS_PER_SECOND + 16 * MS - 1), (false, None, 16));
    assert_eq!(counter.tick_at(2 * NANOS_PER_SECOND + 32 * MS), (false, Some(2), 16));
}

#[test]
fn a_long_pause_ends_the_second_at_once() {
    let mut counter = FpsCounter::new();
    assert_eq!(counter.tick_at(5_000 * MS), (false, Some(1), 16));
    assert_eq!(counter.tick_at(5_016 * MS), (false, None, 16));
}

#[test]
fn a_clock_that_reads_less_counts_as_no_time() {
    let mut counter = FpsCounter::new();
    assert_eq!(counter.tick_at(100 * MS), (false, None, 16));
    assert_eq!(counter.tick_at(50 * MS), (true, None, 0));
    assert_eq!(counter.time_left(50 * MS), 16 * MS);
    assert_eq!(counter.tick_at(116 * MS), (false, None, 16));
}

#[test]
fn elapsed_and_now_follow_the_clock() {
    let counter = FpsCounter::new();
    let first = counter.now();
    let ms = counter.elapsed();
    let second = counter.now();
    assert!(first <= second);
    assert!(u128::from(ms) * MS <= second);
    assert!(ms < 60_000);
}

#[test]
fn spans_are_converted_exactly() {
    assert_eq!(span_millis(0, 0), 0);
    assert_eq!(span_millis(0, 999_999), 0);
    assert_eq!(span_millis(0, 1_000_000), 1);
    assert_eq!(span_millis(2, 345_678_901), 2_345);
    assert_eq!(span_millis(u64::MAX / 1000, 0), u64::MAX / 1000 * 1000);
    assert_eq!(span_millis(u64::MAX / 1000 + 1, 0), u64::MAX);
    assert_eq!(span_millis(u64::MAX / 1000, 999_999_999), u64::MAX);
    assert_eq!(span_millis(u64::MAX, 999_999_999), u64::MAX);
    assert_eq!(span_nanos(0, 0), 0);
    assert_eq!(span_nanos(3, 7), 3_000_000_007);
    assert_eq!(
        span_nanos(u64::MAX, 999_999_999),
        u128::from(u64::MAX) * 1_000_000_000 + 999_999_999
    );
}
