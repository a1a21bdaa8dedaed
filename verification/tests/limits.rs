use fiberlamp::window_motion::WindowTracker;
use fiberlamp::config::{clamp_fiber_count, DEFAULT_FIBER_COUNT, MAX_FIBERS, MIN_FIBERS};
use fiberlamp::msaa::{msaa_enabled, normalize_msaa_sample_count};

#[test]
fn fiber_count_below_range_is_raised() {
    assert_eq!(clamp_fiber_count(0), 10);
    assert_eq!(clamp_fiber_count(9), 10);
}

#[test]
fn fiber_count_in_range_is_kept() {
    assert_eq!(clamp_fiber_count(10), 10);
    assert_eq!(clamp_fiber_count(250), 250);
    assert_eq!(clamp_fiber_count(500), 500);
}

#[test]
fn fiber_count_above_range_is_lowered() {
    assert_eq!(clamp_fiber_count(501), 500);
    assert_eq!(clamp_fiber_count(u32::MAX), 500);
}

#[test]
fn clamping_is_idempotent_on_examples() {
    for c in [0u32, 7, 10, 123, 500, 9999] {
        let once = clamp_fiber_count(c);
        assert_eq!(clamp_fiber_count(once), once);
        assert!(MIN_FIBERS <= once && once <= MAX_FIBERS);
    }
    assert_eq!(clamp_fiber_count(DEFAULT_FIBER_COUNT), DEFAULT_FIBER_COUNT);
}

#[test]
fn msaa_requests_are_normalized() {
    let expected = [(0u32, 1u32), (1, 1), (2, 2), (3, 4), (4, 4), (5, 8), (6, 8), (7, 8), (8, 8), (9, 8), (u32::MAX, 8)];
    for (requested, count) in expected {
        assert_eq!(normalize_msaa_sample_count(requested), count, "request {}", requested);
    }
}

#[test]
fn msaa_normalization_is_idempotent() {
    for requested in 0u32..20 {
        let once = normalize_msaa_sample_count(requested);
        assert_eq!(normalize_msaa_sample_count(once), once);
    }
}

#[test]
fn msaa_target_only_above_one_sample() {
    assert!(!msaa_enabled(1));
    assert!(msaa_enabled(2));
    assert!(msaa_enabled(8));
}

#[test]
fn first_window_position_sets_the_baseline() {
    let mut tracker = WindowTracker::new();
    assert_eq!(tracker.update_window_pos(100, 100), None);
    assert_eq!(tracker.update_window_pos(110, 105), Some((10, 5)));
    assert_eq!(tracker.update_window_pos(90, 105), Some((-20, 0)));
    assert_eq!(tracker.window_pos, Some((90, 105)));
}
