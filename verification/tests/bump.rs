use fiberlamp::bump::{BumpTimer, DEFAULT_CYCLES};

#[test]
fn new_timer_starts_at_zero() {
    let timer = BumpTimer::new();
    assert_eq!(timer.bump_counter, 0);
    assert_eq!(timer.cycles, 10000);
}

#[test]
fn new_lamp_is_first_bumped_on_step_10001() {
    let mut timer = BumpTimer::new();
    for step in 1..=DEFAULT_CYCLES {
        assert!(!timer.tick(), "no bump expected on step {}", step);
    }
    assert_eq!(timer.bump_counter, DEFAULT_CYCLES);
    assert!(timer.tick());
    assert_eq!(timer.bump_counter, 0);
}

#[test]
fn bumps_repeat_every_cycles_plus_one_steps() {
    let mut timer = BumpTimer { bump_counter: 0, cycles: 2 };
    let got: Vec<bool> = (0..9).map(|_| timer.tick()).collect();
    assert_eq!(got, vec![false, false, true, false, false, true, false, false, true]);
}

#[test]
fn zero_cycles_bumps_every_step() {
    let mut timer = BumpTimer { bump_counter: 0, cycles: 0 };
    for _ in 0..5 {
        assert!(timer.tick());
        assert_eq!(timer.bump_counter, 0);
    }
}

#[test]
fn counter_counts_until_the_bump() {
    let mut timer = BumpTimer { bump_counter: 3, cycles: 5 };
    assert!(!timer.tick());
    assert_eq!(timer.bump_counter, 4);
    assert!(!timer.tick());
    assert_eq!(timer.bump_counter, 5);
    assert!(timer.tick());
    assert_eq!(timer.bump_counter, 0);
}
