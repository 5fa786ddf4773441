use arena_core::timer::Timer;

#[test]
fn timer_accumulates_and_finishes() {
    let mut t = Timer::new(1000, true);
    t.tick(400);
    assert_eq!(t.elapsed, 400);
    assert!(!t.finished);
    t.tick(400);
    assert_eq!(t.elapsed, 800);
    assert!(!t.finished);
    t.tick(200);
    assert_eq!(t.elapsed, 1000);
    assert!(t.finished);
}

#[test]
fn timer_overshoot_clamps_to_duration() {
    let mut t = Timer::new(1000, true);
    t.tick(2500);
    assert!(t.finished);
    assert_eq!(t.elapsed, 1000);
}

#[test]
fn timer_zero_or_negative_dt_is_a_noop() {
    let mut t = Timer::new(1000, true);
    t.tick(300);
    t.tick(0);
    t.tick(-50);
    assert_eq!(t.elapsed, 300);
    assert!(!t.finished);
}

#[test]
fn timer_one_shot_stays_finished_until_reset() {
    let mut t = Timer::new(500, true);
    t.tick(500);
    assert!(t.finished);
    t.tick(10_000);
    assert!(t.finished);
    assert_eq!(t.elapsed, 500);
    t.reset();
    assert!(!t.finished);
    assert_eq!(t.elapsed, 0);
    assert_eq!(t.duration, 500);
}

#[test]
fn timer_repeating_restarts_after_finishing() {
    let mut t = Timer::new(500, false);
    t.tick(500);
    assert!(t.finished);
    t.tick(200);
    assert!(!t.finished);
    assert_eq!(t.elapsed, 200);
}

#[test]
fn timer_set_duration_takes_effect_on_running_cycle() {
    let mut t = Timer::new(1000, true);
    t.reset();
    t.set_duration(300);
    t.tick(300);
    assert!(t.finished);
}
