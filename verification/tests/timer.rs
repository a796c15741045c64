use ascend::timer::RepeatingTimer;

const SECOND: u64 = 1_000_000_000;

fn state(elapsed: u64, duration: u64, finished: bool, times: u32) -> RepeatingTimer {
    RepeatingTimer { elapsed, duration, finished, times_finished_this_tick: times }
}

#[test]
fn new_timer_has_not_run() {
    let timer = RepeatingTimer::new(SECOND);
    assert_eq!(timer, state(0, SECOND, false, 0));
    assert!(!timer.finished());
    assert!(!timer.just_finished());
}

#[test]
fn tick_adds_up_the_time() {
    let mut timer = RepeatingTimer::new(SECOND);
    timer.tick(300_000_000);
    assert_eq!(timer, state(300_000_000, SECOND, false, 0));
    timer.tick(300_000_000);
    assert_eq!(timer, state(600_000_000, SECOND, false, 0));
    timer.tick(0);
    assert_eq!(timer, state(600_000_000, SECOND, false, 0));
}

#[test]
fn tick_finishes_when_the_duration_is_reached() {
    let mut timer = RepeatingTimer::new(SECOND);
    timer.tick(SECOND - 1);
    assert!(!timer.finished());
    timer.tick(1);
    assert_eq!(timer, state(0, SECOND, true, 1));
    assert!(timer.finished());
    assert!(timer.just_finished());
}

#[test]
fn tick_keeps_what_is_left_over() {
    let mut timer = RepeatingTimer::new(SECOND);
    timer.tick(1_100_000_000);
    assert_eq!(timer, state(100_000_000, SECOND, true, 1));
    timer.tick(800_000_000);
    assert_eq!(timer, state(900_000_000, SECOND, false, 0));
    timer.tick(600_000_000);
    assert_eq!(timer, state(500_000_000, SECOND, true, 1));
}

#[test]
fn tick_counts_every_finish() {
    let mut timer = RepeatingTimer::new(SECOND);
    timer.tick(6 * SECOND);
    assert_eq!(timer, state(0, SECOND, true, 6));
    timer.tick(2 * SECOND + 5);
    assert_eq!(timer, state(5, SECOND, true, 2));
    timer.tick(500_000_000);
    assert_eq!(timer, state(500_000_005, SECOND, false, 0));
}

#[test]
fn tick_count_is_cut_to_32_bits() {
    let mut timer = RepeatingTimer::new(1);
    timer.tick(1 << 32);
    assert_eq!(timer, state(0, 1, true, 0));
    assert!(timer.finished());
    assert!(!timer.just_finished());
    timer.tick((1 << 32) + 3);
    assert_eq!(timer, state(0, 1, true, 3));
    assert!(timer.just_finished());
}

#[test]
fn tick_takes_the_longest_times() {
    let mut timer = state(u64::MAX, u64::MAX, false, 0);
    timer.tick(u64::MAX);
    assert_eq!(timer, state(0, u64::MAX, true, 2));
    let mut timer = state(u64::MAX - 1, u64::MAX, false, 0);
    timer.tick(u64::MAX);
    assert_eq!(timer, state(u64::MAX - 1, u64::MAX, true, 1));
    let mut timer = RepeatingTimer::new(u64::MAX);
    timer.tick(u64::MAX - 1);
    assert_eq!(timer, state(u64::MAX - 1, u64::MAX, false, 0));
}

#[test]
fn timer_without_duration_finishes_with_every_tick() {
    let mut timer = RepeatingTimer::new(0);
    timer.tick(5);
    assert_eq!(timer, state(0, 0, true, u32::MAX));
    timer.tick(0);
    assert_eq!(timer, state(0, 0, true, u32::MAX));
}

#[test]
fn tick_starts_from_the_time_already_run() {
    let mut timer = state(700_000_000, SECOND, true, 9);
    timer.tick(100_000_000);
    assert_eq!(timer, state(800_000_000, SECOND, false, 0));
    let mut timer = state(3 * SECOND, SECOND, false, 0);
    timer.tick(1);
    assert_eq!(timer, state(1, SECOND, true, 3));
}

#[test]
fn reset_starts_over() {
    let mut timer = RepeatingTimer::new(SECOND);
    timer.tick(1_500_000_000);
    assert!(timer.finished());
    timer.reset();
    assert_eq!(timer, state(0, SECOND, false, 0));
    timer.tick(600_000_000);
    assert!(!timer.finished());
}
