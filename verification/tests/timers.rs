use chip_8_emulator::sound;
use chip_8_emulator::timers::{BaseTimer, TICK_MICROS};

#[test]
fn new_timer_reads_zero() {
    assert_eq!(BaseTimer::new().read(), 0);
}

#[test]
fn set_timer_replaces_the_count() {
    let mut timer = BaseTimer::new();
    timer.set_timer(200);
    assert_eq!(timer.read(), 200);
    timer.set_timer(3);
    assert_eq!(timer.read(), 3);
}

#[test]
fn decrement_takes_one_off() {
    let mut timer = BaseTimer::new();
    timer.set_timer(255);
    timer.decrement();
    assert_eq!(timer.read(), 254);
}

#[test]
fn timer_saturates_at_zero() {
    let mut timer = BaseTimer::new();
    timer.set_timer(10);
    for expected in (0..10u8).rev() {
        timer.decrement();
        assert_eq!(timer.read(), expected);
    }
    assert_eq!(timer.read(), 0);
    timer.decrement();
    assert_eq!(timer.read(), 0);
}

#[test]
fn decrement_of_fresh_timer_stays_zero() {
    let mut timer = BaseTimer::new();
    timer.decrement();
    assert_eq!(timer.read(), 0);
}

#[test]
fn delay_timer_ticks_sixty_times_a_second() {
    assert_eq!(TICK_MICROS, 16_666);
}

#[test]
fn sound_tick_without_request_only_counts_down() {
    let mut timer = BaseTimer::new();
    timer.set_timer(4);
    assert!(sound::tick(&mut timer, &[]));
    assert_eq!(timer.read(), 3);
    assert!(sound::tick(&mut timer, &[]));
    assert_eq!(timer.read(), 2);
    assert!(!sound::tick(&mut timer, &[]));
    assert_eq!(timer.read(), 1);
    assert!(!sound::tick(&mut timer, &[]));
    assert_eq!(timer.read(), 0);
    assert!(!sound::tick(&mut timer, &[]));
    assert_eq!(timer.read(), 0);
}

#[test]
fn sound_tick_takes_the_request_before_counting() {
    let mut timer = BaseTimer::new();
    assert!(sound::tick(&mut timer, &[5]));
    assert_eq!(timer.read(), 4);
}

#[test]
fn sound_tick_is_silent_for_a_request_of_two() {
    let mut timer = BaseTimer::new();
    assert!(!sound::tick(&mut timer, &[2]));
    assert_eq!(timer.read(), 1);
}

#[test]
fn sound_tick_lets_the_latest_request_count() {
    let mut timer = BaseTimer::new();
    timer.set_timer(100);
    assert!(sound::tick(&mut timer, &[3, 7]));
    assert_eq!(timer.read(), 6);
    assert!(!sound::tick(&mut timer, &[9, 0]));
    assert_eq!(timer.read(), 0);
}

#[test]
fn beep_ends_before_the_next_tick() {
    assert_eq!(sound::TICK_MICROS, 16_000);
    assert_eq!(sound::GUARD_MICROS, 50);
    assert_eq!(sound::BEEP_MICROS, 15_950);
}
