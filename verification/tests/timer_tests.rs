use game::timer::Timer;

#[test]
fn new_timer_is_stopped_and_full() {
    let t = Timer::new(5000);
    assert_eq!(t.duration, 5000);
    assert_eq!(t.time_left, 5000);
    assert!(!t.is_going);
    assert!(!t.is_ended);
}

#[test]
fn timer_ends_when_updates_sum_to_duration() {
    let mut t = Timer::new(5000);
    t.start();
    assert!(t.is_going);
    for i in 0..5 {
        assert!(!t.is_ended, "ended after only {} ticks", i);
        t.update(i * 1000, 1000);
    }
    assert!(t.is_ended);
    assert!(!t.is_going);
    assert_eq!(t.time_left, 0);
}

#[test]
fn timer_does_not_end_early() {
    let mut t = Timer::new(5000);
    t.start();
    t.update(0, 4999);
    assert!(!t.is_ended);
    assert!(t.is_going);
    assert_eq!(t.time_left, 1);
    t.update(4999, 1);
    assert!(t.is_ended);
    assert!(!t.is_going);
}

#[test]
fn overshooting_tick_ends_timer_at_zero() {
    let mut t = Timer::new(100);
    t.start();
    t.update(0, 1000);
    assert!(t.is_ended);
    assert_eq!(t.time_left, 0);
}

#[test]
fn update_is_a_no_op_unless_going() {
    let mut t = Timer::new(5000);
    t.update(0, 1000);
    assert_eq!(t.time_left, 5000);
    assert!(!t.is_ended);

    t.start();
    t.stop();
    assert!(t.is_ended);
    assert!(!t.is_going);
    t.update(0, 1000);
    assert_eq!(t.time_left, 5000);
}

#[test]
fn stop_marks_ended_without_draining_time() {
    let mut t = Timer::new(5000);
    t.start();
    t.update(0, 1000);
    t.stop();
    assert!(t.is_ended);
    assert!(!t.is_going);
    assert_eq!(t.time_left, 4000);
}

#[test]
fn reset_restores_full_time_from_any_state() {
    let mut t = Timer::new(5000);
    t.start();
    t.update(0, 3000);
    t.stop();
    t.reset();
    assert_eq!(t.time_left, 5000);
    assert!(!t.is_going);
    assert!(!t.is_ended);
}

#[test]
fn start_restarts_from_full_duration() {
    let mut t = Timer::new(5000);
    t.start();
    t.update(0, 3000);
    t.start();
    assert!(t.is_going);
    assert_eq!(t.time_left, 5000);
}

#[test]
fn set_time_takes_effect_on_next_start() {
    let mut t = Timer::new(5000);
    t.set_time(2000);
    assert_eq!(t.duration, 2000);
    assert_eq!(t.time_left, 5000);
    t.start();
    assert_eq!(t.time_left, 2000);
}

#[test]
fn pulse_fires_when_accumulated_time_reaches_interval() {
    let mut t = Timer::new(10_000);
    t.set_pulse_interval(100);
    t.start();
    assert!(!t.update(0, 60));
    assert!(t.update(60, 60));
    // The accumulator was reset by the pulse, so the next 60 do not pulse.
    assert!(!t.update(120, 60));
}

#[test]
fn pulse_accumulator_resets_once_per_tick() {
    // A delta spanning several intervals still emits a single pulse and
    // leaves the accumulator empty.
    let mut t = Timer::new(10_000);
    t.set_pulse_interval(100);
    t.start();
    assert!(t.update(0, 250));
    assert!(!t.update(250, 99));
    assert!(t.update(349, 1));
}

#[test]
fn no_pulses_without_an_interval() {
    let mut t = Timer::new(10_000);
    t.start();
    assert!(!t.update(0, 5000));
}
