use chip8::Timer;

#[test]
fn new_timer_is_zeroed() {
    let t = Timer::new(1000);
    assert_eq!(t.get_count(), 0);
    assert_eq!(t.accumulated, 0);
    assert!(!t.complete());
    assert_eq!(t.tick_period, 1000);
}

#[test]
fn set_count_touches_only_count() {
    let mut t = Timer::new(1000);
    t.update(400);
    t.set_count(9);
    assert_eq!(t.get_count(), 9);
    assert_eq!(t.accumulated, 400);
    assert!(!t.complete());
}

#[test]
fn armed_timer_completes_on_the_tick_to_zero() {
    // Timer with count = 1, tick period 1000: update(1000) crosses one tick
    // boundary, the count reaches 0 and the completion flag is set.
    let mut t = Timer::new(1000);
    t.set_count(1);
    t.update(1000);
    assert_eq!(t.get_count(), 0);
    assert!(t.complete());
    // The next boundary crossing finds the timer idle and clears the flag.
    t.update(1000);
    assert_eq!(t.get_count(), 0);
    assert!(!t.complete());
}

#[test]
fn countdown_over_uneven_deltas() {
    // count = 3, deltas summing to 3 * 1000: complete() is false after every
    // update but the last, true exactly on the one causing the last decrement.
    let mut t = Timer::new(1000);
    t.set_count(3);
    let deltas: Vec<u32> = vec![500, 500, 700, 300, 999, 1];
    for (i, d) in deltas.iter().enumerate() {
        t.update(*d);
        if i + 1 < deltas.len() {
            assert!(!t.complete(), "completed early at step {}", i);
            assert!(t.get_count() >= 1);
        }
    }
    assert_eq!(t.get_count(), 0);
    assert!(t.complete());
}

#[test]
fn update_below_period_only_accumulates() {
    let mut t = Timer::new(1000);
    t.set_count(5);
    t.update(999);
    assert_eq!(t.get_count(), 5);
    assert_eq!(t.accumulated, 999);
    assert!(!t.complete());
    t.update(1);
    assert_eq!(t.get_count(), 4);
    assert_eq!(t.accumulated, 0);
    assert!(!t.complete());
}

#[test]
fn at_most_one_tick_per_update() {
    // A delta spanning several periods still consumes a single tick.
    let mut t = Timer::new(1000);
    t.set_count(5);
    t.update(3500);
    assert_eq!(t.get_count(), 4);
    assert_eq!(t.accumulated, 2500);
}

#[test]
fn idle_timer_boundary_clears_flag_only() {
    // An idle timer crossing a tick boundary clears the completion flag and
    // keeps the count at zero.
    let mut t = Timer::new(1000);
    t.set_count(1);
    t.update(1000);
    assert!(t.complete());
    t.update(2500);
    assert_eq!(t.get_count(), 0);
    assert!(!t.complete());
}
