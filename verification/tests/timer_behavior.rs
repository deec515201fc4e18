use hello_ecs::timer::{Timer, TimerMode};

#[test]
fn repeating_fires_only_on_the_crossing_tick() {
    let mut t = Timer::new(2, TimerMode::Repeating);
    t.tick(1);
    assert!(!t.just_finished());
    t.tick(1);
    assert!(t.just_finished());
    assert_eq!(t.elapsed, 0);
    t.tick(1);
    assert!(!t.just_finished());
}

#[test]
fn repeating_exact_sum_fires_exactly_once() {
    // Deltas summing to exactly the interval: one firing in the sequence.
    let mut t = Timer::new(5, TimerMode::Repeating);
    let deltas = [0u64, 2, 0, 3];
    let mut fired: u32 = 0;
    for d in deltas {
        t.tick(d);
        if t.just_finished() {
            fired += 1;
        }
    }
    assert_eq!(fired, 1);
}

#[test]
fn repeating_large_delta_wraps_with_remainder() {
    // A single delta spanning several intervals fires once and leaves
    // delta mod interval in the accumulator.
    let mut t = Timer::new(3, TimerMode::Repeating);
    t.tick(7);
    assert!(t.just_finished());
    assert_eq!(t.elapsed, 7 % 3);
}

#[test]
fn repeating_delta_of_twice_interval_leaves_zero() {
    let mut t = Timer::new(2, TimerMode::Repeating);
    t.tick(4);
    assert!(t.just_finished());
    assert_eq!(t.elapsed, 0);
}

#[test]
fn once_finishes_and_then_ignores_ticks() {
    let mut t = Timer::new(2, TimerMode::Once);
    t.tick(1);
    assert!(!t.just_finished());
    assert!(!t.finished);
    t.tick(5);
    assert!(t.just_finished());
    assert!(t.finished);
    assert_eq!(t.elapsed, 2);
    t.tick(5);
    assert!(!t.just_finished());
    assert!(t.finished);
    assert_eq!(t.elapsed, 2);
}

#[test]
fn just_finished_reflects_only_the_latest_tick() {
    let mut t = Timer::new(1, TimerMode::Repeating);
    t.tick(1);
    assert!(t.just_finished());
    t.tick(0);
    assert!(!t.just_finished());
}
