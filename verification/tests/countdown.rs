use arcade_core::timer::Countdown;

#[test]
fn countdown_starts_unfinished() {
    let c = Countdown::new(5_000_000);
    assert_eq!(c.duration_nanos(), 5_000_000);
    assert_eq!(c.elapsed_nanos(), 0);
    assert!(!c.finished());
}

#[test]
fn countdown_counts_a_partial_tick() {
    let mut c = Countdown::new(100);
    c.tick(30);
    assert_eq!(c.elapsed_nanos(), 30);
    assert_eq!(c.duration_nanos(), 100);
    assert!(!c.finished());
    c.tick(45);
    assert_eq!(c.elapsed_nanos(), 75);
    assert!(!c.finished());
}

#[test]
fn countdown_finishes_exactly_at_its_duration() {
    let mut c = Countdown::new(100);
    c.tick(99);
    assert!(!c.finished());
    assert_eq!(c.elapsed_nanos(), 99);
    c.tick(1);
    assert!(c.finished());
    assert_eq!(c.elapsed_nanos(), 100);
}

#[test]
fn countdown_stops_at_its_duration_when_overshot() {
    let mut c = Countdown::new(100);
    c.tick(1_000);
    assert!(c.finished());
    assert_eq!(c.elapsed_nanos(), 100);
}

#[test]
fn countdown_ignores_ticks_once_finished() {
    let mut c = Countdown::new(100);
    c.tick(100);
    c.tick(7);
    c.tick(0);
    assert!(c.finished());
    assert_eq!(c.elapsed_nanos(), 100);
    assert_eq!(c.duration_nanos(), 100);
}

#[test]
fn countdown_zero_tick_changes_nothing_before_the_end() {
    let mut c = Countdown::new(100);
    c.tick(40);
    c.tick(0);
    assert_eq!(c.elapsed_nanos(), 40);
    assert!(!c.finished());
}

#[test]
fn countdown_reset_rewinds() {
    let mut c = Countdown::new(100);
    c.tick(250);
    c.reset();
    assert!(!c.finished());
    assert_eq!(c.elapsed_nanos(), 0);
    assert_eq!(c.duration_nanos(), 100);
    c.tick(99);
    assert!(!c.finished());
    c.tick(1);
    assert!(c.finished());
}

#[test]
fn countdown_of_zero_length_finishes_on_its_first_tick() {
    let mut c = Countdown::new(0);
    assert!(!c.finished());
    c.tick(0);
    assert!(c.finished());
    assert_eq!(c.elapsed_nanos(), 0);
}

#[test]
fn countdown_handles_the_largest_times() {
    let mut c = Countdown::new(u64::MAX);
    c.tick(u64::MAX - 1);
    assert!(!c.finished());
    assert_eq!(c.elapsed_nanos(), u64::MAX - 1);
    c.tick(u64::MAX);
    assert!(c.finished());
    assert_eq!(c.elapsed_nanos(), u64::MAX);
}
