use piezo_tunes::debounce::Debouncer;
use piezo_tunes::time::MonotonicClock;

#[test]
fn fresh_clock_reads_zero() {
    let clock = MonotonicClock::new();
    assert_eq!(clock.current_millis(), 0);
}

#[test]
fn n_ticks_from_zero_read_n() {
    let mut clock = MonotonicClock::new();
    for _ in 0..1000 {
        assert!(clock.time_tick());
    }
    assert_eq!(clock.current_millis(), 1000);
}

#[test]
fn reads_never_go_backwards() {
    let mut clock = MonotonicClock::new();
    let mut last = clock.current_millis();
    for _ in 0..100 {
        clock.time_tick();
        let now = clock.current_millis();
        assert!(now >= last);
        last = now;
    }
}

#[test]
fn carry_propagates_through_a_saturated_word() {
    let mut clock = MonotonicClock::from_words([u32::MAX, 0, 0, 0]);
    assert_eq!(clock.current_millis(), u32::MAX as u128);
    assert!(clock.time_tick());
    assert_eq!(clock.current_millis(), 1u128 << 32);
}

#[test]
fn carry_propagates_through_two_saturated_words() {
    let mut clock = MonotonicClock::from_words([u32::MAX, u32::MAX, 0, 0]);
    assert!(clock.time_tick());
    assert_eq!(clock.current_millis(), 1u128 << 64);
    assert!(clock.time_tick());
    assert_eq!(clock.current_millis(), (1u128 << 64) + 1);
}

#[test]
fn exhausted_counter_reports_overflow_and_holds() {
    let mut clock = MonotonicClock::from_words([u32::MAX; 4]);
    assert_eq!(clock.current_millis(), u128::MAX);
    assert!(!clock.time_tick());
    assert_eq!(clock.current_millis(), u128::MAX);
}

#[test]
fn edge_at_time_zero_is_not_accepted() {
    let mut d = Debouncer::new(500);
    assert!(!d.on_edge(0));
    assert!(d.on_edge(1));
}

#[test]
fn bounce_burst_dispatches_one_event() {
    let mut d = Debouncer::new(500);
    let edges = vec![10u128, 11, 12, 40, 180, 410, 510];
    assert_eq!(d.feed_edges(&edges), 1);
}

#[test]
fn edge_on_the_window_boundary_is_still_bounce() {
    let mut d = Debouncer::new(500);
    assert!(d.on_edge(10));
    assert!(!d.on_edge(510));
    assert!(d.on_edge(511));
}

#[test]
fn separated_edges_dispatch_two_events() {
    let mut d = Debouncer::new(500);
    let edges = vec![10u128, 511];
    assert_eq!(d.feed_edges(&edges), 2);
}

#[test]
fn each_accepted_edge_restarts_the_window() {
    let mut d = Debouncer::new(500);
    // Accepted at 10 and at 700; everything in between is bounce.
    let edges = vec![10u128, 200, 450, 700, 900, 1100];
    assert_eq!(d.feed_edges(&edges), 2);
    assert_eq!(d.next_valid_time, 1200);
}
