use async_php::time::TickerState;

#[test]
fn new_ticker_runs() {
    let t = TickerState::new(250);
    assert_eq!(t.get_interval(), 250);
    assert_eq!(t.get_tick_count(), 0);
    assert_eq!(t.get_max_ticks(), None);
    assert!(t.is_running());
    assert!(!t.is_stopped());
    assert_eq!(t.check_next_tick(), Ok(()));
}

#[test]
fn ticks_count_up_without_limit() {
    let mut t = TickerState::new(10);
    for _ in 0..5 {
        assert!(!t.on_tick());
    }
    assert_eq!(t.get_tick_count(), 5);
    assert!(t.is_running());
}

#[test]
fn ticker_stops_at_max_ticks() {
    let mut t = TickerState::new(10);
    t.set_max_ticks(Some(3));
    assert_eq!(t.get_max_ticks(), Some(3));
    assert!(!t.on_tick());
    assert!(!t.on_tick());
    assert!(t.on_tick());
    assert!(t.is_stopped());
    assert!(!t.is_running());
    assert_eq!(t.check_next_tick(), Err("Ticker has been stopped.".to_string()));
}

#[test]
fn non_positive_max_means_unlimited() {
    let mut t = TickerState::new(10);
    t.set_max_ticks(Some(0));
    assert_eq!(t.get_max_ticks(), None);
    t.set_max_ticks(Some(-5));
    assert_eq!(t.get_max_ticks(), None);
    t.set_max_ticks(Some(2));
    t.set_max_ticks(None);
    assert_eq!(t.get_max_ticks(), None);
}

#[test]
fn stop_and_reset() {
    let mut t = TickerState::new(100);
    t.on_tick();
    t.stop();
    assert!(t.is_stopped());
    assert!(t.check_next_tick().is_err());
    t.reset();
    assert!(t.is_running());
    assert_eq!(t.get_tick_count(), 0);
    assert_eq!(t.get_interval(), 100);
}

#[test]
fn reset_keeps_limit() {
    let mut t = TickerState::new(1);
    t.set_max_ticks(Some(1));
    assert!(t.on_tick());
    t.reset();
    assert_eq!(t.get_max_ticks(), Some(1));
    assert!(t.on_tick());
}
