use cargo_docserve::watcher::{Debouncer, Tick, DEBOUNCE_MS};

#[test]
fn default_window_is_half_a_second() {
    assert_eq!(DEBOUNCE_MS, 500);
}

#[test]
fn an_idle_debouncer_gives_nothing() {
    let mut debouncer = Debouncer::new(500);
    assert!(!debouncer.is_pending());
    assert!(!debouncer.poll(0));
    assert!(!debouncer.poll(10_000));
    assert!(!debouncer.is_pending());
}

#[test]
fn a_change_comes_once_the_window_has_passed() {
    let mut debouncer = Debouncer::new(500);
    debouncer.notify(100);
    assert!(debouncer.is_pending());
    assert!(!debouncer.poll(100));
    assert!(!debouncer.poll(599));
    assert!(debouncer.poll(600));
    assert!(!debouncer.is_pending());
    assert!(!debouncer.poll(601));
    assert!(!debouncer.poll(5000));
}

#[test]
fn every_raw_notification_restarts_the_timer() {
    let mut debouncer = Debouncer::new(500);
    debouncer.notify(0);
    debouncer.notify(400);
    assert!(!debouncer.poll(500));
    debouncer.notify(800);
    assert!(!debouncer.poll(1299));
    assert!(debouncer.poll(1300));
}

#[test]
fn two_bursts_give_two_changes() {
    let mut debouncer = Debouncer::new(500);
    let ticks = [
        Tick::Raw(0),
        Tick::Raw(10),
        Tick::Poll(100),
        Tick::Poll(510),
        Tick::Poll(520),
        Tick::Raw(2000),
        Tick::Raw(2100),
        Tick::Raw(2200),
        Tick::Poll(2600),
        Tick::Poll(2700),
        Tick::Poll(2800),
    ];
    let mut changes = Vec::new();
    for tick in ticks {
        if debouncer.feed(tick) {
            changes.push(tick);
        }
    }
    assert_eq!(changes, vec![Tick::Poll(510), Tick::Poll(2700)]);
}

#[test]
fn a_clock_that_went_back_gives_nothing() {
    let mut debouncer = Debouncer::new(0);
    debouncer.notify(100);
    assert!(!debouncer.poll(50));
    assert!(debouncer.poll(100));
}

#[test]
fn times_near_the_end_of_the_range_do_not_overflow() {
    let mut debouncer = Debouncer::new(u64::MAX);
    debouncer.notify(1);
    assert!(!debouncer.poll(u64::MAX));
    debouncer.notify(0);
    assert!(debouncer.poll(u64::MAX));
}
