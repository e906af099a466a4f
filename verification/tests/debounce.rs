use wrangler::watch::debounce::ChangeEvent;
use wrangler::watch::debounce::Debouncer;
use wrangler::watch::debounce::Signal;
use wrangler::watch::debounce::COOLDOWN_PERIOD_MS;

fn count_changes(cooldown: u64, signals: &[Signal]) -> usize {
    let mut debouncer = Debouncer::new(cooldown);
    let mut changes = 0;
    for signal in signals.iter() {
        if debouncer.step(*signal).is_some() {
            changes += 1;
        }
    }
    changes
}

#[test]
fn default_cooldown_is_two_seconds() {
    assert_eq!(COOLDOWN_PERIOD_MS, 2000);
}

#[test]
fn new_debouncer_is_idle() {
    let debouncer = Debouncer::new(2000);
    assert_eq!(debouncer.cooldown_ms, 2000);
    assert_eq!(debouncer.pending_since_ms, None);
    assert_eq!(debouncer.time_to_wait(123), None);
}

#[test]
fn events_within_one_window_give_one_change() {
    for n in 1..50u64 {
        let mut signals: Vec<Signal> = Vec::new();
        for k in 0..n {
            signals.push(Signal::Raw(1000 + k * 40));
        }
        let last = 1000 + (n - 1) * 40;
        signals.push(Signal::Tick(last + 2000));
        assert_eq!(count_changes(2000, &signals), 1, "{} events", n);
    }
}

#[test]
fn a_rolling_burst_gives_one_change() {
    let mut signals: Vec<Signal> = Vec::new();
    for k in 0..100u64 {
        signals.push(Signal::Raw(k * 1999));
        signals.push(Signal::Tick(k * 1999 + 1000));
    }
    signals.push(Signal::Tick(99 * 1999 + 2000));
    assert_eq!(count_changes(2000, &signals), 1);
}

#[test]
fn two_bursts_give_two_changes() {
    let signals = [
        Signal::Raw(0),
        Signal::Raw(100),
        Signal::Raw(300),
        Signal::Tick(2300),
        Signal::Raw(2400),
        Signal::Raw(2500),
        Signal::Tick(4500),
    ];
    assert_eq!(count_changes(2000, &signals), 2);
}

#[test]
fn two_bursts_give_two_changes_without_a_tick_between() {
    let signals = [Signal::Raw(0), Signal::Raw(100), Signal::Raw(2101), Signal::Tick(4101)];
    assert_eq!(count_changes(2000, &signals), 2);
}

#[test]
fn change_comes_a_cooldown_after_the_last_event() {
    let mut debouncer = Debouncer::new(2000);
    assert_eq!(debouncer.record_event(0), None);
    assert_eq!(debouncer.record_event(500), None);
    assert_eq!(debouncer.poll(2000), None);
    assert_eq!(debouncer.poll(2499), None);
    assert_eq!(debouncer.pending_since_ms, Some(500));
    assert_eq!(debouncer.poll(2500), Some(ChangeEvent { last_raw_ms: 500 }));
    assert_eq!(debouncer.pending_since_ms, None);
    assert_eq!(debouncer.poll(2501), None);
    assert_eq!(debouncer.poll(10_000), None);
}

#[test]
fn event_at_the_deadline_starts_a_new_burst() {
    let mut debouncer = Debouncer::new(2000);
    assert_eq!(debouncer.record_event(10), None);
    assert_eq!(debouncer.record_event(2010), Some(ChangeEvent { last_raw_ms: 10 }));
    assert_eq!(debouncer.pending_since_ms, Some(2010));
    assert_eq!(debouncer.poll(4010), Some(ChangeEvent { last_raw_ms: 2010 }));
}

#[test]
fn event_just_before_the_deadline_prolongs_the_burst() {
    let mut debouncer = Debouncer::new(2000);
    assert_eq!(debouncer.record_event(10), None);
    assert_eq!(debouncer.record_event(2009), None);
    assert_eq!(debouncer.poll(2010), None);
    assert_eq!(debouncer.poll(4009), Some(ChangeEvent { last_raw_ms: 2009 }));
}

#[test]
fn time_to_wait_counts_down_to_the_deadline() {
    let mut debouncer = Debouncer::new(2000);
    debouncer.record_event(500);
    assert_eq!(debouncer.time_to_wait(500), Some(2000));
    assert_eq!(debouncer.time_to_wait(1000), Some(1500));
    assert_eq!(debouncer.time_to_wait(2499), Some(1));
    assert_eq!(debouncer.time_to_wait(2500), Some(0));
    assert_eq!(debouncer.time_to_wait(9000), Some(0));
}

#[test]
fn clock_that_runs_backwards_does_not_fire() {
    let mut debouncer = Debouncer::new(2000);
    debouncer.record_event(5000);
    assert_eq!(debouncer.poll(100), None);
    assert_eq!(debouncer.time_to_wait(100), Some(2000));
    assert_eq!(debouncer.record_event(100), None);
    assert_eq!(debouncer.poll(2100), Some(ChangeEvent { last_raw_ms: 100 }));
}

#[test]
fn zero_cooldown_emits_at_the_next_signal() {
    let mut debouncer = Debouncer::new(0);
    assert_eq!(debouncer.record_event(7), None);
    assert_eq!(debouncer.time_to_wait(7), Some(0));
    assert_eq!(debouncer.poll(7), Some(ChangeEvent { last_raw_ms: 7 }));
}

#[test]
fn times_near_the_end_of_the_range_do_not_overflow() {
    let mut debouncer = Debouncer::new(u64::MAX);
    assert_eq!(debouncer.record_event(u64::MAX - 1), None);
    assert_eq!(debouncer.poll(u64::MAX), None);
    assert_eq!(debouncer.time_to_wait(u64::MAX), Some(u64::MAX - 1));
    let mut debouncer = Debouncer::new(10);
    assert_eq!(debouncer.record_event(u64::MAX - 10), None);
    assert_eq!(debouncer.step(Signal::Tick(u64::MAX)), Some(ChangeEvent {
        last_raw_ms: u64::MAX - 10
    }));
}
