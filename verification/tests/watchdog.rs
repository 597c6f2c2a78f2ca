use runtime::watchdog::{WatchdogSet, MAX_WATCHDOGS};

#[test]
fn capacity_is_at_least_sixteen() {
    assert!(MAX_WATCHDOGS >= 16);
}

#[test]
fn new_set_never_expires() {
    let set = WatchdogSet::new();
    assert!(!set.expired(0));
    assert!(!set.expired(u64::MAX));
}

#[test]
fn set_ms_returns_lowest_free_id() {
    let mut set = WatchdogSet::new();
    assert_eq!(set.set_ms(0, 5), Ok(0));
    assert_eq!(set.set_ms(0, 5), Ok(1));
    assert_eq!(set.set_ms(0, 5), Ok(2));
    set.clear(0);
    set.clear(1);
    assert_eq!(set.set_ms(0, 5), Ok(0));
    assert_eq!(set.set_ms(0, 5), Ok(1));
    assert_eq!(set.set_ms(0, 5), Ok(3));
}

#[test]
fn set_ms_fails_on_a_full_set_and_changes_nothing() {
    let mut set = WatchdogSet::new();
    for id in 0..MAX_WATCHDOGS {
        assert_eq!(set.set_ms(0, 1000), Ok(id));
    }
    let before = set;
    assert_eq!(set.set_ms(0, 1), Err(()));
    assert_eq!(set, before);
    assert!(!set.expired(999));
}

#[test]
fn deadline_is_now_plus_ms() {
    let mut set = WatchdogSet::new();
    set.set_ms(1000, 10).unwrap();
    assert!(!set.expired(1009));
    assert!(set.expired(1010));
    assert!(set.expired(1011));
}

#[test]
fn zero_interval_expires_at_once() {
    let mut set = WatchdogSet::new();
    set.set_ms(42, 0).unwrap();
    assert!(set.expired(42));
    assert!(!set.expired(41));
}

#[test]
fn deadline_beyond_the_clock_never_expires() {
    let mut set = WatchdogSet::new();
    set.set_ms(u64::MAX, 1).unwrap();
    assert!(!set.expired(u64::MAX));
    set.set_ms(1, u64::MAX).unwrap();
    assert!(!set.expired(u64::MAX));
    set.set_ms(0, u64::MAX).unwrap();
    assert!(set.expired(u64::MAX));
}

#[test]
fn cleared_watchdog_does_not_expire() {
    let mut set = WatchdogSet::new();
    let id = set.set_ms(0, 10).unwrap();
    set.clear(id);
    assert!(!set.expired(1000));
}

#[test]
fn clearing_another_watchdog_keeps_the_deadline() {
    let mut set = WatchdogSet::new();
    let first = set.set_ms(0, 10).unwrap();
    let second = set.set_ms(0, 10_000).unwrap();
    set.clear(second);
    set.set_ms(5, 10_000).unwrap();
    assert_ne!(first, second);
    assert!(!set.expired(9));
    assert!(set.expired(10));
}

#[test]
fn clear_of_an_unknown_id_does_nothing() {
    let mut set = WatchdogSet::new();
    set.set_ms(0, 10).unwrap();
    let before = set;
    set.clear(MAX_WATCHDOGS);
    set.clear(usize::MAX);
    assert_eq!(set, before);
}

#[test]
fn earliest_deadline_decides() {
    let mut set = WatchdogSet::new();
    set.set_ms(0, 300).unwrap();
    set.set_ms(0, 100).unwrap();
    set.set_ms(0, 200).unwrap();
    assert!(!set.expired(99));
    assert!(set.expired(100));
}
