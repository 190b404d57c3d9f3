use debouncer::Debouncer;

#[test]
fn fresh_instance_holds_default() {
    let d: Debouncer<u8> = Debouncer::new();
    assert_eq!(d.value(), 0);
    assert_eq!(d.last_change(), None);
    let e: Debouncer<bool> = Debouncer::default();
    assert!(!e.value());
    assert_eq!(e.last_change(), None);
}

#[test]
fn equal_sample_changes_nothing() {
    let mut d: Debouncer<u8> = Debouncer::new();
    assert_eq!(d.update(0, 10, 3), 0);
    assert_eq!(d.last_change(), None);
    assert_eq!(d.update(7, 20, 3), 7);
    assert_eq!(d.update(7, 21, 3), 7);
    assert_eq!(d.update(7, 1000, 0), 7);
    assert_eq!(d.last_change(), Some(20));
}

#[test]
fn first_change_ignores_freeze_length() {
    let mut d: Debouncer<u32> = Debouncer::new();
    assert_eq!(d.update(42, 123, u32::MAX), 42);
    assert_eq!(d.value(), 42);
    assert_eq!(d.last_change(), Some(123));
}

#[test]
fn freeze_window_and_boundary() {
    let mut d: Debouncer<i32> = Debouncer::new();
    assert_eq!(d.update(1, 10, 4), 1);
    assert_eq!(d.update(2, 10, 4), 1);
    assert_eq!(d.update(2, 13, 4), 1);
    assert_eq!(d.last_change(), Some(10));
    assert_eq!(d.update(2, 14, 4), 2);
    assert_eq!(d.last_change(), Some(14));
}

#[test]
fn zero_freeze_accepts_every_change() {
    let mut d: Debouncer<u8> = Debouncer::new();
    assert_eq!(d.update(1, 5, 0), 1);
    assert_eq!(d.update(2, 5, 0), 2);
    assert_eq!(d.update(3, 6, 0), 3);
    assert_eq!(d.last_change(), Some(6));
}

#[test]
fn earlier_tick_is_refused() {
    let mut d: Debouncer<u8> = Debouncer::new();
    assert_eq!(d.update(1, 100, 0), 1);
    assert_eq!(d.update(2, 99, 0), 1);
    assert_eq!(d.last_change(), Some(100));
}

#[test]
fn freeze_end_past_largest_tick_does_not_panic() {
    let mut d: Debouncer<u8> = Debouncer::new();
    assert_eq!(d.update(1, u64::MAX - 1, 5), 1);
    assert_eq!(d.update(2, u64::MAX, 5), 1);
    assert_eq!(d.last_change(), Some(u64::MAX - 1));
}

#[test]
fn set_value_keeps_last_change() {
    let mut d: Debouncer<u8> = Debouncer::new();
    d.set_value(9);
    assert_eq!(d.value(), 9);
    assert_eq!(d.last_change(), None);
    assert_eq!(d.update(3, 0, 10), 3);
    d.set_value(4);
    assert_eq!(d.value(), 4);
    assert_eq!(d.last_change(), Some(0));
    assert_eq!(d.update(5, 9, 10), 4);
    assert_eq!(d.update(5, 10, 10), 5);
}
