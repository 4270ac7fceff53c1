use credify::time::{deadline_after, is_past, MILLIS_PER_DAY, MILLIS_PER_HOUR};

#[test]
fn deadline_is_now_plus_hours() {
    assert_eq!(deadline_after(1_000, 2), 7_201_000);
    assert_eq!(deadline_after(1_700_000_000_000, 72), 1_700_000_000_000 + 72 * MILLIS_PER_HOUR);
}

#[test]
fn deadline_after_zero_hours_is_now() {
    assert_eq!(deadline_after(42, 0), 42);
    assert_eq!(deadline_after(u64::MAX, 0), u64::MAX);
}

#[test]
fn deadline_saturates_when_hours_do_not_fit() {
    assert_eq!(deadline_after(0, u64::MAX), u64::MAX);
    assert_eq!(deadline_after(0, u64::MAX / MILLIS_PER_HOUR + 1), u64::MAX);
    assert_eq!(deadline_after(5, 5_124_095_576_031), u64::MAX);
}

#[test]
fn deadline_saturates_when_sum_does_not_fit() {
    let hours = u64::MAX / MILLIS_PER_HOUR;
    let length = hours * MILLIS_PER_HOUR;
    assert_eq!(deadline_after(0, hours), length);
    assert_eq!(deadline_after(u64::MAX - length, hours), u64::MAX);
    assert_eq!(deadline_after(u64::MAX - length + 1, hours), u64::MAX);
    assert_eq!(deadline_after(u64::MAX, 1), u64::MAX);
}

#[test]
fn past_means_strictly_more_than_the_days() {
    let start = 1_000;
    assert!(!is_past(start + 90 * MILLIS_PER_DAY, start, 90));
    assert!(is_past(start + 90 * MILLIS_PER_DAY + 1, start, 90));
    assert!(!is_past(start, start, 0));
    assert!(is_past(start + 1, start, 0));
}

#[test]
fn a_later_time_is_never_past() {
    assert!(!is_past(10, 11, 0));
    assert!(!is_past(0, u64::MAX, 90));
}

#[test]
fn nothing_is_past_days_that_do_not_fit() {
    assert!(!is_past(u64::MAX, 0, u64::MAX));
    assert!(!is_past(u64::MAX, 0, u64::MAX / MILLIS_PER_DAY + 1));
    assert!(is_past(u64::MAX, 0, u64::MAX / MILLIS_PER_DAY));
}
