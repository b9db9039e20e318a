use update_notifier::store::{get_app_name, is_due, Config};
use update_notifier::time::{has_elapsed, Interval, Timestamp, NANOS_PER_SECOND};

fn at(seconds: i64, nanos: u32) -> Timestamp {
    Timestamp { seconds, nanos }
}

fn span(seconds: u64, nanos: u32) -> Interval {
    Interval { seconds, nanos }
}

#[test]
fn app_name_is_the_name_with_a_suffix() {
    assert_eq!(get_app_name("asdev"), "asdev-update-notifier");
    assert_eq!(get_app_name(""), "-update-notifier");
    assert_eq!(get_app_name("näme"), "näme-update-notifier");
}

#[test]
fn a_second_has_a_billion_nanos() {
    assert_eq!(NANOS_PER_SECOND, 1_000_000_000);
}

#[test]
fn boundary_is_inclusive() {
    let now = at(1_700_000_000, 250);
    let last_checked = at(1_700_000_000 - 1000, 250);
    assert!(has_elapsed(last_checked, now, span(1000, 0)));
    assert!(is_due(Some(Config { last_checked }), now, span(1000, 0)));
}

#[test]
fn one_nanosecond_short_is_not_enough() {
    let now = at(1_700_000_000, 250);
    let last_checked = at(1_700_000_000 - 1000, 251);
    assert!(!has_elapsed(last_checked, now, span(1000, 0)));
    assert!(!is_due(Some(Config { last_checked }), now, span(1000, 0)));
    assert!(!is_due(Some(Config { last_checked: at(1_700_000_000 - 1000, 250) }), now, span(1000, 1)));
}

#[test]
fn nanoseconds_carry_into_seconds() {
    // 1.999999999 s after 0.000000001 s lie 1.999999998 s.
    assert!(has_elapsed(at(0, 1), at(1, 999_999_999), span(1, 999_999_998)));
    assert!(!has_elapsed(at(0, 1), at(1, 999_999_999), span(1, 999_999_999)));
    // 2.0 s after 0.5 s lie 1.5 s.
    assert!(has_elapsed(at(0, 500_000_000), at(2, 0), span(1, 500_000_000)));
    assert!(!has_elapsed(at(0, 500_000_000), at(2, 0), span(1, 500_000_001)));
}

#[test]
fn no_record_is_always_due() {
    let now = at(1_700_000_000, 0);
    assert!(is_due(None, now, span(0, 0)));
    assert!(is_due(None, now, span(1_000_000, 0)));
    assert!(is_due(None, now, span(u64::MAX, u32::MAX)));
}

#[test]
fn zero_interval_is_due_at_once() {
    let now = at(1_700_000_000, 42);
    assert!(is_due(Some(Config { last_checked: now }), now, span(0, 0)));
}

#[test]
fn a_record_from_the_future_is_not_due() {
    let now = at(1_700_000_000, 0);
    let last_checked = at(1_700_000_001, 0);
    assert!(!is_due(Some(Config { last_checked }), now, span(0, 0)));
}

#[test]
fn the_widest_values_do_not_overflow() {
    assert!(has_elapsed(at(i64::MIN, 0), at(i64::MAX, u32::MAX), span(u64::MAX, 0)));
    assert!(!has_elapsed(at(i64::MAX, u32::MAX), at(i64::MIN, 0), span(0, 0)));
    assert!(!has_elapsed(at(0, 0), at(i64::MAX, u32::MAX), span(u64::MAX, u32::MAX)));
    assert!(has_elapsed(at(i64::MIN, 0), at(i64::MAX, 0), span(u64::MAX, 0)));
    assert!(!has_elapsed(at(i64::MIN, 1), at(i64::MAX, 0), span(u64::MAX, 0)));
}
