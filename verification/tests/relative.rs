use timesdump::relative::relative_time;

const T: i64 = 1_704_067_200;

#[test]
fn seconds_are_the_smallest_unit() {
    assert_eq!(relative_time(T, T), "0 second later");
    assert_eq!(relative_time(T, T + 1), "1 second ago");
    assert_eq!(relative_time(T + 1, T), "1 second later");
    assert_eq!(relative_time(T, T + 2), "2 seconds ago");
    assert_eq!(relative_time(T, T + 59), "59 seconds ago");
}

#[test]
fn minutes_and_hours() {
    assert_eq!(relative_time(T, T + 60), "1 minute ago");
    assert_eq!(relative_time(T, T + 119), "1 minute ago");
    assert_eq!(relative_time(T, T + 120), "2 minutes ago");
    assert_eq!(relative_time(T, T + 3599), "59 minutes ago");
    assert_eq!(relative_time(T + 3600, T), "1 hour later");
    assert_eq!(relative_time(T + 86399, T), "23 hours later");
}

#[test]
fn days_months_and_years() {
    let day = 86_400;
    assert_eq!(relative_time(T, T + day), "1 day ago");
    assert_eq!(relative_time(T, T + 3 * day), "3 days ago");
    assert_eq!(relative_time(T, T + 30 * day - 1), "29 days ago");
    assert_eq!(relative_time(T, T + 30 * day), "1 month ago");
    assert_eq!(relative_time(T, T + 60 * day), "2 months ago");
    // Twelve months of thirty days come before the first year of 365.
    assert_eq!(relative_time(T, T + 364 * day), "12 months ago");
    assert_eq!(relative_time(T + 365 * day, T), "1 year later");
    assert_eq!(relative_time(T + 729 * day, T), "1 year later");
    assert_eq!(relative_time(T + 730 * day, T), "2 years later");
    assert_eq!(relative_time(0, T), "54 years ago");
}

#[test]
fn the_widest_gaps_do_not_overflow() {
    assert_eq!(relative_time(i64::MAX, i64::MIN), "584942417355 years later");
    assert_eq!(relative_time(i64::MIN, i64::MAX), "584942417355 years ago");
    assert_eq!(relative_time(i64::MIN, 0), "292471208677 years ago");
    assert_eq!(relative_time(i64::MAX, 0), "292471208677 years later");
}
