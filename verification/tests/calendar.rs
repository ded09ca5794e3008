use chrono::{Datelike, NaiveDate, TimeZone, Utc};
use timesdump::calendar::{first_second_of_year, year_at, EPOCH_DAY, MAX_YEAR, MIN_YEAR, SECONDS_PER_DAY};

fn calendar_start(year: i32) -> i64 {
    NaiveDate::from_ymd_opt(year, 1, 1)
        .unwrap()
        .and_hms_opt(0, 0, 0)
        .unwrap()
        .and_utc()
        .timestamp()
}

#[test]
fn calendar_constants() {
    assert_eq!(MAX_YEAR, 262142);
    assert_eq!(MIN_YEAR, -262143);
    assert_eq!(MIN_YEAR, NaiveDate::MIN.year());
    assert_eq!(MAX_YEAR, NaiveDate::MAX.year());
    assert_eq!(SECONDS_PER_DAY, 86400);
    assert_eq!(
        EPOCH_DAY as i32,
        NaiveDate::from_ymd_opt(1970, 1, 1).unwrap().num_days_from_ce()
    );
}

#[test]
fn known_years() {
    assert_eq!(year_at(0), Some(1970));
    assert_eq!(year_at(-1), Some(1969));
    assert_eq!(year_at(631152000), Some(1990));
    assert_eq!(year_at(1704067199), Some(2023));
    assert_eq!(year_at(1704067200), Some(2024));
    assert_eq!(year_at(951782400), Some(2000));
    assert_eq!(year_at(4102444800), Some(2100));
    assert_eq!(year_at(-62135596800), Some(1));
    assert_eq!(year_at(-62135596801), Some(0));
    assert_eq!(first_second_of_year(1970), 0);
    assert_eq!(first_second_of_year(1971), 365 * 86400);
    assert_eq!(first_second_of_year(1973), (3 * 365 + 1) * 86400);
    assert_eq!(first_second_of_year(2024), 1704067200);
    assert_eq!(first_second_of_year(1), -62135596800);
    assert_eq!(first_second_of_year(0), -62167219200);
}

#[test]
fn every_year_begins_where_the_calendar_says() {
    for year in MIN_YEAR..=MAX_YEAR {
        let start = first_second_of_year(year);
        assert_eq!(start, calendar_start(year), "{}", year);
        assert_eq!(year_at(start), Some(year));
        if year > MIN_YEAR {
            assert_eq!(year_at(start - 1), Some(year - 1));
        }
    }
}

#[test]
fn the_calendar_ends_with_its_last_year() {
    let first = first_second_of_year(MIN_YEAR);
    assert_eq!(first, -8334601228800);
    assert_eq!(year_at(first), Some(MIN_YEAR));
    assert_eq!(year_at(first - 1), None);
    assert!(Utc.timestamp_opt(first - 1, 0).single().is_none());
    let end = first_second_of_year(MAX_YEAR + 1);
    assert_eq!(end, 8210266876800);
    assert_eq!(year_at(end - 1), Some(MAX_YEAR));
    assert_eq!(year_at(end), None);
    assert!(Utc.timestamp_opt(end, 0).single().is_none());
    assert_eq!(year_at(i64::MAX), None);
    assert_eq!(year_at(i64::MIN), None);
    // Years beyond the calendar still have a first second.
    assert_eq!(first_second_of_year(i32::MAX), 67767976201996800);
    assert_eq!(first_second_of_year(i32::MIN), -67768100567971200);
}
