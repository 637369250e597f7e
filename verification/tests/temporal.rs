use sqlx_odbc::temporal::{
    date_from_naive, naive_from_timestamp, parse_yyyymmdd_as_naive_date,
    parse_yyyymmdd_text_as_naive_date, time_from_naive, timestamp_from_naive, CalendarDate,
    CalendarDateTime, ClockTime, OdbcDate, OdbcTime, OdbcTimestamp, TimestampError,
};

#[test]
fn yyyymmdd_integers_name_dates_between_1900_and_3000() {
    assert_eq!(
        parse_yyyymmdd_as_naive_date(20200102),
        Some(CalendarDate { year: 2020, month: 1, day: 2 })
    );
    assert_eq!(parse_yyyymmdd_as_naive_date(19000101), Some(CalendarDate { year: 1900, month: 1, day: 1 }));
    assert_eq!(parse_yyyymmdd_as_naive_date(18991231), None);
    assert_eq!(parse_yyyymmdd_as_naive_date(30001232), None);
    assert_eq!(parse_yyyymmdd_as_naive_date(20210229), None);
    assert_eq!(parse_yyyymmdd_as_naive_date(20000229), Some(CalendarDate { year: 2000, month: 2, day: 29 }));
    assert_eq!(parse_yyyymmdd_as_naive_date(19000229), None);
    assert_eq!(parse_yyyymmdd_as_naive_date(-20200102), None);
}

#[test]
fn yyyymmdd_texts_are_eight_digits() {
    assert_eq!(
        parse_yyyymmdd_text_as_naive_date("20200102"),
        Some(CalendarDate { year: 2020, month: 1, day: 2 })
    );
    assert_eq!(parse_yyyymmdd_text_as_naive_date("2020012"), None);
    assert_eq!(parse_yyyymmdd_text_as_naive_date("2020-1-2"), None);
    assert_eq!(parse_yyyymmdd_text_as_naive_date("20201301"), None);
    assert_eq!(
        parse_yyyymmdd_text_as_naive_date("00010101"),
        Some(CalendarDate { year: 1, month: 1, day: 1 })
    );
}

#[test]
fn days_and_times_follow_the_calendar() {
    assert_eq!(CalendarDate::from_ymd_opt(2024, 2, 29), Some(CalendarDate { year: 2024, month: 2, day: 29 }));
    assert_eq!(CalendarDate::from_ymd_opt(2023, 2, 29), None);
    assert_eq!(CalendarDate::from_ymd_opt(2023, 4, 31), None);
    assert_eq!(CalendarDate::from_ymd_opt(262143, 1, 1), None);
    assert_eq!(ClockTime::from_hms_opt(23, 59, 59), Some(ClockTime { hour: 23, minute: 59, second: 59, nano: 0 }));
    assert_eq!(ClockTime::from_hms_opt(23, 60, 0), None);
    assert_eq!(
        ClockTime::from_hms_nano_opt(23, 59, 59, 1_500_000_000),
        Some(ClockTime { hour: 23, minute: 59, second: 59, nano: 1_500_000_000 })
    );
    assert_eq!(ClockTime::from_hms_nano_opt(23, 59, 58, 1_500_000_000), None);
}

#[test]
fn timestamps_round_trip() {
    let value = CalendarDateTime {
        date: CalendarDate { year: 1999, month: 12, day: 31 },
        time: ClockTime { hour: 23, minute: 59, second: 59, nano: 999_999_999 },
    };
    let stamp = timestamp_from_naive(value);
    assert_eq!(
        stamp,
        OdbcTimestamp { year: 1999, month: 12, day: 31, hour: 23, minute: 59, second: 59, fraction: 999_999_999 }
    );
    assert_eq!(naive_from_timestamp(stamp), Ok(value));
    assert_eq!(date_from_naive(value.date), OdbcDate { year: 1999, month: 12, day: 31 });
    assert_eq!(time_from_naive(value.time), OdbcTime { hour: 23, minute: 59, second: 59 });
}

#[test]
fn timestamps_that_name_no_instant_are_refused() {
    let bad_time = OdbcTimestamp { year: 2020, month: 1, day: 1, hour: 25, minute: 0, second: 0, fraction: 0 };
    assert_eq!(naive_from_timestamp(bad_time), Err(TimestampError::InvalidTime));
    let bad_date = OdbcTimestamp { year: 2020, month: 2, day: 30, hour: 25, minute: 0, second: 0, fraction: 0 };
    assert_eq!(naive_from_timestamp(bad_date), Err(TimestampError::InvalidDate));
}

#[test]
fn yyyymmdd_text_and_integer_agree() {
    for (text, number) in [("20200229", 20200229), ("19000101", 19000101), ("20210229", 20210229), ("30001231", 30001231)] {
        assert_eq!(parse_yyyymmdd_text_as_naive_date(text), parse_yyyymmdd_as_naive_date(number));
    }
}
