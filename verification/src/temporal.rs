use vstd::prelude::*;

verus! {

/// An ODBC `SQL_DATE_STRUCT`.
#[derive(Debug, Clone, Copy, PartialEq, Eq, Structural)]
pub struct OdbcDate {
    pub year: i16,
    pub month: u16,
    pub day: u16,
}

/// An ODBC `SQL_TIME_STRUCT`.
#[derive(Debug, Clone, Copy, PartialEq, Eq, Structural)]
pub struct OdbcTime {
    pub hour: u16,
    pub minute: u16,
    pub second: u16,
}

/// An ODBC `SQL_TIMESTAMP_STRUCT`; `fraction` is in nanoseconds.
#[derive(Debug, Clone, Copy, PartialEq, Eq, Structural)]
pub struct OdbcTimestamp {
    pub year: i16,
    pub month: u16,
    pub day: u16,
    pub hour: u16,
    pub minute: u16,
    pub second: u16,
    pub fraction: u32,
}

/// A day of the proleptic Gregorian calendar, as a `chrono::NaiveDate` holds it.
#[derive(Debug, Clone, Copy, PartialEq, Eq, Structural)]
pub struct CalendarDate {
    pub year: i32,
    pub month: u32,
    pub day: u32,
}

/// A time of day, as a `chrono::NaiveTime` holds it; a nanosecond count of a second or more
/// marks a leap second.
#[derive(Debug, Clone, Copy, PartialEq, Eq, Structural)]
pub struct ClockTime {
    pub hour: u32,
    pub minute: u32,
    pub second: u32,
    pub nano: u32,
}

/// A date and a time of day, as a `chrono::NaiveDateTime` holds them.
#[derive(Debug, Clone, Copy, PartialEq, Eq, Structural)]
pub struct CalendarDateTime {
    pub date: CalendarDate,
    pub time: ClockTime,
}

/// The earliest year a calendar date can have.
pub open spec fn min_year() -> int {
    -262143
}

/// The latest year a calendar date can have.
pub open spec fn max_year() -> int {
    262142
}

/// Leap years of the proleptic Gregorian calendar.
pub open spec fn is_leap_year(year: int) -> bool {
    (year % 4 == 0 && year % 100 != 0) || year % 400 == 0
}

/// The number of days of a month.
pub open spec fn days_in_month(year: int, month: int) -> int {
    if month == 2 {
        if is_leap_year(year) {
            29
        } else {
            28
        }
    } else if month == 4 || month == 6 || month == 9 || month == 11 {
        30
    } else {
        31
    }
}

/// The days that `chrono::NaiveDate::from_ymd_opt` accepts.
pub open spec fn valid_date(year: int, month: int, day: int) -> bool {
    &&& min_year() <= year <= max_year()
    &&& 1 <= month <= 12
    &&& 1 <= day <= days_in_month(year, month)
}

/// The times that `chrono::NaiveTime::from_hms_nano_opt` accepts.
pub open spec fn valid_time(hour: int, minute: int, second: int, nano: int) -> bool {
    &&& 0 <= hour < 24
    &&& 0 <= minute < 60
    &&& 0 <= second < 60
    &&& 0 <= nano < 2_000_000_000
    &&& nano >= 1_000_000_000 ==> second == 59
}

impl CalendarDate {
    /// The date is one that exists.
    pub open spec fn valid(self) -> bool {
        valid_date(self.year as int, self.month as int, self.day as int)
    }

    /// Makes a date from year, month and day, or `None` when no such day exists
    /// (the rule of `chrono::NaiveDate::from_ymd_opt`).
    pub fn from_ymd_opt(year: i32, month: u32, day: u32) -> (r: Option<CalendarDate>)
        ensures
            r is Some <==> valid_date(year as int, month as int, day as int),
            r matches Some(d) ==> d == (CalendarDate { year, month, day }),
    {
        if year < -262143 || year > 262142 || month < 1 || month > 12 || day < 1 {
            return None;
        }
        let magnitude: u32 = if year < 0 {
            (0i64 - year as i64) as u32
        } else {
            year as u32
        };
        proof {
            lemma_divisible_negation(year as int, 4);
            lemma_divisible_negation(year as int, 100);
            lemma_divisible_negation(year as int, 400);
        }
        let leap = (magnitude % 4 == 0 && magnitude % 100 != 0) || magnitude % 400 == 0;
        assert(leap == is_leap_year(year as int));
        let last: u32 = if month == 2 {
            if leap {
                29
            } else {
                28
            }
        } else if month == 4 || month == 6 || month == 9 || month == 11 {
            30
        } else {
            31
        };
        if day > last {
            None
        } else {
            Some(CalendarDate { year, month, day })
        }
    }
}

/// Divisibility does not depend on the sign.
proof fn lemma_divisible_negation(y: int, k: int)
    requires
        k > 0,
    ensures
        (y % k == 0) == ((-y) % k == 0),
{
    vstd::arithmetic::div_mod::lemma_fundamental_div_mod(y, k);
    vstd::arithmetic::div_mod::lemma_fundamental_div_mod(-y, k);
    if y % k == 0 {
        let q = y / k;
        vstd::arithmetic::div_mod::lemma_mod_multiples_basic(-q, k);
        assert((-q) * k == -y) by (nonlinear_arith)
            requires
                y == k * q,
        ;
    }
    if (-y) % k == 0 {
        let q = (-y) / k;
        vstd::arithmetic::div_mod::lemma_mod_multiples_basic(-q, k);
        assert((-q) * k == y) by (nonlinear_arith)
            requires
                -y == k * q,
        ;
    }
}

impl ClockTime {
    /// The time is one that exists.
    pub open spec fn valid(self) -> bool {
        valid_time(self.hour as int, self.minute as int, self.second as int, self.nano as int)
    }

    /// Makes a time of day, or `None` when it does not exist
    /// (the rule of `chrono::NaiveTime::from_hms_nano_opt`).
    pub fn from_hms_nano_opt(hour: u32, minute: u32, second: u32, nano: u32) -> (r: Option<
        ClockTime,
    >)
        ensures
            r is Some <==> valid_time(hour as int, minute as int, second as int, nano as int),
            r matches Some(t) ==> t == (ClockTime { hour, minute, second, nano }),
    {
        if hour >= 24 || minute >= 60 || second >= 60 || (nano >= 1_000_000_000 && second != 59)
            || nano >= 2_000_000_000 {
            None
        } else {
            Some(ClockTime { hour, minute, second, nano })
        }
    }

    /// The time of day of the given hour, minute and second, if it exists.
    pub open spec fn from_hms_spec(hour: u32, minute: u32, second: u32) -> Option<ClockTime> {
        if valid_time(hour as int, minute as int, second as int, 0) {
            Some(ClockTime { hour, minute, second, nano: 0 })
        } else {
            None
        }
    }

    /// Makes a time of day without fraction (`chrono::NaiveTime::from_hms_opt`).
    pub fn from_hms_opt(hour: u32, minute: u32, second: u32) -> (r: Option<ClockTime>)
        ensures
            r is Some <==> valid_time(hour as int, minute as int, second as int, 0),
            r matches Some(t) ==> t == (ClockTime { hour, minute, second, nano: 0 }),
    {
        ClockTime::from_hms_nano_opt(hour, minute, second, 0)
    }
}

/// The date that an integer `YYYYMMDD` between 1900-01-01 and 3000-12-31 denotes.
pub open spec fn yyyymmdd_date(value: int) -> Option<CalendarDate> {
    if !(19000101 <= value <= 30001231) {
        None
    } else {
        let year = value / 10000;
        let month = (value % 10000) / 100;
        let day = value % 100;
        if valid_date(year, month, day) {
            Some(CalendarDate { year: year as i32, month: month as u32, day: day as u32 })
        } else {
            None
        }
    }
}

/// Parses an integer in `YYYYMMDD` form as a date.
pub fn parse_yyyymmdd_as_naive_date(value: i64) -> (r: Option<CalendarDate>)
    ensures
        r == yyyymmdd_date(value as int),
{
    if value < 19000101 || value > 30001231 {
        return None;
    }
    let year = (value / 10000) as i32;
    let month = ((value % 10000) / 100) as u32;
    let day = (value % 100) as u32;
    CalendarDate::from_ymd_opt(year, month, day)
}

/// The value of an ASCII digit.
pub open spec fn digit_value(c: char) -> int {
    c as int - '0' as int
}

/// `c` is an ASCII digit.
pub open spec fn is_digit(c: char) -> bool {
    '0' <= c <= '9'
}

/// The date that eight ASCII digits `YYYYMMDD` denote.
pub open spec fn yyyymmdd_text_date(s: Seq<char>) -> Option<CalendarDate> {
    if s.len() != 8 || !(forall|i: int| 0 <= i < 8 ==> #[trigger] is_digit(s[i])) {
        None
    } else {
        let year = digit_value(s[0]) * 1000 + digit_value(s[1]) * 100 + digit_value(s[2]) * 10
            + digit_value(s[3]);
        let month = digit_value(s[4]) * 10 + digit_value(s[5]);
        let day = digit_value(s[6]) * 10 + digit_value(s[7]);
        if valid_date(year, month, day) {
            Some(CalendarDate { year: year as i32, month: month as u32, day: day as u32 })
        } else {
            None
        }
    }
}

/// The number that eight decimal digits spell.
pub open spec fn eight_digit_value(s: Seq<char>) -> int {
    digit_value(s[0]) * 10000000 + digit_value(s[1]) * 1000000 + digit_value(s[2]) * 100000
        + digit_value(s[3]) * 10000 + digit_value(s[4]) * 1000 + digit_value(s[5]) * 100
        + digit_value(s[6]) * 10 + digit_value(s[7])
}

/// Eight digits name the same date as text and as the integer they spell, whenever that
/// integer lies between 1900-01-01 and 3000-12-31 (outside that range only the integer form
/// is refused).
pub proof fn lemma_yyyymmdd_text_agrees_with_integer(s: Seq<char>)
    requires
        s.len() == 8,
        forall|i: int| 0 <= i < 8 ==> #[trigger] is_digit(s[i]),
        19000101 <= eight_digit_value(s) <= 30001231,
    ensures
        yyyymmdd_text_date(s) == yyyymmdd_date(eight_digit_value(s)),
{
    assert(is_digit(s[0]) && is_digit(s[1]) && is_digit(s[2]) && is_digit(s[3]));
    assert(is_digit(s[4]) && is_digit(s[5]) && is_digit(s[6]) && is_digit(s[7]));
    let year = digit_value(s[0]) * 1000 + digit_value(s[1]) * 100 + digit_value(s[2]) * 10
        + digit_value(s[3]);
    let month = digit_value(s[4]) * 10 + digit_value(s[5]);
    let day = digit_value(s[6]) * 10 + digit_value(s[7]);
    let n = eight_digit_value(s);
    assert(0 <= month < 100 && 0 <= day < 100);
    assert(n == year * 10000 + (month * 100 + day));
    vstd::arithmetic::div_mod::lemma_fundamental_div_mod_converse(n, 10000, year, month * 100 + day);
    vstd::arithmetic::div_mod::lemma_fundamental_div_mod_converse(month * 100 + day, 100, month, day);
    assert(n == (year * 100 + month) * 100 + day);
    vstd::arithmetic::div_mod::lemma_fundamental_div_mod_converse(n, 100, year * 100 + month, day);
}

/// The value of an ASCII digit character.
fn digit(c: char) -> (r: u32)
    requires
        is_digit(c),
    ensures
        r == digit_value(c),
        r < 10,
{
    (c as u32) - ('0' as u32)
}

/// Parses eight ASCII digits `YYYYMMDD` as a date.
pub fn parse_yyyymmdd_text_as_naive_date(value: &str) -> (r: Option<CalendarDate>)
    ensures
        r == yyyymmdd_text_date(value@),
{
    let chars = crate::text::chars_of(value);
    if chars.len() != 8 {
        return None;
    }
    let mut i: usize = 0;
    while i < 8
        invariant
            chars.len() == 8,
            chars@ == value@,
            i <= 8,
            forall|k: int| 0 <= k < i ==> #[trigger] is_digit(chars@[k]),
        decreases 8 - i,
    {
        if !('0' <= chars[i] && chars[i] <= '9') {
            assert(!is_digit(value@[i as int]));
            return None;
        }
        i += 1;
    }
    let year = (digit(chars[0]) * 1000 + digit(chars[1]) * 100 + digit(chars[2]) * 10 + digit(
        chars[3],
    )) as i32;
    let month = digit(chars[4]) * 10 + digit(chars[5]);
    let day = digit(chars[6]) * 10 + digit(chars[7]);
    CalendarDate::from_ymd_opt(year, month, day)
}

/// The timestamp that a date and time are bound as; each field is cast to the width of the
/// ODBC structure.
pub open spec fn spec_timestamp_from_naive(value: CalendarDateTime) -> OdbcTimestamp {
    OdbcTimestamp {
        year: value.date.year as i16,
        month: value.date.month as u16,
        day: value.date.day as u16,
        hour: value.time.hour as u16,
        minute: value.time.minute as u16,
        second: value.time.second as u16,
        fraction: value.time.nano,
    }
}

/// Converts a date and time into an ODBC timestamp.
pub fn timestamp_from_naive(value: CalendarDateTime) -> (r: OdbcTimestamp)
    ensures
        r == spec_timestamp_from_naive(value),
{
    OdbcTimestamp {
        year: value.date.year as i16,
        month: value.date.month as u16,
        day: value.date.day as u16,
        hour: value.time.hour as u16,
        minute: value.time.minute as u16,
        second: value.time.second as u16,
        fraction: value.time.nano,
    }
}

/// Converts a date into an ODBC date.
pub fn date_from_naive(value: CalendarDate) -> (r: OdbcDate)
    ensures
        r == (OdbcDate {
            year: value.year as i16,
            month: value.month as u16,
            day: value.day as u16,
        }),
{
    OdbcDate { year: value.year as i16, month: value.month as u16, day: value.day as u16 }
}

/// Converts a time of day into an ODBC time; the fraction is dropped.
pub fn time_from_naive(value: ClockTime) -> (r: OdbcTime)
    ensures
        r == (OdbcTime {
            hour: value.hour as u16,
            minute: value.minute as u16,
            second: value.second as u16,
        }),
{
    OdbcTime { hour: value.hour as u16, minute: value.minute as u16, second: value.second as u16 }
}

/// Why an ODBC timestamp does not denote a date and time.
#[derive(Debug, Clone, Copy, PartialEq, Eq, Structural)]
pub enum TimestampError {
    /// The year, month and day name no day.
    InvalidDate,
    /// The hour, minute, second and fraction name no time of day.
    InvalidTime,
}

/// The date and time an ODBC timestamp denotes.
pub open spec fn spec_naive_from_timestamp(value: OdbcTimestamp) -> Result<
    CalendarDateTime,
    TimestampError,
> {
    if !valid_date(value.year as int, value.month as int, value.day as int) {
        Err(TimestampError::InvalidDate)
    } else if !valid_time(
        value.hour as int,
        value.minute as int,
        value.second as int,
        value.fraction as int,
    ) {
        Err(TimestampError::InvalidTime)
    } else {
        Ok(
            CalendarDateTime {
                date: CalendarDate {
                    year: value.year as i32,
                    month: value.month as u32,
                    day: value.day as u32,
                },
                time: ClockTime {
                    hour: value.hour as u32,
                    minute: value.minute as u32,
                    second: value.second as u32,
                    nano: value.fraction,
                },
            },
        )
    }
}

/// Converts an ODBC timestamp into a date and time.
pub fn naive_from_timestamp(value: OdbcTimestamp) -> (r: Result<CalendarDateTime, TimestampError>)
    ensures
        r == spec_naive_from_timestamp(value),
{
    let date = match CalendarDate::from_ymd_opt(
        value.year as i32,
        value.month as u32,
        value.day as u32,
    ) {
        Some(date) => date,
        None => return Err(TimestampError::InvalidDate),
    };
    let time = match ClockTime::from_hms_nano_opt(
        value.hour as u32,
        value.minute as u32,
        value.second as u32,
        value.fraction,
    ) {
        Some(time) => time,
        None => return Err(TimestampError::InvalidTime),
    };
    Ok(CalendarDateTime { date, time })
}

/// A date and time that exist are bound as a timestamp that reads back as the same date and
/// time, whenever the year fits the 16 bits of the ODBC structure.
pub proof fn lemma_timestamp_round_trip(value: CalendarDateTime)
    requires
        value.date.valid(),
        value.time.valid(),
        i16::MIN <= value.date.year <= i16::MAX,
    ensures
        spec_naive_from_timestamp(spec_timestamp_from_naive(value)) == Ok::<
            CalendarDateTime,
            TimestampError,
        >(value),
{
}

/// A timestamp that denotes a date and time is bound back as the very same timestamp.
pub proof fn lemma_timestamp_read_back(value: OdbcTimestamp)
    requires
        spec_naive_from_timestamp(value) is Ok,
    ensures
        spec_timestamp_from_naive(spec_naive_from_timestamp(value)->Ok_0) == value,
{
}

} // verus!
