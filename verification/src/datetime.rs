use vstd::prelude::*;
use chrono::{Datelike, Timelike};
use crate::temporal::{OdbcDate, CalendarDate, CalendarDateTime, ClockTime, TimestampError, valid_date,
    naive_from_timestamp, parse_yyyymmdd_as_naive_date, parse_yyyymmdd_text_as_naive_date,
    spec_naive_from_timestamp, yyyymmdd_date, yyyymmdd_text_date};
use crate::text::{chars_of, string_from_chars, trim, trim_bounds, trim_end_nul, trim_end_nul_bound};
use crate::value::{OdbcValue, OdbcValueKind, kind_as_i64};

verus! {

/// An instant with the offset from UTC it was written with, as a
/// `chrono::DateTime<FixedOffset>` holds it: the UTC date and time and the offset in seconds.
#[derive(Debug, Clone, Copy, PartialEq, Eq, Structural)]
pub struct ZonedDateTime {
    pub utc: CalendarDateTime,
    pub offset_seconds: i32,
}

/// The date `chrono` reads from a text (`NaiveDate::from_str`).
pub uninterp spec fn chrono_date_from_str(s: Seq<char>) -> Option<CalendarDate>;

/// The time of day `chrono` reads from a text, or the message of its error
/// (`NaiveTime::from_str`).
pub uninterp spec fn chrono_time_from_str(s: Seq<char>) -> Result<ClockTime, Seq<char>>;

/// The date and time `chrono` reads from a text in the given format
/// (`NaiveDateTime::parse_from_str`).
pub uninterp spec fn chrono_datetime_from_format(s: Seq<char>, format: Seq<char>) -> Option<CalendarDateTime>;

/// The date and time `chrono` reads from a text, or the message of its error
/// (`NaiveDateTime::from_str`).
pub uninterp spec fn chrono_datetime_from_str(s: Seq<char>) -> Result<CalendarDateTime, Seq<char>>;

/// The UTC date and time `chrono` reads from a text (`DateTime<Utc>::from_str`).
pub uninterp spec fn chrono_utc_from_str(s: Seq<char>) -> Option<CalendarDateTime>;

/// The instant and offset `chrono` reads from a text (`DateTime<FixedOffset>::from_str`).
pub uninterp spec fn chrono_zoned_from_str(s: Seq<char>) -> Option<ZonedDateTime>;

/// The RFC 3339 text `chrono` writes for an instant with an offset
/// (`DateTime::to_rfc3339`).
pub uninterp spec fn chrono_rfc3339(utc: CalendarDateTime, offset_seconds: int) -> Seq<char>;

/// Reads a date with `NaiveDate::from_str`; what it reads is a date that exists.
#[verifier::external_body]
fn parse_date_text(s: &str) -> (r: Option<CalendarDate>)
    ensures
        r == chrono_date_from_str(s@),
        r matches Some(d) ==> d.valid(),
{
    match s.parse::<chrono::NaiveDate>() {
        Ok(d) => Some(CalendarDate { year: d.year(), month: d.month(), day: d.day() }),
        Err(_) => None,
    }
}

/// Reads a time of day with `NaiveTime::from_str`; on failure, `chrono`'s error message.
#[verifier::external_body]
fn parse_time_text(s: &str) -> (r: Result<ClockTime, String>)
    ensures
        r is Ok <==> chrono_time_from_str(s@) is Ok,
        r matches Ok(t) ==> chrono_time_from_str(s@)->Ok_0 == t && t.valid(),
        r matches Err(m) ==> chrono_time_from_str(s@)->Err_0 == m@,
{
    match s.parse::<chrono::NaiveTime>() {
        Ok(t) => Ok(ClockTime { hour: t.hour(), minute: t.minute(), second: t.second(), nano: t.nanosecond() }),
        Err(e) => Err(e.to_string()),
    }
}

/// Reads a date and time in a format with `NaiveDateTime::parse_from_str`.
#[verifier::external_body]
fn parse_datetime_format(s: &str, format: &str) -> (r: Option<CalendarDateTime>)
    ensures
        r == chrono_datetime_from_format(s@, format@),
        r matches Some(d) ==> d.date.valid() && d.time.valid(),
{
    match chrono::NaiveDateTime::parse_from_str(s, format) {
        Ok(d) => Some(CalendarDateTime {
            date: CalendarDate { year: d.year(), month: d.month(), day: d.day() },
            time: ClockTime { hour: d.hour(), minute: d.minute(), second: d.second(), nano: d.nanosecond() },
        }),
        Err(_) => None,
    }
}

/// Reads a date and time with `NaiveDateTime::from_str`; on failure, `chrono`'s error message.
#[verifier::external_body]
fn parse_datetime_text(s: &str) -> (r: Result<CalendarDateTime, String>)
    ensures
        r is Ok <==> chrono_datetime_from_str(s@) is Ok,
        r matches Ok(d) ==> chrono_datetime_from_str(s@)->Ok_0 == d && d.date.valid() && d.time.valid(),
        r matches Err(m) ==> chrono_datetime_from_str(s@)->Err_0 == m@,
{
    match s.parse::<chrono::NaiveDateTime>() {
        Ok(d) => Ok(CalendarDateTime {
            date: CalendarDate { year: d.year(), month: d.month(), day: d.day() },
            time: ClockTime { hour: d.hour(), minute: d.minute(), second: d.second(), nano: d.nanosecond() },
        }),
        Err(e) => Err(e.to_string()),
    }
}

/// Reads a UTC instant with `DateTime<Utc>::from_str`.
#[verifier::external_body]
fn parse_utc_text(s: &str) -> (r: Option<CalendarDateTime>)
    ensures
        r == chrono_utc_from_str(s@),
        r matches Some(d) ==> d.date.valid() && d.time.valid(),
{
    match s.parse::<chrono::DateTime<chrono::Utc>>() {
        Ok(d) => Some(CalendarDateTime {
            date: CalendarDate { year: d.year(), month: d.month(), day: d.day() },
            time: ClockTime { hour: d.hour(), minute: d.minute(), second: d.second(), nano: d.nanosecond() },
        }),
        Err(_) => None,
    }
}

/// Reads an instant with its offset with `DateTime<FixedOffset>::from_str`.
#[verifier::external_body]
fn parse_zoned_text(s: &str) -> (r: Option<ZonedDateTime>)
    ensures
        r == chrono_zoned_from_str(s@),
        r matches Some(z) ==> z.utc.date.valid() && z.utc.time.valid() && -86400 < z.offset_seconds < 86400,
{
    match s.parse::<chrono::DateTime<chrono::FixedOffset>>() {
        Ok(z) => {
            let d = z.naive_utc();
            Some(ZonedDateTime {
                utc: CalendarDateTime {
                    date: CalendarDate { year: d.year(), month: d.month(), day: d.day() },
                    time: ClockTime { hour: d.hour(), minute: d.minute(), second: d.second(), nano: d.nanosecond() },
                },
                offset_seconds: z.offset().local_minus_utc(),
            })
        },
        Err(_) => None,
    }
}

/// Writes an instant with its offset as RFC 3339 text (`DateTime::to_rfc3339`).
#[verifier::external_body]
fn rfc3339_text(value: ZonedDateTime) -> (r: String)
    requires
        value.utc.date.valid(),
        value.utc.time.valid(),
        -86400 < value.offset_seconds < 86400,
    ensures
        r@ == chrono_rfc3339(value.utc, value.offset_seconds as int),
{
    let d = value.utc.date;
    let t = value.utc.time;
    let date = chrono::NaiveDate::from_ymd_opt(d.year, d.month, d.day).unwrap();
    let time = chrono::NaiveTime::from_hms_nano_opt(t.hour, t.minute, t.second, t.nano).unwrap();
    let offset = chrono::FixedOffset::east_opt(value.offset_seconds).unwrap();
    chrono::DateTime::<chrono::FixedOffset>::from_naive_utc_and_offset(date.and_time(time), offset).to_rfc3339()
}

/// A text value with trailing NUL characters and surrounding whitespace removed.
pub open spec fn cleaned_text(t: Seq<char>) -> Seq<char> {
    trim(trim_end_nul(t))
}

/// The text of a text value, with trailing NUL characters and surrounding whitespace removed.
pub fn trimmed_text(value: &OdbcValue) -> (r: Option<String>)
    ensures
        r is Some <==> value@ is Text,
        r matches Some(s) ==> s@ == cleaned_text(value@->Text_0@),
{
    let text = value.as_str()?;
    let chars = chars_of(text);
    let end = trim_end_nul_bound(&chars, chars.len());
    assert(chars@.subrange(0, chars.len() as int) =~= chars@);
    let without_nul = string_from_chars(&chars, 0, end);
    let rest = chars_of(without_nul.as_str());
    let (from, to) = trim_bounds(&rest);
    Some(string_from_chars(&rest, from, to))
}

/// Why a value does not decode into a date.
#[derive(Debug, Clone, PartialEq, Eq)]
pub enum DateDecodeError {
    /// A date value names no day.
    InvalidDate,
    /// An integer value is not a `YYYYMMDD` date.
    IntegerNotYyyymmdd(i64),
    /// A float value is not a `YYYYMMDD` date.
    FloatNotYyyymmdd,
    /// The value is of a kind that holds no date, or a text that reads as none.
    CannotDecode,
}

/// The date a value decodes into: a date value as it is; a text as eight digits `YYYYMMDD`,
/// else as `chrono` reads it; an integer or a float (through `float_as_integer`, the float
/// cast to `i64`) as `YYYYMMDD` between 1900 and 3000.
pub open spec fn spec_decode_date(k: OdbcValueKind, float_as_integer: i64) -> Result<CalendarDate, DateDecodeError> {
    match k {
        OdbcValueKind::Date(d) => if valid_date(d.year as int, d.month as int, d.day as int) {
            Ok(CalendarDate { year: d.year as i32, month: d.month as u32, day: d.day as u32 })
        } else {
            Err(DateDecodeError::InvalidDate)
        },
        OdbcValueKind::Text(t) => match yyyymmdd_text_date(cleaned_text(t@)) {
            Some(d) => Ok(d),
            None => match chrono_date_from_str(cleaned_text(t@)) {
                Some(d) => Ok(d),
                None => Err(DateDecodeError::CannotDecode),
            },
        },
        OdbcValueKind::Real(_) | OdbcValueKind::Double(_) => match yyyymmdd_date(float_as_integer as int) {
            Some(d) => Ok(d),
            None => Err(DateDecodeError::FloatNotYyyymmdd),
        },
        _ => match kind_as_i64(k) {
            Some(i) => match yyyymmdd_date(i as int) {
                Some(d) => Ok(d),
                None => Err(DateDecodeError::IntegerNotYyyymmdd(i)),
            },
            None => Err(DateDecodeError::CannotDecode),
        },
    }
}

/// Decodes a value into a date (`chrono::NaiveDate`); `float_as_integer` is the value of a
/// float value cast to `i64`, and is not read for other kinds.
pub fn decode_naive_date(value: &OdbcValue, float_as_integer: i64) -> (r: Result<CalendarDate, DateDecodeError>)
    ensures
        r == spec_decode_date(value@, float_as_integer),
{
    match value.kind() {
        OdbcValueKind::Date(d) => {
            return match CalendarDate::from_ymd_opt(d.year as i32, d.month as u32, d.day as u32) {
                Some(date) => Ok(date),
                None => Err(DateDecodeError::InvalidDate),
            };
        },
        OdbcValueKind::Real(_) | OdbcValueKind::Double(_) => {
            return match parse_yyyymmdd_as_naive_date(float_as_integer) {
                Some(date) => Ok(date),
                None => Err(DateDecodeError::FloatNotYyyymmdd),
            };
        },
        _ => {},
    }
    if let Some(text) = trimmed_text(value) {
        if let Some(date) = parse_yyyymmdd_text_as_naive_date(text.as_str()) {
            return Ok(date);
        }
        if let Some(date) = parse_date_text(text.as_str()) {
            return Ok(date);
        }
    }
    if let Some(integer) = value.as_i64() {
        return match parse_yyyymmdd_as_naive_date(integer) {
            Some(date) => Ok(date),
            None => Err(DateDecodeError::IntegerNotYyyymmdd(integer)),
        };
    }
    Err(DateDecodeError::CannotDecode)
}

/// A date that exists, bound as an ODBC date, decodes back to the same date whenever its
/// year fits the 16 bits of the ODBC structure.
pub proof fn lemma_date_round_trip(date: CalendarDate, float_as_integer: i64)
    requires
        date.valid(),
        i16::MIN <= date.year <= i16::MAX,
    ensures
        spec_decode_date(
            OdbcValueKind::Date(OdbcDate { year: date.year as i16, month: date.month as u16, day: date.day as u16 }),
            float_as_integer,
        ) == Ok::<CalendarDate, DateDecodeError>(date),
{
}

/// Why a value does not decode into a time of day.
#[derive(Debug, Clone, PartialEq, Eq)]
pub enum TimeDecodeError {
    /// A time value names no time of day.
    InvalidTime,
    /// A text that `chrono` does not read as a time: the trimmed text and `chrono`'s message.
    Unparsable { text: String, message: String },
    /// The value is neither a time nor a text.
    CannotDecode,
}

/// Decodes a value into a time of day (`chrono::NaiveTime`): a time value as it is (without
/// fraction), a text as `chrono` reads it.
pub fn decode_naive_time(value: &OdbcValue) -> (r: Result<ClockTime, TimeDecodeError>)
    ensures
        value@ matches OdbcValueKind::Time(t) ==> (if ClockTime::from_hms_spec(t.hour as u32, t.minute as u32, t.second as u32) is Some {
            r == Ok::<ClockTime, TimeDecodeError>(ClockTime { hour: t.hour as u32, minute: t.minute as u32, second: t.second as u32, nano: 0 })
        } else {
            r == Err::<ClockTime, TimeDecodeError>(TimeDecodeError::InvalidTime)
        }),
        value@ matches OdbcValueKind::Text(t) ==> (match chrono_time_from_str(cleaned_text(t@)) {
            Ok(time) => r == Ok::<ClockTime, TimeDecodeError>(time),
            Err(m) => (r matches Err(TimeDecodeError::Unparsable { text, message }) && text@ == cleaned_text(t@)
                && message@ == m),
        }),
        !(value@ is Time || value@ is Text) ==> r == Err::<ClockTime, TimeDecodeError>(TimeDecodeError::CannotDecode),
{
    if let OdbcValueKind::Time(t) = value.kind() {
        return match ClockTime::from_hms_opt(t.hour as u32, t.minute as u32, t.second as u32) {
            Some(time) => Ok(time),
            None => Err(TimeDecodeError::InvalidTime),
        };
    }
    let text = match trimmed_text(value) {
        Some(text) => text,
        None => return Err(TimeDecodeError::CannotDecode),
    };
    match parse_time_text(text.as_str()) {
        Ok(time) => Ok(time),
        Err(message) => Err(TimeDecodeError::Unparsable { text, message }),
    }
}

/// A time of day that exists, bound as an ODBC time, decodes back to the same time without
/// its fraction of a second, for every second short of a leap second.
pub proof fn lemma_time_round_trip(time: ClockTime)
    requires
        time.valid(),
    ensures
        ClockTime::from_hms_spec(
            (time.hour as u16) as u32,
            (time.minute as u16) as u32,
            (time.second as u16) as u32,
        ) == Some(ClockTime { hour: time.hour, minute: time.minute, second: time.second, nano: 0 }),
{
}

/// Why a value does not decode into a date and time.
#[derive(Debug, Clone, PartialEq, Eq)]
pub enum DateTimeDecodeError {
    /// A timestamp value names no day.
    InvalidDate,
    /// A timestamp value names no time of day.
    InvalidTime,
    /// A text that `chrono` does not read as a date and time: the trimmed text and, where
    /// `chrono` gave one, its message.
    Unparsable { text: String, message: Option<String> },
    /// The value is neither a timestamp nor a text.
    CannotDecode,
}

/// The date and time a text reads as: in the format `%Y-%m-%d %H:%M:%S%.f`, else
/// `%Y-%m-%d %H:%M:%S`, else as `chrono` reads a date and time.
pub open spec fn spec_datetime_from_text(t: Seq<char>) -> Option<CalendarDateTime> {
    match chrono_datetime_from_format(t, "%Y-%m-%d %H:%M:%S%.f"@) {
        Some(d) => Some(d),
        None => match chrono_datetime_from_format(t, "%Y-%m-%d %H:%M:%S"@) {
            Some(d) => Some(d),
            None => match chrono_datetime_from_str(t) {
                Ok(d) => Some(d),
                Err(_) => None,
            },
        },
    }
}

/// The date and time a timestamp value denotes, with its failure.
pub open spec fn spec_datetime_from_timestamp(k: OdbcValueKind) -> Result<CalendarDateTime, DateTimeDecodeError> {
    match spec_naive_from_timestamp(k->Timestamp_0) {
        Ok(d) => Ok(d),
        Err(TimestampError::InvalidDate) => Err(DateTimeDecodeError::InvalidDate),
        Err(TimestampError::InvalidTime) => Err(DateTimeDecodeError::InvalidTime),
    }
}

/// Decodes a value into a date and time (`chrono::NaiveDateTime`).
pub fn decode_naive_datetime(value: &OdbcValue) -> (r: Result<CalendarDateTime, DateTimeDecodeError>)
    ensures
        value@ is Timestamp ==> r == spec_datetime_from_timestamp(value@),
        value@ matches OdbcValueKind::Text(t) ==> (match spec_datetime_from_text(cleaned_text(t@)) {
            Some(d) => r == Ok::<CalendarDateTime, DateTimeDecodeError>(d),
            None => (r matches Err(DateTimeDecodeError::Unparsable { text, message }) && text@ == cleaned_text(t@)
                && message is Some && chrono_datetime_from_str(cleaned_text(t@))->Err_0 == message->Some_0@),
        }),
        !(value@ is Timestamp || value@ is Text) ==> r == Err::<CalendarDateTime, DateTimeDecodeError>(DateTimeDecodeError::CannotDecode),
{
    if let OdbcValueKind::Timestamp(ts) = value.kind() {
        return match naive_from_timestamp(*ts) {
            Ok(d) => Ok(d),
            Err(TimestampError::InvalidDate) => Err(DateTimeDecodeError::InvalidDate),
            Err(TimestampError::InvalidTime) => Err(DateTimeDecodeError::InvalidTime),
        };
    }
    let text = match trimmed_text(value) {
        Some(text) => text,
        None => return Err(DateTimeDecodeError::CannotDecode),
    };
    if let Some(d) = parse_datetime_format(text.as_str(), "%Y-%m-%d %H:%M:%S%.f") {
        return Ok(d);
    }
    if let Some(d) = parse_datetime_format(text.as_str(), "%Y-%m-%d %H:%M:%S") {
        return Ok(d);
    }
    match parse_datetime_text(text.as_str()) {
        Ok(d) => Ok(d),
        Err(message) => Err(DateTimeDecodeError::Unparsable { text, message: Some(message) }),
    }
}

/// Decodes a value into a UTC instant (`chrono::DateTime<Utc>`): a timestamp value as a UTC
/// date and time; a text as `chrono` reads a UTC instant, else as a date and time taken as UTC.
pub fn decode_datetime_utc(value: &OdbcValue) -> (r: Result<CalendarDateTime, DateTimeDecodeError>)
    ensures
        value@ is Timestamp ==> r == spec_datetime_from_timestamp(value@),
        value@ matches OdbcValueKind::Text(t) ==> (match chrono_utc_from_str(cleaned_text(t@)) {
            Some(d) => r == Ok::<CalendarDateTime, DateTimeDecodeError>(d),
            None => match spec_datetime_from_text(cleaned_text(t@)) {
                Some(d) => r == Ok::<CalendarDateTime, DateTimeDecodeError>(d),
                None => (r matches Err(DateTimeDecodeError::Unparsable { text, message }) && text@ == cleaned_text(t@) && message is None),
            },
        }),
        !(value@ is Timestamp || value@ is Text) ==> r == Err::<CalendarDateTime, DateTimeDecodeError>(DateTimeDecodeError::CannotDecode),
{
    if let OdbcValueKind::Timestamp(_) = value.kind() {
        return decode_naive_datetime(value);
    }
    let text = match trimmed_text(value) {
        Some(text) => text,
        None => return Err(DateTimeDecodeError::CannotDecode),
    };
    if let Some(d) = parse_utc_text(text.as_str()) {
        return Ok(d);
    }
    match decode_naive_datetime(value) {
        Ok(d) => Ok(d),
        Err(_) => Err(DateTimeDecodeError::Unparsable { text, message: None }),
    }
}

/// Decodes a value into an instant with an offset (`chrono::DateTime<FixedOffset>`): a
/// timestamp value as a UTC date and time with offset zero; a text as `chrono` reads an
/// instant with an offset, else as a date and time taken as UTC with offset zero.
pub fn decode_datetime_fixed_offset(value: &OdbcValue) -> (r: Result<ZonedDateTime, DateTimeDecodeError>)
    ensures
        value@ is Timestamp ==> (match spec_datetime_from_timestamp(value@) {
            Ok(d) => r == Ok::<ZonedDateTime, DateTimeDecodeError>(ZonedDateTime { utc: d, offset_seconds: 0 }),
            Err(e) => r == Err::<ZonedDateTime, DateTimeDecodeError>(e),
        }),
        value@ matches OdbcValueKind::Text(t) ==> (match chrono_zoned_from_str(cleaned_text(t@)) {
            Some(z) => r == Ok::<ZonedDateTime, DateTimeDecodeError>(z),
            None => match spec_datetime_from_text(cleaned_text(t@)) {
                Some(d) => r == Ok::<ZonedDateTime, DateTimeDecodeError>(ZonedDateTime { utc: d, offset_seconds: 0 }),
                None => (r matches Err(DateTimeDecodeError::Unparsable { text, message }) && text@ == cleaned_text(t@) && message is None),
            },
        }),
        !(value@ is Timestamp || value@ is Text) ==> r == Err::<ZonedDateTime, DateTimeDecodeError>(DateTimeDecodeError::CannotDecode),
{
    if let OdbcValueKind::Timestamp(_) = value.kind() {
        return match decode_naive_datetime(value) {
            Ok(d) => Ok(ZonedDateTime { utc: d, offset_seconds: 0 }),
            Err(e) => Err(e),
        };
    }
    let text = match trimmed_text(value) {
        Some(text) => text,
        None => return Err(DateTimeDecodeError::CannotDecode),
    };
    if let Some(z) = parse_zoned_text(text.as_str()) {
        return Ok(z);
    }
    match decode_naive_datetime(value) {
        Ok(d) => Ok(ZonedDateTime { utc: d, offset_seconds: 0 }),
        Err(_) => Err(DateTimeDecodeError::Unparsable { text, message: None }),
    }
}

/// How an instant with an offset is bound: as its RFC 3339 text.
pub fn encode_rfc3339(value: ZonedDateTime) -> (r: crate::arguments::OdbcArgumentValue)
    requires
        value.utc.date.valid(),
        value.utc.time.valid(),
        -86400 < value.offset_seconds < 86400,
    ensures
        r matches crate::arguments::OdbcArgumentValue::Text(t) && t@ == chrono_rfc3339(value.utc, value.offset_seconds as int),
{
    crate::arguments::OdbcArgumentValue::Text(rfc3339_text(value))
}

} // verus!
