use std::str::FromStr;

use bigdecimal::num_bigint::{BigInt, Sign};
use bigdecimal::BigDecimal;
use chrono::{DateTime, NaiveDate, Utc};

use sqlx_odbc::arguments::{encode_date, encode_timestamp};
use sqlx_odbc::datetime::{
    decode_datetime_fixed_offset, decode_datetime_utc, decode_naive_date, decode_naive_datetime,
    decode_naive_time, encode_rfc3339, DateDecodeError, DateTimeDecodeError, TimeDecodeError,
    ZonedDateTime,
};
use sqlx_odbc::decimal::{decode_decimal, encode_decimal, DecimalDecodeError, DecimalValue};
use sqlx_odbc::temporal::{CalendarDate, CalendarDateTime, ClockTime, OdbcDate, OdbcTime, OdbcTimestamp};
use sqlx_odbc::uuid_value::{decode_uuid, encode_uuid};
use sqlx_odbc::value::{BoolText, StringDecodeError};
use sqlx_odbc::{OdbcArgumentValue, OdbcDataType, OdbcTypeInfo, OdbcValue, OdbcValueKind, SqlxType};

fn as_bigdecimal(d: &DecimalValue) -> BigDecimal {
    let sign = if d.negative { Sign::Minus } else { Sign::Plus };
    BigDecimal::new(BigInt::from_slice(sign, &d.magnitude), d.scale)
}

fn ymd(year: i32, month: u32, day: u32) -> CalendarDate {
    CalendarDate { year, month, day }
}

#[test]
fn integer_values_convert_to_i64() {
    assert_eq!(OdbcValue::new(OdbcValueKind::TinyInt(1)).as_i64(), Some(1));
    assert_eq!(OdbcValue::new(OdbcValueKind::SmallInt(2)).as_i64(), Some(2));
    assert_eq!(OdbcValue::new(OdbcValueKind::Integer(3)).as_i64(), Some(3));
    assert_eq!(OdbcValue::new(OdbcValueKind::BigInt(4)).as_i64(), Some(4));
}

#[test]
fn text_and_bytes_borrow_from_value() {
    let text = OdbcValue::new(OdbcValueKind::Text("hello".to_owned()));
    assert_eq!(text.as_str(), Some("hello"));

    let bytes = OdbcValue::new(OdbcValueKind::Binary(vec![1, 2, 3]));
    assert_eq!(bytes.as_bytes(), Some(&[1, 2, 3][..]));
}

#[test]
fn null_reports_null() {
    assert!(OdbcValue::new(OdbcValueKind::Null).is_null());
}

#[test]
fn borrowed_values_decode_basic_scalars() {
    let int = OdbcValue::new(OdbcValueKind::BigInt(42));
    assert_eq!(int.as_ref().value().decode_i32().unwrap(), 42);

    let truthy = OdbcValue::new(OdbcValueKind::Text("true".to_owned()));
    assert_eq!(truthy.as_ref().as_bool(), Some(BoolText::Known(true)));

    let text = OdbcValue::new(OdbcValueKind::Text("hello".to_owned()));
    assert_eq!(text.as_ref().value().decode_string().unwrap(), "hello");

    let bytes = OdbcValue::new(OdbcValueKind::Binary(vec![1, 2, 3]));
    assert_eq!(bytes.as_ref().value().decode_bytes().unwrap(), vec![1, 2, 3]);
}

#[test]
fn integers_decode_only_when_they_fit() {
    let big = OdbcValue::new(OdbcValueKind::BigInt(300));
    assert_eq!(big.decode_i8(), None);
    assert_eq!(big.decode_u8(), None);
    assert_eq!(big.decode_i16(), Some(300));
    let negative = OdbcValue::new(OdbcValueKind::Integer(-1));
    assert_eq!(negative.decode_u64(), None);
    assert_eq!(negative.decode_i64(), Some(-1));
    assert_eq!(OdbcValue::new(OdbcValueKind::Text("1".to_owned())).decode_i32(), None);
}

#[test]
fn strings_decode_from_text_and_utf8_bytes() {
    let bytes = OdbcValue::new(OdbcValueKind::Binary("h\u{e9}".as_bytes().to_vec()));
    assert_eq!(bytes.decode_string(), Ok("h\u{e9}".to_owned()));
    let invalid = OdbcValue::new(OdbcValueKind::Binary(vec![0xff, 0xfe]));
    assert_eq!(invalid.decode_string(), Err(StringDecodeError::InvalidUtf8));
    assert_eq!(
        OdbcValue::new(OdbcValueKind::Integer(1)).decode_string(),
        Err(StringDecodeError::NotText)
    );
}

#[test]
fn booleans_read_from_words_numbers_and_bits() {
    let read = |kind: OdbcValueKind| OdbcValue::new(kind).as_bool();
    assert_eq!(read(OdbcValueKind::Text(" FALSE ".to_owned())), Some(BoolText::Known(false)));
    assert_eq!(read(OdbcValueKind::Text("1.0".to_owned())), Some(BoolText::Known(true)));
    assert_eq!(
        read(OdbcValueKind::Text(" 2.5 ".to_owned())),
        Some(BoolText::Numeric("2.5".to_owned()))
    );
    assert_eq!(read(OdbcValueKind::Integer(0)), Some(BoolText::Known(false)));
    assert_eq!(read(OdbcValueKind::Double((-0.0_f64).to_bits())), Some(BoolText::Known(false)));
    assert_eq!(read(OdbcValueKind::Real(0.5_f32.to_bits())), Some(BoolText::Known(true)));
    assert_eq!(read(OdbcValueKind::Bit(true)), Some(BoolText::Known(true)));
    assert_eq!(read(OdbcValueKind::Null), None);
}

#[test]
fn values_report_their_type() {
    assert_eq!(
        OdbcValue::new(OdbcValueKind::Integer(1)).type_info(),
        OdbcTypeInfo::new(OdbcDataType::Integer)
    );
    assert_eq!(OdbcValue::new(OdbcValueKind::Null).type_info(), OdbcTypeInfo::UNKNOWN());
}

#[test]
fn naive_date_type_compatibility_matches_old_odbc() {
    assert!(SqlxType::NaiveDate.compatible(&OdbcTypeInfo::DATE()));
    assert!(SqlxType::NaiveDate.compatible(&OdbcTypeInfo::varchar(None)));
    assert!(SqlxType::NaiveDate.compatible(&OdbcTypeInfo::INTEGER()));
}

#[test]
fn naive_date_decodes_old_text_and_numeric_forms() {
    for (value, float_as_integer) in [
        (OdbcValue::new(OdbcValueKind::Text("2020-01-02".to_owned())), 0),
        (OdbcValue::new(OdbcValueKind::Text("20200102".to_owned())), 0),
        (OdbcValue::new(OdbcValueKind::BigInt(20200102)), 0),
        (
            OdbcValue::new(OdbcValueKind::Double(20200102.0_f64.to_bits())),
            20200102.0_f64 as i64,
        ),
    ] {
        assert_eq!(decode_naive_date(&value, float_as_integer), Ok(ymd(2020, 1, 2)));
    }
}

#[test]
fn chrono_values_decode_raw_odbc_temporal_kinds() {
    let date = OdbcValue::new(OdbcValueKind::Date(OdbcDate { year: 2020, month: 1, day: 2 }));
    assert_eq!(decode_naive_date(&date, 0), Ok(ymd(2020, 1, 2)));

    let time = OdbcValue::new(OdbcValueKind::Time(OdbcTime { hour: 15, minute: 30, second: 45 }));
    assert_eq!(
        decode_naive_time(&time),
        Ok(ClockTime { hour: 15, minute: 30, second: 45, nano: 0 })
    );

    let timestamp = OdbcValue::new(OdbcValueKind::Timestamp(OdbcTimestamp {
        year: 2020,
        month: 1,
        day: 2,
        hour: 15,
        minute: 30,
        second: 45,
        fraction: 123_456_789,
    }));
    assert_eq!(
        decode_naive_datetime(&timestamp),
        Ok(CalendarDateTime {
            date: ymd(2020, 1, 2),
            time: ClockTime { hour: 15, minute: 30, second: 45, nano: 123_456_789 },
        })
    );
}

#[test]
fn chrono_values_decode_text_datetime_forms() {
    let value = OdbcValue::new(OdbcValueKind::Text("2020-01-02 15:30:45".to_owned()));
    let expected = CalendarDateTime {
        date: ymd(2020, 1, 2),
        time: ClockTime { hour: 15, minute: 30, second: 45, nano: 0 },
    };

    assert_eq!(decode_naive_datetime(&value), Ok(expected));
    assert_eq!(decode_datetime_utc(&value), Ok(expected));
}

#[test]
fn chrono_values_encode_to_old_odbc_argument_forms() {
    let date = ymd(2020, 1, 2);
    assert_eq!(
        encode_date(date),
        OdbcArgumentValue::Date(OdbcDate { year: 2020, month: 1, day: 2 })
    );

    let datetime = CalendarDateTime {
        date,
        time: ClockTime { hour: 15, minute: 30, second: 45, nano: 123_456_789 },
    };
    assert_eq!(
        encode_timestamp(datetime),
        OdbcArgumentValue::Timestamp(OdbcTimestamp {
            year: 2020,
            month: 1,
            day: 2,
            hour: 15,
            minute: 30,
            second: 45,
            fraction: 123_456_789
        })
    );

    let utc = DateTime::<Utc>::from_naive_utc_and_offset(
        NaiveDate::from_ymd_opt(2020, 1, 2)
            .unwrap()
            .and_hms_nano_opt(15, 30, 45, 123_456_789)
            .unwrap(),
        Utc,
    );
    assert_eq!(
        encode_rfc3339(ZonedDateTime { utc: datetime, offset_seconds: 0 }),
        OdbcArgumentValue::Text(utc.to_rfc3339())
    );
}

#[test]
fn chrono_type_info_names_match_old_odbc() {
    assert_eq!(SqlxType::NaiveDate.type_info().name(), "DATE");
    assert_eq!(SqlxType::NaiveTime.type_info().name(), "TIME");
    assert_eq!(SqlxType::NaiveDateTime.type_info().name(), "TIMESTAMP");
    assert_eq!(SqlxType::DateTimeFixedOffset.type_info().name(), "TIMESTAMP");
}

#[test]
fn dates_report_why_they_do_not_decode() {
    let bad_day = OdbcValue::new(OdbcValueKind::Date(OdbcDate { year: 2021, month: 2, day: 29 }));
    assert_eq!(decode_naive_date(&bad_day, 0), Err(DateDecodeError::InvalidDate));
    let small = OdbcValue::new(OdbcValueKind::Integer(1234));
    assert_eq!(decode_naive_date(&small, 0), Err(DateDecodeError::IntegerNotYyyymmdd(1234)));
    let float = OdbcValue::new(OdbcValueKind::Double(1.5_f64.to_bits()));
    assert_eq!(decode_naive_date(&float, 1), Err(DateDecodeError::FloatNotYyyymmdd));
    let text = OdbcValue::new(OdbcValueKind::Text("yesterday".to_owned()));
    assert_eq!(decode_naive_date(&text, 0), Err(DateDecodeError::CannotDecode));
    let padded = OdbcValue::new(OdbcValueKind::Text(" 20240229\0\0".to_owned()));
    assert_eq!(decode_naive_date(&padded, 0), Ok(ymd(2024, 2, 29)));
}

#[test]
fn times_and_datetimes_report_why_they_do_not_decode() {
    let bad_time = OdbcValue::new(OdbcValueKind::Time(OdbcTime { hour: 24, minute: 0, second: 0 }));
    assert_eq!(decode_naive_time(&bad_time), Err(TimeDecodeError::InvalidTime));
    let text = OdbcValue::new(OdbcValueKind::Text(" 07:08:09 ".to_owned()));
    assert_eq!(
        decode_naive_time(&text),
        Ok(ClockTime { hour: 7, minute: 8, second: 9, nano: 0 })
    );
    assert!(matches!(
        decode_naive_time(&OdbcValue::new(OdbcValueKind::Text("noon".to_owned()))),
        Err(TimeDecodeError::Unparsable { text, .. }) if text == "noon"
    ));
    assert_eq!(
        decode_naive_datetime(&OdbcValue::new(OdbcValueKind::Integer(1))),
        Err(DateTimeDecodeError::CannotDecode)
    );
    let bad_stamp = OdbcValue::new(OdbcValueKind::Timestamp(OdbcTimestamp {
        year: 2020,
        month: 13,
        day: 1,
        hour: 0,
        minute: 0,
        second: 0,
        fraction: 0,
    }));
    assert_eq!(decode_naive_datetime(&bad_stamp), Err(DateTimeDecodeError::InvalidDate));
}

#[test]
fn zoned_datetimes_keep_their_offset() {
    let text = OdbcValue::new(OdbcValueKind::Text("2020-01-02T15:30:45+02:00".to_owned()));
    let zoned = decode_datetime_fixed_offset(&text).unwrap();
    assert_eq!(zoned.offset_seconds, 7200);
    assert_eq!(
        zoned.utc,
        CalendarDateTime {
            date: ymd(2020, 1, 2),
            time: ClockTime { hour: 13, minute: 30, second: 45, nano: 0 },
        }
    );
    let naive = OdbcValue::new(OdbcValueKind::Text("2020-01-02 15:30:45.5".to_owned()));
    let read = decode_datetime_fixed_offset(&naive).unwrap();
    assert_eq!(read.offset_seconds, 0);
    assert_eq!(read.utc.time.nano, 500_000_000);
    assert_eq!(
        encode_rfc3339(zoned),
        OdbcArgumentValue::Text("2020-01-02T15:30:45+02:00".to_owned())
    );
}

#[test]
fn uuid_type_compatibility_matches_old_odbc() {
    assert!(SqlxType::Uuid.compatible(&OdbcTypeInfo::varchar(None)));
    assert!(SqlxType::Uuid.compatible(&OdbcTypeInfo::varbinary(None)));
    assert!(!SqlxType::Uuid.compatible(&OdbcTypeInfo::INTEGER()));
}

#[test]
fn uuid_decodes_text_and_binary_forms() {
    let uuid = uuid::Uuid::parse_str("550e8400-e29b-41d4-a716-446655440000").unwrap();

    for value in [
        OdbcValue::new(OdbcValueKind::Text(format!(" {uuid} "))),
        OdbcValue::new(OdbcValueKind::Binary(uuid.as_bytes().to_vec())),
        OdbcValue::new(OdbcValueKind::Binary(uuid.to_string().into_bytes())),
    ] {
        assert_eq!(decode_uuid(&value), Some(*uuid.as_bytes()));
    }
}

#[test]
fn uuid_encodes_as_text() {
    assert_eq!(
        encode_uuid([0; 16]),
        OdbcArgumentValue::Text("00000000-0000-0000-0000-000000000000".to_owned())
    );
}

#[test]
fn uuid_text_is_hyphenated_lower_case() {
    let bytes = [
        0xa1, 0xa2, 0xa3, 0xa4, 0xb1, 0xb2, 0xc1, 0xc2, 0xd1, 0xd2, 0xd3, 0xd4, 0xd5, 0xd6, 0xd7,
        0xd8,
    ];
    assert_eq!(
        encode_uuid(bytes),
        OdbcArgumentValue::Text("a1a2a3a4-b1b2-c1c2-d1d2-d3d4d5d6d7d8".to_owned())
    );
    let braced = OdbcValue::new(OdbcValueKind::Text("{A1A2A3A4-B1B2-C1C2-D1D2-D3D4D5D6D7D8}".to_owned()));
    assert_eq!(decode_uuid(&braced), Some(bytes));
    assert_eq!(decode_uuid(&OdbcValue::new(OdbcValueKind::Text("nope".to_owned()))), None);
    assert_eq!(decode_uuid(&OdbcValue::new(OdbcValueKind::Binary(vec![0xff; 3]))), None);
    assert_eq!(decode_uuid(&OdbcValue::new(OdbcValueKind::Integer(1))), None);
}

#[test]
fn bigdecimal_type_compatibility_matches_old_odbc() {
    assert!(SqlxType::BigDecimal.compatible(&OdbcTypeInfo::decimal(10, 2)));
    assert!(SqlxType::BigDecimal.compatible(&OdbcTypeInfo::numeric(15, 4)));
    assert!(SqlxType::BigDecimal.compatible(&OdbcTypeInfo::DOUBLE()));
    assert!(SqlxType::BigDecimal.compatible(&OdbcTypeInfo::new(OdbcDataType::Float { precision: 24 })));
    assert!(SqlxType::BigDecimal.compatible(&OdbcTypeInfo::varchar(None)));
    assert!(!SqlxType::BigDecimal.compatible(&OdbcTypeInfo::varbinary(None)));
}

#[test]
fn bigdecimal_decodes_old_odbc_forms() {
    for (value, expected) in [
        (OdbcValue::new(OdbcValueKind::Text("123.456789".to_owned())), "123.456789"),
        (OdbcValue::new(OdbcValueKind::Text("  987.654  ".to_owned())), "987.654"),
        (OdbcValue::new(OdbcValueKind::Binary(b"-123.456".to_vec())), "-123.456"),
        (OdbcValue::new(OdbcValueKind::BigInt(42)), "42"),
    ] {
        let decoded = decode_decimal(&value).unwrap();
        assert_eq!(as_bigdecimal(&decoded), BigDecimal::from_str(expected).unwrap());
    }
}

#[test]
fn bigdecimal_encodes_as_text() {
    let decimal = decode_decimal(&OdbcValue::new(OdbcValueKind::Text("123.456".to_owned()))).unwrap();
    assert_eq!(
        decimal,
        DecimalValue { negative: false, magnitude: vec![123456], scale: 3 }
    );
    assert_eq!(encode_decimal(&decimal), OdbcArgumentValue::Text("123.456".to_owned()));
}

#[test]
fn decimals_report_why_they_do_not_decode() {
    assert!(matches!(
        decode_decimal(&OdbcValue::new(OdbcValueKind::Text("abc".to_owned()))),
        Err(DecimalDecodeError::BadText(_))
    ));
    assert!(matches!(
        decode_decimal(&OdbcValue::new(OdbcValueKind::Binary(b"1.2.3".to_vec()))),
        Err(DecimalDecodeError::BadBytes(_))
    ));
    assert_eq!(
        decode_decimal(&OdbcValue::new(OdbcValueKind::Binary(vec![0xff]))),
        Err(DecimalDecodeError::InvalidUtf8)
    );
    assert_eq!(
        decode_decimal(&OdbcValue::new(OdbcValueKind::Double(1.5_f64.to_bits()))),
        Err(DecimalDecodeError::FloatValue)
    );
    assert_eq!(
        decode_decimal(&OdbcValue::new(OdbcValueKind::Null)),
        Err(DecimalDecodeError::CannotDecode)
    );
    assert_eq!(
        decode_decimal(&OdbcValue::new(OdbcValueKind::SmallInt(-7))).unwrap(),
        DecimalValue { negative: true, magnitude: vec![7], scale: 0 }
    );
}

#[test]
fn datetimes_fall_back_to_chrono_text_forms() {
    let iso = OdbcValue::new(OdbcValueKind::Text("2020-01-02T15:30:45".to_owned()));
    let expected = CalendarDateTime {
        date: ymd(2020, 1, 2),
        time: ClockTime { hour: 15, minute: 30, second: 45, nano: 0 },
    };
    assert_eq!(decode_naive_datetime(&iso), Ok(expected));
    let utc = OdbcValue::new(OdbcValueKind::Text("2020-01-02T17:30:45+02:00".to_owned()));
    assert_eq!(decode_datetime_utc(&utc), Ok(expected));
    assert!(matches!(
        decode_datetime_utc(&OdbcValue::new(OdbcValueKind::Text("later".to_owned()))),
        Err(DateTimeDecodeError::Unparsable { text, message: None }) if text == "later"
    ));
}
