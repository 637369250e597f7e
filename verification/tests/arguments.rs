use sqlx_odbc::any::{any_kind_of, any_type_to_odbc, map_argument, map_arguments, AnyArgument, AnyKind};
use sqlx_odbc::arguments::{
    encode_bool, encode_bytes, encode_date, encode_f64_bits, encode_i64, encode_null, encode_str,
    encode_time, encode_timestamp, encode_u64, null_parameter, parameter_plan, parameter_plans,
    NullParameter, ParameterPlan,
};
use sqlx_odbc::temporal::{CalendarDate, CalendarDateTime, ClockTime, OdbcDate, OdbcTime, OdbcTimestamp};
use sqlx_odbc::{OdbcArgumentValue, OdbcArguments, OdbcDataType, OdbcTypeInfo, SqlxType};

#[test]
fn argument_buffer_tracks_values_in_order() {
    let mut arguments = OdbcArguments::default();

    arguments.add_value(OdbcArgumentValue::Int(7));
    arguments.add_value(OdbcArgumentValue::Text("abc".to_owned()));
    arguments.add_value(OdbcArgumentValue::Null(OdbcTypeInfo::new(OdbcDataType::Integer)));

    assert_eq!(arguments.len(), 3);
    assert_eq!(
        arguments.values(),
        &[
            OdbcArgumentValue::Int(7),
            OdbcArgumentValue::Text("abc".to_owned()),
            OdbcArgumentValue::Null(OdbcTypeInfo::new(OdbcDataType::Integer))
        ]
    );
}

#[test]
fn sqlx_arguments_add_encodes_basic_scalars() {
    let mut arguments = OdbcArguments::default();

    arguments.add_value(encode_i64(7_i32 as i64));
    arguments.add_value(encode_str("abc"));
    arguments.add_value(encode_bytes(&[1_u8, 2, 3]));

    assert_eq!(
        arguments.values(),
        &[
            OdbcArgumentValue::Int(7),
            OdbcArgumentValue::Text("abc".to_owned()),
            OdbcArgumentValue::Bytes(vec![1, 2, 3])
        ]
    );
}

#[test]
fn sqlx_arguments_add_encodes_typed_null_option() {
    let mut arguments = OdbcArguments::default();

    arguments.add_value(encode_null(SqlxType::I32));

    assert_eq!(
        arguments.values(),
        &[OdbcArgumentValue::Null(OdbcTypeInfo::new(OdbcDataType::Integer))]
    );

    let plans = parameter_plans(&arguments);
    assert_eq!(plans[0], ParameterPlan::Null(NullParameter::I32));
}

#[test]
fn sqlx_arguments_reserve_and_len_work() {
    let mut arguments = OdbcArguments::default();

    arguments.reserve(2);
    arguments.add_value(encode_bool(true));
    arguments.add_value(encode_f64_bits(1.5_f64.to_bits()));

    assert_eq!(arguments.len(), 2);
    assert_eq!(
        arguments.values(),
        &[OdbcArgumentValue::Bit(true), OdbcArgumentValue::Float(1.5_f64.to_bits())]
    );
}

#[test]
fn parameter_collection_converts_basic_values_to_odbc_parameters() {
    let mut arguments = OdbcArguments::new();
    for value in [
        OdbcArgumentValue::Text("abc".to_owned()),
        OdbcArgumentValue::Bytes(vec![1, 2, 3]),
        OdbcArgumentValue::Int(7),
        OdbcArgumentValue::UInt(8),
        OdbcArgumentValue::Bit(true),
        OdbcArgumentValue::Float(1.5_f64.to_bits()),
    ] {
        arguments.add_value(value);
    }

    let plans = parameter_plans(&arguments);

    assert_eq!(plans.len(), arguments.len());
    assert_eq!(plans[0], ParameterPlan::Text);
    assert_eq!(plans[1], ParameterPlan::Bytes);
    assert_eq!(plans[2], ParameterPlan::Int);
    assert_eq!(plans[3], ParameterPlan::UIntAsBigInt);
    assert_eq!(plans[4], ParameterPlan::Bit);
    assert_eq!(plans[5], ParameterPlan::Float);
}

#[test]
fn parameter_collection_converts_temporal_values_to_typed_odbc_parameters() {
    let values = [
        OdbcArgumentValue::Date(OdbcDate { year: 2026, month: 5, day: 29 }),
        OdbcArgumentValue::Time(OdbcTime { hour: 12, minute: 30, second: 45 }),
        OdbcArgumentValue::Timestamp(OdbcTimestamp {
            year: 2026,
            month: 5,
            day: 29,
            hour: 12,
            minute: 30,
            second: 45,
            fraction: 123_456_789,
        }),
    ];

    assert_eq!(parameter_plan(&values[0]), ParameterPlan::Date);
    assert_eq!(parameter_plan(&values[1]), ParameterPlan::TimeWithPrecision(0));
    assert_eq!(parameter_plan(&values[2]), ParameterPlan::TimestampWithPrecision(9));
}

#[test]
fn parameter_collection_converts_typed_nulls_to_requested_data_types() {
    let values = [
        OdbcArgumentValue::Null(OdbcTypeInfo::new(OdbcDataType::Integer)),
        OdbcArgumentValue::Null(OdbcTypeInfo::new(OdbcDataType::WVarchar { length: None })),
        OdbcArgumentValue::Null(OdbcTypeInfo::new(OdbcDataType::Decimal { precision: 10, scale: 2 })),
    ];

    assert_eq!(parameter_plan(&values[0]), ParameterPlan::Null(NullParameter::I32));
    assert_eq!(
        parameter_plan(&values[1]),
        ParameterPlan::Null(NullParameter::WideTextAs(OdbcDataType::WVarchar { length: None }))
    );
    assert_eq!(
        parameter_plan(&values[2]),
        ParameterPlan::Null(NullParameter::TextAs(OdbcDataType::Decimal { precision: 10, scale: 2 }))
    );
}

#[test]
fn fixed_sized_parameter_uses_explicit_non_null_indicator() {
    let mut arguments = OdbcArguments::default();

    arguments.add_value(encode_i64(5));

    let plans = parameter_plans(&arguments);
    assert_eq!(plans.len(), 1);
    assert_eq!(plans[0], ParameterPlan::Int);
}

#[test]
fn null_parameters_use_the_buffer_of_their_type() {
    assert_eq!(null_parameter(OdbcDataType::TinyInt), NullParameter::I8);
    assert_eq!(null_parameter(OdbcDataType::Real), NullParameter::F32);
    assert_eq!(
        null_parameter(OdbcDataType::Float { precision: 24 }),
        NullParameter::F64As(OdbcDataType::Float { precision: 24 })
    );
    assert_eq!(
        null_parameter(OdbcDataType::Binary { length: None }),
        NullParameter::BinaryAs(OdbcDataType::Binary { length: None })
    );
    assert_eq!(
        null_parameter(OdbcDataType::Unknown),
        NullParameter::TextAs(OdbcDataType::Unknown)
    );
}

#[test]
fn unsigned_integers_bind_signed_while_they_fit() {
    assert_eq!(encode_u64(42), OdbcArgumentValue::Int(42));
    assert_eq!(encode_u64(i64::MAX as u64), OdbcArgumentValue::Int(i64::MAX));
    assert_eq!(encode_u64(u64::MAX), OdbcArgumentValue::UInt(u64::MAX));
}

#[test]
fn temporal_values_bind_as_odbc_structures() {
    let date = CalendarDate { year: 2020, month: 1, day: 2 };
    let time = ClockTime { hour: 15, minute: 30, second: 45, nano: 123_456_789 };
    assert_eq!(
        encode_date(date),
        OdbcArgumentValue::Date(OdbcDate { year: 2020, month: 1, day: 2 })
    );
    assert_eq!(
        encode_time(time),
        OdbcArgumentValue::Time(OdbcTime { hour: 15, minute: 30, second: 45 })
    );
    assert_eq!(
        encode_timestamp(CalendarDateTime { date, time }),
        OdbcArgumentValue::Timestamp(OdbcTimestamp {
            year: 2020,
            month: 1,
            day: 2,
            hour: 15,
            minute: 30,
            second: 45,
            fraction: 123_456_789,
        })
    );
}

#[test]
fn maps_stable_odbc_types_to_any_types() {
    assert_eq!(any_kind_of(&OdbcTypeInfo::new(OdbcDataType::Bit)), Some(AnyKind::Bool));
    assert_eq!(any_kind_of(&OdbcTypeInfo::new(OdbcDataType::Integer)), Some(AnyKind::Integer));
    assert_eq!(
        any_kind_of(&OdbcTypeInfo::new(OdbcDataType::WVarchar { length: None })),
        Some(AnyKind::Text)
    );
    assert_eq!(
        any_kind_of(&OdbcTypeInfo::new(OdbcDataType::Varbinary { length: None })),
        Some(AnyKind::Blob)
    );
}

#[test]
fn rejects_unstable_odbc_types_for_any_mapping() {
    assert_eq!(any_kind_of(&OdbcTypeInfo::new(OdbcDataType::Timestamp { precision: 6 })), None);
}

#[test]
fn any_kinds_round_trip_through_odbc_types() {
    for kind in [
        AnyKind::Bool,
        AnyKind::SmallInt,
        AnyKind::Integer,
        AnyKind::BigInt,
        AnyKind::Real,
        AnyKind::Double,
        AnyKind::Text,
        AnyKind::Blob,
    ] {
        assert_eq!(any_kind_of(&any_type_to_odbc(kind)), Some(kind));
    }
}

#[test]
fn any_arguments_become_odbc_arguments() {
    assert_eq!(map_argument(AnyArgument::SmallInt(3)), OdbcArgumentValue::Int(3));
    assert_eq!(
        map_argument(AnyArgument::Text("t".to_owned())),
        OdbcArgumentValue::Text("t".to_owned())
    );
    assert_eq!(
        map_argument(AnyArgument::Null(AnyKind::BigInt)),
        OdbcArgumentValue::Null(OdbcTypeInfo::new(OdbcDataType::BigInt))
    );
    let arguments = map_arguments(vec![AnyArgument::Bool(false), AnyArgument::Blob(vec![9])]);
    assert_eq!(
        arguments.values(),
        &[OdbcArgumentValue::Bit(false), OdbcArgumentValue::Bytes(vec![9])]
    );
}
