use sqlx_odbc::column::OdbcColumn;
use sqlx_odbc::connection::{
    column_name_or_default, column_number, fetch_type, map_buffer_desc, on_column_description_failure,
    ping_query_for_dbms_name, query_result_from_row_count, raw_type_of_buffer, result_column_count,
    rows_from_columns, sql_preview, buffered_column_values, value_kind_of_raw, BufferDesc,
    DeferredMetadata, RawType, RawValue,
};
use sqlx_odbc::connection::{fetch_items, fetch_plan, first_row, Execution, FetchItem, FetchPlan};
use sqlx_odbc::{DriverError, OdbcBufferSettings, OdbcDataType, OdbcQueryResult, OdbcTypeInfo, OdbcValueKind};

#[test]
fn buffered_fetch_maps_numeric_types_to_nullable_64_bit_buffers() {
    assert!(matches!(
        map_buffer_desc(OdbcDataType::TinyInt, 64),
        BufferDesc::I64 { nullable: true }
    ));
    assert!(matches!(
        map_buffer_desc(OdbcDataType::Integer, 64),
        BufferDesc::I64 { nullable: true }
    ));
    assert!(matches!(
        map_buffer_desc(OdbcDataType::BigInt, 64),
        BufferDesc::I64 { nullable: true }
    ));
}

#[test]
fn buffered_fetch_uses_configured_limits_for_variable_sized_data() {
    assert_eq!(
        map_buffer_desc(OdbcDataType::Varchar { length: None }, 32),
        BufferDesc::Text { max_str_len: 32 }
    );
    assert_eq!(
        map_buffer_desc(OdbcDataType::Varbinary { length: None }, 16),
        BufferDesc::Binary { max_bytes: 16 }
    );
}

#[test]
fn ping_query_uses_db2_dummy_table_for_db2_drivers() {
    assert_eq!("SELECT 1 FROM SYSIBM.SYSDUMMY1", ping_query_for_dbms_name("DB2"));
    assert_eq!(
        "SELECT 1 FROM SYSIBM.SYSDUMMY1",
        ping_query_for_dbms_name("DB2 UDB for AS/400")
    );
    assert_eq!(
        "SELECT 1 FROM SYSIBM.SYSDUMMY1",
        ping_query_for_dbms_name("IBM DB2 for i")
    );
    assert_eq!("SELECT 1 FROM SYSIBM.SYSDUMMY1", ping_query_for_dbms_name("iSeries"));
    assert_eq!("SELECT 1 FROM SYSIBM.SYSDUMMY1", ping_query_for_dbms_name("IBM i"));
}

#[test]
fn ping_query_keeps_select_one_for_non_db2_drivers() {
    assert_eq!("SELECT 1", ping_query_for_dbms_name("DuckDB"));
    assert_eq!("SELECT 1", ping_query_for_dbms_name("Microsoft SQL Server"));
    assert_eq!("SELECT 1", ping_query_for_dbms_name("PostgreSQL"));
}

#[test]
fn ping_query_matches_db2_names_in_any_case() {
    assert_eq!("SELECT 1 FROM SYSIBM.SYSDUMMY1", ping_query_for_dbms_name("db/2"));
    assert_eq!("SELECT 1 FROM SYSIBM.SYSDUMMY1", ping_query_for_dbms_name("os/400 as/400"));
    assert_eq!("SELECT 1", ping_query_for_dbms_name(""));
}

#[test]
fn buffer_descriptions_cover_every_fixed_layout() {
    assert_eq!(map_buffer_desc(OdbcDataType::Real, 8), BufferDesc::F32 { nullable: true });
    assert_eq!(map_buffer_desc(OdbcDataType::Double, 8), BufferDesc::F64 { nullable: true });
    assert_eq!(
        map_buffer_desc(OdbcDataType::Float { precision: 53 }, 8),
        BufferDesc::F64 { nullable: true }
    );
    assert_eq!(map_buffer_desc(OdbcDataType::Bit, 8), BufferDesc::Bit { nullable: true });
    assert_eq!(map_buffer_desc(OdbcDataType::Date, 8), BufferDesc::Date { nullable: true });
    assert_eq!(
        map_buffer_desc(OdbcDataType::Time { precision: 0 }, 8),
        BufferDesc::Time { nullable: true }
    );
    assert_eq!(
        map_buffer_desc(OdbcDataType::Timestamp { precision: 3 }, 8),
        BufferDesc::Timestamp { nullable: true }
    );
    assert_eq!(
        map_buffer_desc(OdbcDataType::Decimal { precision: 10, scale: 2 }, 8),
        BufferDesc::Text { max_str_len: 8 }
    );
    assert_eq!(
        map_buffer_desc(OdbcDataType::LongVarbinary { length: None }, 8),
        BufferDesc::Binary { max_bytes: 8 }
    );
}

#[test]
fn numeric_buffers_are_refused() {
    assert_eq!(
        raw_type_of_buffer(BufferDesc::Numeric),
        Err(DriverError::Protocol(
            "unsupported ODBC buffer descriptor: Numeric".to_owned()
        ))
    );
    assert_eq!(raw_type_of_buffer(BufferDesc::I64 { nullable: true }), Ok(RawType::I64));
    assert_eq!(raw_type_of_buffer(BufferDesc::Text { max_str_len: 4 }), Ok(RawType::Text));
}

#[test]
fn unbuffered_fetch_reads_each_type_natively() {
    assert_eq!(fetch_type(OdbcDataType::Bit), RawType::Bit);
    assert_eq!(fetch_type(OdbcDataType::TinyInt), RawType::I8);
    assert_eq!(fetch_type(OdbcDataType::Integer), RawType::I32);
    assert_eq!(fetch_type(OdbcDataType::Double), RawType::F64);
    assert_eq!(fetch_type(OdbcDataType::Date), RawType::Date);
}

#[test]
fn raw_values_become_value_kinds() {
    assert_eq!(value_kind_of_raw(RawValue::I32(Some(5))), OdbcValueKind::Integer(5));
    assert_eq!(value_kind_of_raw(RawValue::I32(None)), OdbcValueKind::Null);
    assert_eq!(value_kind_of_raw(RawValue::U8(Some(200))), OdbcValueKind::BigInt(200));
    assert_eq!(
        value_kind_of_raw(RawValue::Text(Some(b"abc".to_vec()))),
        OdbcValueKind::Text("abc".to_owned())
    );
    let units: Vec<u16> = "h\u{e9}".encode_utf16().collect();
    assert_eq!(
        value_kind_of_raw(RawValue::WText(Some(units))),
        OdbcValueKind::Text("h\u{e9}".to_owned())
    );
    assert_eq!(
        value_kind_of_raw(RawValue::Text(Some(vec![0x61, 0xff]))),
        OdbcValueKind::Text("a\u{fffd}".to_owned())
    );
    assert_eq!(
        buffered_column_values(vec![RawValue::Bit(Some(true)), RawValue::F64(None)]),
        vec![OdbcValueKind::Bit(true), OdbcValueKind::Null]
    );
}

fn two_columns() -> Vec<OdbcColumn> {
    vec![
        OdbcColumn::new(0, "a".to_owned(), OdbcTypeInfo::new(OdbcDataType::Integer)),
        OdbcColumn::new(1, "b".to_owned(), OdbcTypeInfo::new(OdbcDataType::Varchar { length: None })),
    ]
}

#[test]
fn column_batches_transpose_into_rows() {
    let columns = vec![
        vec![OdbcValueKind::Integer(1), OdbcValueKind::Integer(2)],
        vec![OdbcValueKind::Text("x".to_owned()), OdbcValueKind::Null],
    ];
    let rows = rows_from_columns(&two_columns(), columns, 2).unwrap();
    assert_eq!(rows.len(), 2);
    assert_eq!(rows[0].columns().len(), 2);
    assert_eq!(rows[0].columns()[1].name(), "b");
    assert_eq!(rows[0].try_get_raw(0).unwrap().as_i64(), Some(1));
    assert_eq!(rows[0].try_get_raw(1).unwrap().as_str(), Some("x"));
    assert_eq!(rows[1].try_get_raw(0).unwrap().as_i64(), Some(2));
    assert!(rows[1].try_get_raw_by_name("B").unwrap().is_null());
}

#[test]
fn short_column_batches_are_refused() {
    let columns = vec![
        vec![OdbcValueKind::Integer(1), OdbcValueKind::Integer(2)],
        vec![OdbcValueKind::Null],
    ];
    assert_eq!(
        rows_from_columns(&two_columns(), columns, 2).unwrap_err(),
        DriverError::Protocol("ODBC buffered fetch produced too few values for row 2".to_owned())
    );
}

#[test]
fn column_counts_and_numbers() {
    assert_eq!(result_column_count(3), Ok(3));
    assert_eq!(
        result_column_count(-2),
        Err(DriverError::Protocol("ODBC returned a negative column count: -2".to_owned()))
    );
    assert_eq!(column_number(0), Ok(1));
    assert_eq!(column_number(65534), Ok(65535));
    assert_eq!(
        column_number(65535),
        Err(DriverError::Protocol("ODBC column index exceeds u16: 65536".to_owned()))
    );
    assert_eq!(column_name_or_default(None, 3), "col3");
    assert_eq!(column_name_or_default(Some("id".to_owned()), 3), "id");
}

#[test]
fn row_counts_become_query_results() {
    assert_eq!(query_result_from_row_count(None).unwrap().rows_affected(), 0);
    assert_eq!(query_result_from_row_count(Some(12)).unwrap().rows_affected(), 12);
    assert_eq!(
        query_result_from_row_count(Some(-1)),
        Err(DriverError::Protocol("ODBC row count does not fit in u64".to_owned()))
    );
}

#[test]
fn failed_column_description_always_fails() {
    assert_eq!(on_column_description_failure(0), DeferredMetadata::Fail);
    assert_eq!(
        on_column_description_failure(2),
        DeferredMetadata::DescribeParametersThenFail { count: 2 }
    );
}

#[test]
fn sql_preview_collapses_whitespace_and_truncates() {
    assert_eq!(sql_preview("  SELECT\n  1\t FROM   t  "), "SELECT 1 FROM t");
    let long = "x".repeat(200);
    let preview = sql_preview(&long);
    assert_eq!(preview, format!("{}...", "x".repeat(157)));
    let exact = "y".repeat(160);
    assert_eq!(sql_preview(&exact), exact);
}

#[test]
fn fetching_is_buffered_exactly_when_a_column_size_is_set() {
    assert_eq!(
        fetch_plan(OdbcBufferSettings { batch_size: 8, max_column_size: Some(32) }),
        FetchPlan::Buffered { batch_size: 8, max_column_size: 32 }
    );
    assert_eq!(fetch_plan(OdbcBufferSettings::default()), FetchPlan::Unbuffered);
}

#[test]
fn result_streams_end_with_a_query_result() {
    let items = fetch_items(Execution::Rows(vec!["a", "b"]));
    assert_eq!(items.len(), 3);
    assert!(matches!(items[0], FetchItem::Row("a")));
    assert!(matches!(items[1], FetchItem::Row("b")));
    assert!(matches!(items[2], FetchItem::Result(q) if q.rows_affected() == 0));

    let done = fetch_items(Execution::<&str>::Done(OdbcQueryResult::new(4)));
    assert_eq!(done.len(), 1);
    assert!(matches!(done[0], FetchItem::Result(q) if q.rows_affected() == 4));

    assert_eq!(first_row(Execution::Rows(vec![1, 2])), Some(1));
    assert_eq!(first_row(Execution::<i32>::Rows(Vec::new())), None);
    assert_eq!(first_row(Execution::<i32>::Done(OdbcQueryResult::new(1))), None);
}

#[test]
fn wide_text_pairs_surrogates_and_replaces_lone_ones() {
    let smile: Vec<u16> = "a\u{1F600}".encode_utf16().collect();
    assert_eq!(
        value_kind_of_raw(RawValue::WText(Some(smile))),
        OdbcValueKind::Text("a\u{1F600}".to_owned())
    );
    assert_eq!(
        value_kind_of_raw(RawValue::WText(Some(vec![0xD83D, 0x0061, 0xDC00]))),
        OdbcValueKind::Text("\u{FFFD}a\u{FFFD}".to_owned())
    );
}
