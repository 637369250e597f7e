use sqlx_odbc::column::column_position;
use sqlx_odbc::{DriverError, OdbcColumn, OdbcDataType, OdbcRow, OdbcStatement, OdbcTypeInfo, OdbcValue, OdbcValueKind};

fn test_columns() -> Vec<OdbcColumn> {
    vec![
        OdbcColumn::new(0, "lowercase_col".to_owned(), OdbcTypeInfo::new(OdbcDataType::Integer)),
        OdbcColumn::new(
            1,
            "UPPERCASE_COL".to_owned(),
            OdbcTypeInfo::new(OdbcDataType::Varchar { length: None }),
        ),
        OdbcColumn::new(2, "MixedCase_Col".to_owned(), OdbcTypeInfo::new(OdbcDataType::Double)),
    ]
}

fn create_test_row() -> OdbcRow {
    OdbcRow::new(
        test_columns(),
        vec![
            OdbcValue::new(OdbcValueKind::Integer(42)),
            OdbcValue::new(OdbcValueKind::Text("test".to_owned())),
            OdbcValue::new(OdbcValueKind::Double(std::f64::consts::PI.to_bits())),
        ],
    )
}

#[test]
fn exact_column_match_works() {
    let row = create_test_row();

    assert_eq!(row.index_of_name("lowercase_col").unwrap(), 0);
    assert_eq!(row.index_of_name("UPPERCASE_COL").unwrap(), 1);
    assert_eq!(row.index_of_name("MixedCase_Col").unwrap(), 2);
}

#[test]
fn case_insensitive_column_match_works() {
    let row = create_test_row();

    assert_eq!(row.index_of_name("LOWERCASE_COL").unwrap(), 0);
    assert_eq!(row.index_of_name("uppercase_col").unwrap(), 1);
    assert_eq!(row.index_of_name("mixedcase_col").unwrap(), 2);
}

#[test]
fn missing_column_reports_name() {
    let row = create_test_row();
    let error = row.index_of_name("missing").unwrap_err();

    assert!(matches!(error, DriverError::ColumnNotFound(name) if name == "missing"));
}

#[test]
fn try_get_raw_uses_case_insensitive_column_lookup() {
    let row = create_test_row();
    let value = row.try_get_raw_by_name("mixedcase_col").unwrap();

    match value.value().kind() {
        OdbcValueKind::Double(bits) => assert_eq!(f64::from_bits(*bits), std::f64::consts::PI),
        other => panic!("expected a double, found {other:?}"),
    }
}

#[test]
fn columns_returns_metadata_in_order() {
    let row = create_test_row();
    let columns = row.columns();

    assert_eq!(columns.len(), 3);
    assert_eq!(columns[0].ordinal(), 0);
    assert_eq!(columns[0].name(), "lowercase_col");
    assert_eq!(columns[1].ordinal(), 1);
    assert_eq!(columns[1].name(), "UPPERCASE_COL");
    assert_eq!(columns[2].ordinal(), 2);
    assert_eq!(columns[2].name(), "MixedCase_Col");
}

#[test]
fn exact_match_wins_over_a_case_insensitive_one() {
    let columns = vec![
        OdbcColumn::new(0, "ID".to_owned(), OdbcTypeInfo::new(OdbcDataType::Integer)),
        OdbcColumn::new(1, "id".to_owned(), OdbcTypeInfo::new(OdbcDataType::Integer)),
    ];
    assert_eq!(column_position(&columns, "id"), Ok(1));
    assert_eq!(column_position(&columns, "Id"), Ok(0));
}

#[test]
fn index_out_of_bounds_is_reported() {
    let row = create_test_row();
    assert_eq!(row.index_of(2), Ok(2));
    assert_eq!(
        row.index_of(3),
        Err(DriverError::ColumnIndexOutOfBounds { index: 3, len: 3 })
    );
    assert!(matches!(
        row.try_get_raw(5),
        Err(DriverError::ColumnIndexOutOfBounds { index: 5, len: 3 })
    ));
    assert_eq!(row.try_get_raw(0).unwrap().as_i64(), Some(42));
    assert_eq!(row.value_at(1).unwrap().as_str(), Some("test"));
}

#[test]
fn statements_find_their_columns() {
    let statement = OdbcStatement::new("SELECT 1".to_owned(), test_columns(), 2);
    assert_eq!(statement.sql(), "SELECT 1");
    assert_eq!(statement.parameters(), 2);
    assert_eq!(statement.columns().len(), 3);
    assert_eq!(statement.index_of_name("uppercase_col"), Ok(1));
    assert_eq!(
        statement.index_of_name("nope"),
        Err(DriverError::ColumnNotFound("nope".to_owned()))
    );
    assert_eq!(
        statement.index_of(4),
        Err(DriverError::ColumnIndexOutOfBounds { index: 4, len: 3 })
    );
}
