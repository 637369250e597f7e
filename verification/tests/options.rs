use std::str::FromStr;

use sqlx_odbc::{LogLevel, OdbcBufferSettings, OdbcConnectOptions, StatementDuration};

#[test]
fn parses_bare_dsn_as_dsn_connection_string() {
    let options = OdbcConnectOptions::from_str("Warehouse").unwrap();
    assert_eq!(options.connection_string(), "DSN=Warehouse");
}

#[test]
fn preserves_standard_connection_strings() {
    let input = "Driver={ODBC Driver 17 for SQL Server};Server=localhost;Database=test";
    let options = OdbcConnectOptions::from_str(input).unwrap();
    assert_eq!(options.connection_string(), input);
}

#[test]
fn strips_legacy_odbc_prefix() {
    let options = OdbcConnectOptions::from_str("odbc:DSN=Warehouse").unwrap();
    assert_eq!(options.connection_string(), "DSN=Warehouse");
}

#[test]
fn updates_buffer_settings_incrementally() {
    let mut options = OdbcConnectOptions::from_str("Warehouse").unwrap();
    options.batch_size(128).max_column_size(Some(2048));

    assert_eq!(
        *options.buffer_settings_ref(),
        OdbcBufferSettings {
            batch_size: 128,
            max_column_size: Some(2048)
        }
    );
}

#[test]
fn integration_connection_string_forms_parse() {
    let dsn = OdbcConnectOptions::from_str("ExampleDsn").unwrap();
    assert_eq!(dsn.connection_string(), "DSN=ExampleDsn");

    let conn_str = OdbcConnectOptions::from_str("DSN=ExampleDsn;UID=user").unwrap();
    assert_eq!(conn_str.connection_string(), "DSN=ExampleDsn;UID=user");

    let legacy = OdbcConnectOptions::from_str("odbc:DSN=ExampleDsn").unwrap();
    assert_eq!(legacy.connection_string(), "DSN=ExampleDsn");
}

#[test]
fn parse_trims_surrounding_whitespace() {
    let options = OdbcConnectOptions::parse("  \tWarehouse \n");
    assert_eq!(options.connection_string(), "DSN=Warehouse");

    let prefixed = OdbcConnectOptions::parse("  odbc:Warehouse  ");
    assert_eq!(prefixed.connection_string(), "DSN=Warehouse");
}

#[test]
fn parse_of_empty_input_names_an_empty_dsn() {
    let options = OdbcConnectOptions::parse("");
    assert_eq!(options.connection_string(), "DSN=");
}

#[test]
fn parse_sets_default_settings() {
    let options = OdbcConnectOptions::parse("Warehouse");
    assert_eq!(options.fetch_settings(), OdbcBufferSettings::default());
    assert_eq!(
        options.fetch_settings(),
        OdbcBufferSettings { batch_size: 64, max_column_size: None }
    );
    assert_eq!(options.get_statement_cache_capacity(), 100);
    assert_eq!(options.get_log_statements(), LogLevel::Debug);
    assert_eq!(
        options.get_log_slow_statements(),
        (LogLevel::Warn, StatementDuration { secs: 1, nanos: 0 })
    );
}

#[test]
fn setters_replace_only_their_own_setting() {
    let mut options = OdbcConnectOptions::parse("Warehouse");
    options
        .statement_cache_capacity(7)
        .log_statements(LogLevel::Trace)
        .log_slow_statements(LogLevel::Error, StatementDuration { secs: 3, nanos: 5 });
    assert_eq!(options.get_statement_cache_capacity(), 7);
    assert_eq!(options.get_log_statements(), LogLevel::Trace);
    assert_eq!(
        options.get_log_slow_statements(),
        (LogLevel::Error, StatementDuration { secs: 3, nanos: 5 })
    );
    assert_eq!(options.connection_string(), "DSN=Warehouse");
    assert_eq!(options.fetch_settings(), OdbcBufferSettings::default());

    options.buffer_settings(OdbcBufferSettings { batch_size: 9, max_column_size: Some(4) });
    assert_eq!(
        *options.buffer_settings_ref(),
        OdbcBufferSettings { batch_size: 9, max_column_size: Some(4) }
    );
    options.max_column_size(None);
    assert_eq!(
        options.fetch_settings(),
        OdbcBufferSettings { batch_size: 9, max_column_size: None }
    );
    assert_eq!(options.get_statement_cache_capacity(), 7);
}
