//! ODBC driver logic for SQLx: data types, values, arguments, rows, connection
//! options and the decisions that the connection makes around the ODBC calls.

pub mod any;
pub mod arguments;
pub mod column;
pub mod connection;
pub mod data_type;
pub mod datetime;
pub mod decimal;
pub mod error;
pub mod options;
pub mod query_result;
pub mod row;
pub mod statement;
pub mod temporal;
pub mod text;
pub mod transaction;
pub mod type_info;
pub mod uuid_value;
pub mod value;

pub use arguments::{OdbcArgumentValue, OdbcArguments};
pub use column::OdbcColumn;
pub use data_type::{DataTypeExt, OdbcDataType};
pub use error::DriverError;
pub use options::{LogLevel, OdbcBufferSettings, OdbcConnectOptions, StatementDuration};
pub use query_result::OdbcQueryResult;
pub use row::OdbcRow;
pub use statement::OdbcStatement;
pub use transaction::OdbcTransactionManager;
pub use type_info::{OdbcTypeInfo, SqlxType};
pub use value::{OdbcValue, OdbcValueKind, OdbcValueRef};
