use vstd::prelude::*;

verus! {

/// The errors that the driver's own decisions produce; each corresponds to the SQLx error of
/// the same name.
#[derive(Debug, Clone, PartialEq, Eq)]
pub enum DriverError {
    /// A column index is not below the number of columns.
    ColumnIndexOutOfBounds { index: usize, len: usize },
    /// No column has the given name.
    ColumnNotFound(String),
    /// A transaction was begun while another one is open.
    InvalidSavePointStatement,
    /// The driver reported something that breaks the ODBC protocol.
    Protocol(String),
    /// A value or type has no counterpart among the `Any` driver's kinds.
    AnyDriverError(String),
    /// A value could not be decoded into the requested Rust type.
    Decode(String),
}

} // verus!
