use vstd::prelude::*;
use crate::column::{OdbcColumn, column_names, column_position, column_index_in_bounds,
    is_name_position, name_absent};
use crate::error::DriverError;

verus! {

/// Prepared statement metadata for ODBC.
#[derive(Debug, Clone)]
pub struct OdbcStatement {
    sql: String,
    columns: Vec<OdbcColumn>,
    parameters: usize,
}

impl OdbcStatement {
    /// The statement's SQL text.
    pub closed spec fn spec_sql(&self) -> Seq<char> {
        self.sql@
    }

    /// The metadata of the columns the statement returns.
    pub closed spec fn spec_columns(&self) -> Seq<OdbcColumn> {
        self.columns@
    }

    /// The number of parameters the statement takes.
    pub closed spec fn spec_parameters(&self) -> usize {
        self.parameters
    }

    /// Creates a statement metadata value.
    pub fn new(sql: String, columns: Vec<OdbcColumn>, parameters: usize) -> (r: Self)
        ensures
            r.spec_sql() == sql@,
            r.spec_columns() == columns@,
            r.spec_parameters() == parameters,
    {
        OdbcStatement { sql, columns, parameters }
    }

    /// The statement's SQL text.
    pub fn sql(&self) -> (r: &str)
        ensures
            r@ == self.spec_sql(),
    {
        self.sql.as_str()
    }

    /// The number of parameters the statement takes.
    pub fn parameters(&self) -> (r: usize)
        ensures
            r == self.spec_parameters(),
    {
        self.parameters
    }

    /// The metadata of the columns the statement returns.
    pub fn columns(&self) -> (r: &[OdbcColumn])
        ensures
            r@ == self.spec_columns(),
    {
        self.columns.as_slice()
    }

    /// The position of the column at `index`, when the statement has such a column.
    pub fn index_of(&self, index: usize) -> (r: Result<usize, DriverError>)
        ensures
            index < self.spec_columns().len() ==> r == Ok::<usize, DriverError>(index),
            index >= self.spec_columns().len() ==> r == Err::<usize, DriverError>(
                DriverError::ColumnIndexOutOfBounds { index, len: self.spec_columns().len() as usize },
            ),
    {
        column_index_in_bounds(index, self.columns.len())
    }

    /// The position of the column called `name`: the first exact match, else the first
    /// match ignoring ASCII case.
    pub fn index_of_name(&self, name: &str) -> (r: Result<usize, DriverError>)
        ensures
            r matches Ok(i) ==> is_name_position(column_names(self.spec_columns()), name@, i as int),
            r is Err <==> name_absent(column_names(self.spec_columns()), name@),
            r matches Err(e) ==> (e matches DriverError::ColumnNotFound(n) && n@ == name@),
    {
        column_position(&self.columns, name)
    }
}

} // verus!
