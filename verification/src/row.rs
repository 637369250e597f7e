use vstd::prelude::*;
use crate::column::{OdbcColumn, column_names, column_position, column_index_in_bounds,
    is_name_position, name_absent};
use crate::error::DriverError;
use crate::value::{OdbcValue, OdbcValueRef};

verus! {

/// A row: the metadata of its columns and its values, in column order.
#[derive(Debug, Clone, Default)]
pub struct OdbcRow {
    columns: Vec<OdbcColumn>,
    values: Vec<OdbcValue>,
}

impl OdbcRow {
    /// The metadata of the row's columns.
    pub closed spec fn spec_columns(&self) -> Seq<OdbcColumn> {
        self.columns@
    }

    /// The row's values.
    pub closed spec fn spec_values(&self) -> Seq<OdbcValue> {
        self.values@
    }

    /// Creates a row from column metadata and values.
    pub fn new(columns: Vec<OdbcColumn>, values: Vec<OdbcValue>) -> (r: Self)
        ensures
            r.spec_columns() == columns@,
            r.spec_values() == values@,
    {
        OdbcRow { columns, values }
    }

    /// The metadata of the row's columns, in order.
    pub fn columns(&self) -> (r: &[OdbcColumn])
        ensures
            r@ == self.spec_columns(),
    {
        self.columns.as_slice()
    }

    /// The position of the column at `index`, when the row has such a column.
    pub fn index_of(&self, index: usize) -> (r: Result<usize, DriverError>)
        ensures
            index < self.spec_columns().len() ==> r == Ok::<usize, DriverError>(index),
            index >= self.spec_columns().len() ==> r == Err::<usize, DriverError>(
                DriverError::ColumnIndexOutOfBounds { index, len: self.spec_columns().len() as usize },
            ),
    {
        column_index_in_bounds(index, self.columns.len())
    }

    /// The position of the column called `name`: the first exact match, else the first
    /// match ignoring ASCII case.
    pub fn index_of_name(&self, name: &str) -> (r: Result<usize, DriverError>)
        ensures
            r matches Ok(i) ==> is_name_position(column_names(self.spec_columns()), name@, i as int),
            r is Err <==> name_absent(column_names(self.spec_columns()), name@),
            r matches Err(e) ==> (e matches DriverError::ColumnNotFound(n) && n@ == name@),
    {
        column_position(&self.columns, name)
    }

    /// The value at a position that names a column.
    pub fn value_at(&self, index: usize) -> (r: Result<OdbcValueRef<'_>, DriverError>)
        ensures
            index < self.spec_values().len() ==> (r matches Ok(v)
                && v@ == self.spec_values()[index as int]@),
            index >= self.spec_values().len() ==> r == Err::<OdbcValueRef<'_>, DriverError>(
                DriverError::ColumnIndexOutOfBounds { index, len: self.spec_values().len() as usize },
            ),
    {
        if index < self.values.len() {
            Ok(self.values[index].as_ref())
        } else {
            Err(DriverError::ColumnIndexOutOfBounds { index, len: self.values.len() })
        }
    }

    /// The value of the column at `index`.
    pub fn try_get_raw(&self, index: usize) -> (r: Result<OdbcValueRef<'_>, DriverError>)
        ensures
            index < self.spec_columns().len() && index < self.spec_values().len() ==> (r matches Ok(v)
                && v@ == self.spec_values()[index as int]@),
            index >= self.spec_columns().len() ==> r == Err::<OdbcValueRef<'_>, DriverError>(
                DriverError::ColumnIndexOutOfBounds { index, len: self.spec_columns().len() as usize },
            ),
            index < self.spec_columns().len() && index >= self.spec_values().len() ==> r == Err::<
                OdbcValueRef<'_>,
                DriverError,
            >(DriverError::ColumnIndexOutOfBounds { index, len: self.spec_values().len() as usize }),
    {
        let index = self.index_of(index)?;
        self.value_at(index)
    }

    /// The value of the column called `name` (found as `index_of_name` finds it).
    pub fn try_get_raw_by_name(&self, name: &str) -> (r: Result<OdbcValueRef<'_>, DriverError>)
        ensures
            r matches Ok(v) ==> exists|i: int|
                is_name_position(column_names(self.spec_columns()), name@, i) && i
                    < self.spec_values().len() && v@ == #[trigger] self.spec_values()[i]@,
            name_absent(column_names(self.spec_columns()), name@) ==> (r matches Err(e)
                && (e matches DriverError::ColumnNotFound(n) && n@ == name@)),
            forall|i: int| #[trigger] is_name_position(column_names(self.spec_columns()), name@, i)
                ==> (if i < self.spec_values().len() {
                    r matches Ok(v) && v@ == self.spec_values()[i]@
                } else {
                    r == Err::<OdbcValueRef<'_>, DriverError>(DriverError::ColumnIndexOutOfBounds {
                        index: i as usize,
                        len: self.spec_values().len() as usize,
                    })
                }),
    {
        let index = self.index_of_name(name)?;
        proof {
            assert forall|i: int| #[trigger] is_name_position(column_names(self.spec_columns()), name@, i)
                implies i == index by {
                crate::column::lemma_name_position_unique(column_names(self.spec_columns()), name@, i, index as int);
            }
        }
        self.value_at(index)
    }
}

} // verus!
