use vstd::prelude::*;
use crate::data_type::OdbcDataType;
use crate::error::DriverError;
use crate::text::{chars_of, chars_equal, chars_eq_ignore_ascii_case, eq_ignore_ascii_case};
use crate::type_info::OdbcTypeInfo;

verus! {

/// What a column's metadata holds.
pub struct ColumnView {
    pub ordinal: usize,
    pub name: Seq<char>,
    pub data_type: OdbcDataType,
}

/// Column metadata for an ODBC row or statement.
#[derive(Debug, Clone, PartialEq, Eq)]
pub struct OdbcColumn {
    ordinal: usize,
    name: String,
    type_info: OdbcTypeInfo,
}

impl View for OdbcColumn {
    type V = ColumnView;

    closed spec fn view(&self) -> ColumnView {
        ColumnView { ordinal: self.ordinal, name: self.name@, data_type: self.type_info@ }
    }
}

impl OdbcColumn {
    /// Creates column metadata.
    pub fn new(ordinal: usize, name: String, type_info: OdbcTypeInfo) -> (r: Self)
        ensures
            r@.ordinal == ordinal,
            r@.name == name@,
            r@.data_type == type_info@,
    {
        OdbcColumn { ordinal, name, type_info }
    }

    /// The zero-based position of the column.
    pub fn ordinal(&self) -> (r: usize)
        ensures
            r == self@.ordinal,
    {
        self.ordinal
    }

    /// The name of the column.
    pub fn name(&self) -> (r: &str)
        ensures
            r@ == self@.name,
    {
        self.name.as_str()
    }

    /// The type of the column.
    pub fn type_info(&self) -> (r: &OdbcTypeInfo)
        ensures
            r@ == self@.data_type,
    {
        &self.type_info
    }

    /// A copy of this column's metadata.
    pub fn duplicate(&self) -> (r: Self)
        ensures
            r@ == self@,
    {
        OdbcColumn { ordinal: self.ordinal, name: self.name.clone(), type_info: self.type_info }
    }
}

/// The names of a list of columns.
pub open spec fn column_names(columns: Seq<OdbcColumn>) -> Seq<Seq<char>> {
    columns.map_values(|c: OdbcColumn| c@.name)
}

/// `i` is the first position whose name is `name`.
pub open spec fn first_exact(names: Seq<Seq<char>>, name: Seq<char>, i: int) -> bool {
    &&& 0 <= i < names.len()
    &&& names[i] == name
    &&& forall|j: int| 0 <= j < i ==> names[j] != name
}

/// `i` is the first position whose name is `name` up to ASCII case.
pub open spec fn first_ignoring_case(names: Seq<Seq<char>>, name: Seq<char>, i: int) -> bool {
    &&& 0 <= i < names.len()
    &&& eq_ignore_ascii_case(names[i], name)
    &&& forall|j: int| 0 <= j < i ==> !eq_ignore_ascii_case(names[j], name)
}

/// Where a column name is found: at the first exact match, or, when there is none, at the
/// first match up to ASCII case.
pub open spec fn is_name_position(names: Seq<Seq<char>>, name: Seq<char>, i: int) -> bool {
    ||| first_exact(names, name, i)
    ||| ((forall|j: int| 0 <= j < names.len() ==> names[j] != name) && first_ignoring_case(
        names,
        name,
        i,
    ))
}

/// A name is found at one position at most: the lookup by name has a single answer.
pub proof fn lemma_name_position_unique(names: Seq<Seq<char>>, name: Seq<char>, i: int, j: int)
    requires
        is_name_position(names, name, i),
        is_name_position(names, name, j),
    ensures
        i == j,
{
    if first_exact(names, name, i) && first_exact(names, name, j) {
        if i < j {
            assert(names[i] != name);
        } else if j < i {
            assert(names[j] != name);
        }
    } else if first_exact(names, name, i) {
        assert(names[i] != name);
    } else if first_exact(names, name, j) {
        assert(names[j] != name);
    } else {
        if i < j {
            assert(!eq_ignore_ascii_case(names[i], name));
        } else if j < i {
            assert(!eq_ignore_ascii_case(names[j], name));
        }
    }
}

/// No column has the name, not even up to ASCII case.
pub open spec fn name_absent(names: Seq<Seq<char>>, name: Seq<char>) -> bool {
    forall|j: int| 0 <= j < names.len() ==> !eq_ignore_ascii_case(names[j], name)
}

/// Finds the position of the column called `name`: the first exact match, else the first
/// match that ignores ASCII case, else `ColumnNotFound`.
pub fn column_position(columns: &Vec<OdbcColumn>, name: &str) -> (r: Result<usize, DriverError>)
    ensures
        r matches Ok(i) ==> is_name_position(column_names(columns@), name@, i as int),
        r is Err <==> name_absent(column_names(columns@), name@),
        r matches Err(e) ==> (e matches DriverError::ColumnNotFound(n) && n@ == name@),
{
    let ghost names = column_names(columns@);
    let wanted = chars_of(name);
    let mut i: usize = 0;
    while i < columns.len()
        invariant
            i <= columns.len(),
            names == column_names(columns@),
            wanted@ == name@,
            forall|j: int| 0 <= j < i ==> names[j] != name@,
        decreases columns.len() - i,
    {
        let candidate = chars_of(columns[i].name());
        assert(candidate@ == names[i as int]);
        if chars_equal(&candidate, &wanted) {
            assert(eq_ignore_ascii_case(names[i as int], name@));
            return Ok(i);
        }
        i += 1;
    }
    let mut k: usize = 0;
    while k < columns.len()
        invariant
            k <= columns.len(),
            names == column_names(columns@),
            wanted@ == name@,
            forall|j: int| 0 <= j < columns.len() ==> names[j] != name@,
            forall|j: int| 0 <= j < k ==> !eq_ignore_ascii_case(names[j], name@),
        decreases columns.len() - k,
    {
        let candidate = chars_of(columns[k].name());
        assert(candidate@ == names[k as int]);
        if chars_eq_ignore_ascii_case(&candidate, &wanted) {
            assert(eq_ignore_ascii_case(names[k as int], name@));
            return Ok(k);
        }
        k += 1;
    }
    Err(DriverError::ColumnNotFound(name.to_owned()))
}

/// Checks that `index` names one of `len` columns.
pub fn column_index_in_bounds(index: usize, len: usize) -> (r: Result<usize, DriverError>)
    ensures
        index < len ==> r == Ok::<usize, DriverError>(index),
        index >= len ==> r == Err::<usize, DriverError>(
            DriverError::ColumnIndexOutOfBounds { index, len },
        ),
{
    if index >= len {
        Err(DriverError::ColumnIndexOutOfBounds { index, len })
    } else {
        Ok(index)
    }
}

} // verus!
