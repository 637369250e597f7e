use vstd::prelude::*;

verus! {

/// The relational type of a column or parameter, as reported by the ODBC driver.
///
/// Lengths are column sizes in characters or bytes; a reported size of zero is
/// represented by `None`, so `Some(0)` never occurs in a well-formed value.
#[allow(inconsistent_fields)]
#[derive(Clone, Copy, Debug, PartialEq, Eq, Structural)]
pub enum OdbcDataType {
    /// The type is not known.
    Unknown,
    /// `CHAR(n)`.
    Char { length: Option<usize> },
    /// `NCHAR(n)`.
    WChar { length: Option<usize> },
    /// `NUMERIC(p, s)`.
    Numeric { precision: usize, scale: i16 },
    /// `DECIMAL(p, s)`.
    Decimal { precision: usize, scale: i16 },
    /// `INTEGER`.
    Integer,
    /// `SMALLINT`.
    SmallInt,
    /// `FLOAT(p)`.
    Float { precision: usize },
    /// `REAL`.
    Real,
    /// `DOUBLE PRECISION`.
    Double,
    /// `VARCHAR(n)`.
    Varchar { length: Option<usize> },
    /// `NVARCHAR(n)`.
    WVarchar { length: Option<usize> },
    /// `TEXT`.
    LongVarchar { length: Option<usize> },
    /// `NVARCHAR(MAX)`.
    WLongVarchar { length: Option<usize> },
    /// `BLOB`.
    LongVarbinary { length: Option<usize> },
    /// `DATE`.
    Date,
    /// `TIME(p)`.
    Time { precision: i16 },
    /// `TIMESTAMP(p)`.
    Timestamp { precision: i16 },
    /// `BIGINT`.
    BigInt,
    /// `TINYINT`.
    TinyInt,
    /// `BIT`.
    Bit,
    /// `VARBINARY(n)`.
    Varbinary { length: Option<usize> },
    /// `BINARY(n)`.
    Binary { length: Option<usize> },
    /// A driver specific type, identified by its raw SQL type code.
    Other { data_type: i16, column_size: Option<usize>, decimal_digits: i16 },
}

/// A size reported by the driver is never zero when present.
pub open spec fn nonzero_size(size: Option<usize>) -> bool {
    size != Some(0usize)
}

impl OdbcDataType {
    /// Every size held by the value is nonzero.
    pub open spec fn wf(self) -> bool {
        match self {
            OdbcDataType::Char { length } => nonzero_size(length),
            OdbcDataType::WChar { length } => nonzero_size(length),
            OdbcDataType::Varchar { length } => nonzero_size(length),
            OdbcDataType::WVarchar { length } => nonzero_size(length),
            OdbcDataType::LongVarchar { length } => nonzero_size(length),
            OdbcDataType::WLongVarchar { length } => nonzero_size(length),
            OdbcDataType::LongVarbinary { length } => nonzero_size(length),
            OdbcDataType::Varbinary { length } => nonzero_size(length),
            OdbcDataType::Binary { length } => nonzero_size(length),
            OdbcDataType::Other { column_size, .. } => nonzero_size(column_size),
            _ => true,
        }
    }

    /// The canonical SQL name of the type.
    pub open spec fn sql_name(self) -> Seq<char> {
        match self {
            OdbcDataType::BigInt => "BIGINT"@,
            OdbcDataType::Binary { .. } => "BINARY"@,
            OdbcDataType::Bit => "BIT"@,
            OdbcDataType::Char { .. } => "CHAR"@,
            OdbcDataType::Date => "DATE"@,
            OdbcDataType::Decimal { .. } => "DECIMAL"@,
            OdbcDataType::Double => "DOUBLE"@,
            OdbcDataType::Float { .. } => "FLOAT"@,
            OdbcDataType::Integer => "INTEGER"@,
            OdbcDataType::LongVarbinary { .. } => "LONGVARBINARY"@,
            OdbcDataType::LongVarchar { .. } => "LONGVARCHAR"@,
            OdbcDataType::Numeric { .. } => "NUMERIC"@,
            OdbcDataType::Real => "REAL"@,
            OdbcDataType::SmallInt => "SMALLINT"@,
            OdbcDataType::Time { .. } => "TIME"@,
            OdbcDataType::Timestamp { .. } => "TIMESTAMP"@,
            OdbcDataType::TinyInt => "TINYINT"@,
            OdbcDataType::Varbinary { .. } => "VARBINARY"@,
            OdbcDataType::Varchar { .. } => "VARCHAR"@,
            OdbcDataType::WChar { .. } => "WCHAR"@,
            OdbcDataType::WLongVarchar { .. } => "WLONGVARCHAR"@,
            OdbcDataType::WVarchar { .. } => "WVARCHAR"@,
            OdbcDataType::Unknown => "UNKNOWN"@,
            OdbcDataType::Other { .. } => "OTHER"@,
        }
    }

    /// The type carries character data.
    pub open spec fn is_character(self) -> bool {
        ||| self is Char
        ||| self is Varchar
        ||| self is LongVarchar
        ||| self is WChar
        ||| self is WVarchar
        ||| self is WLongVarchar
    }

    /// The type carries binary data.
    pub open spec fn is_binary(self) -> bool {
        ||| self is Binary
        ||| self is Varbinary
        ||| self is LongVarbinary
    }

    /// The type carries numeric data.
    pub open spec fn is_numeric(self) -> bool {
        ||| self is TinyInt
        ||| self is SmallInt
        ||| self is Integer
        ||| self is BigInt
        ||| self is Real
        ||| self is Float
        ||| self is Double
        ||| self is Decimal
        ||| self is Numeric
    }

    /// The type is one of the four exact integer types.
    pub open spec fn is_integer(self) -> bool {
        ||| self is TinyInt
        ||| self is SmallInt
        ||| self is Integer
        ||| self is BigInt
    }

    /// The width in bits of the values of an exact integer type; zero for every other type.
    pub open spec fn integer_bits(self) -> int {
        match self {
            OdbcDataType::TinyInt => 8,
            OdbcDataType::SmallInt => 16,
            OdbcDataType::Integer => 32,
            OdbcDataType::BigInt => 64,
            _ => 0,
        }
    }

    /// The type carries UTF-16 character data.
    pub open spec fn is_wide_character(self) -> bool {
        ||| self is WChar
        ||| self is WVarchar
        ||| self is WLongVarchar
    }

    /// The type's values have a fixed size layout in ODBC: integers, bits, the two floating
    /// point types without a precision, and dates.
    pub open spec fn has_fixed_layout(self) -> bool {
        ||| self.is_integer()
        ||| self is Bit
        ||| self is Real
        ||| self is Double
        ||| self is Date
    }
}

/// Helper predicates for groups of data types.
pub trait DataTypeExt: Sized {
    /// The canonical display name, as a sequence of characters.
    spec fn spec_name(self) -> Seq<char>;

    /// Whether the type carries character data.
    spec fn spec_accepts_character_data(self) -> bool;

    /// Whether the type carries binary data.
    spec fn spec_accepts_binary_data(self) -> bool;

    /// Whether the type carries numeric data.
    spec fn spec_accepts_numeric_data(self) -> bool;

    /// Returns the canonical display name for this type.
    fn name(self) -> (r: &'static str)
        ensures
            r@ == self.spec_name(),
    ;

    /// Returns whether this type carries character data.
    fn accepts_character_data(self) -> (r: bool)
        ensures
            r == self.spec_accepts_character_data(),
    ;

    /// Returns whether this type carries binary data.
    fn accepts_binary_data(self) -> (r: bool)
        ensures
            r == self.spec_accepts_binary_data(),
    ;

    /// Returns whether this type carries numeric data.
    fn accepts_numeric_data(self) -> (r: bool)
        ensures
            r == self.spec_accepts_numeric_data(),
    ;
}

impl DataTypeExt for OdbcDataType {
    open spec fn spec_name(self) -> Seq<char> {
        self.sql_name()
    }

    open spec fn spec_accepts_character_data(self) -> bool {
        self.is_character()
    }

    open spec fn spec_accepts_binary_data(self) -> bool {
        self.is_binary()
    }

    open spec fn spec_accepts_numeric_data(self) -> bool {
        self.is_numeric()
    }

    fn name(self) -> (r: &'static str) {
        match self {
            OdbcDataType::BigInt => "BIGINT",
            OdbcDataType::Binary { .. } => "BINARY",
            OdbcDataType::Bit => "BIT",
            OdbcDataType::Char { .. } => "CHAR",
            OdbcDataType::Date => "DATE",
            OdbcDataType::Decimal { .. } => "DECIMAL",
            OdbcDataType::Double => "DOUBLE",
            OdbcDataType::Float { .. } => "FLOAT",
            OdbcDataType::Integer => "INTEGER",
            OdbcDataType::LongVarbinary { .. } => "LONGVARBINARY",
            OdbcDataType::LongVarchar { .. } => "LONGVARCHAR",
            OdbcDataType::Numeric { .. } => "NUMERIC",
            OdbcDataType::Real => "REAL",
            OdbcDataType::SmallInt => "SMALLINT",
            OdbcDataType::Time { .. } => "TIME",
            OdbcDataType::Timestamp { .. } => "TIMESTAMP",
            OdbcDataType::TinyInt => "TINYINT",
            OdbcDataType::Varbinary { .. } => "VARBINARY",
            OdbcDataType::Varchar { .. } => "VARCHAR",
            OdbcDataType::WChar { .. } => "WCHAR",
            OdbcDataType::WLongVarchar { .. } => "WLONGVARCHAR",
            OdbcDataType::WVarchar { .. } => "WVARCHAR",
            OdbcDataType::Unknown => "UNKNOWN",
            OdbcDataType::Other { .. } => "OTHER",
        }
    }

    fn accepts_character_data(self) -> (r: bool) {
        match self {
            OdbcDataType::Char { .. }
            | OdbcDataType::Varchar { .. }
            | OdbcDataType::LongVarchar { .. }
            | OdbcDataType::WChar { .. }
            | OdbcDataType::WVarchar { .. }
            | OdbcDataType::WLongVarchar { .. } => true,
            _ => false,
        }
    }

    fn accepts_binary_data(self) -> (r: bool) {
        match self {
            OdbcDataType::Binary { .. }
            | OdbcDataType::Varbinary { .. }
            | OdbcDataType::LongVarbinary { .. } => true,
            _ => false,
        }
    }

    fn accepts_numeric_data(self) -> (r: bool) {
        match self {
            OdbcDataType::TinyInt
            | OdbcDataType::SmallInt
            | OdbcDataType::Integer
            | OdbcDataType::BigInt
            | OdbcDataType::Real
            | OdbcDataType::Float { .. }
            | OdbcDataType::Double
            | OdbcDataType::Decimal { .. }
            | OdbcDataType::Numeric { .. } => true,
            _ => false,
        }
    }
}

} // verus!
