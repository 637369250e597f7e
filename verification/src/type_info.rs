use vstd::prelude::*;
use crate::data_type::{DataTypeExt, OdbcDataType, nonzero_size};

verus! {

/// Type information for an ODBC value.
#[derive(Clone, Copy, Debug, PartialEq, Eq, Structural)]
pub struct OdbcTypeInfo {
    data_type: OdbcDataType,
}

impl View for OdbcTypeInfo {
    type V = OdbcDataType;

    closed spec fn view(&self) -> OdbcDataType {
        self.data_type
    }
}

#[allow(non_snake_case)]
impl OdbcTypeInfo {
    /// Creates type information from a data type.
    pub fn new(data_type: OdbcDataType) -> (r: Self)
        ensures
            r@ == data_type,
    {
        OdbcTypeInfo { data_type }
    }

    /// Returns the underlying data type.
    pub fn data_type(&self) -> (r: OdbcDataType)
        ensures
            r == self@,
    {
        self.data_type
    }

    /// Two type informations are equal exactly when their data types are.
    pub proof fn lemma_view_injective(a: OdbcTypeInfo, b: OdbcTypeInfo)
        ensures
            (a@ == b@) <==> (a == b),
    {
    }

    /// `BIGINT` type information.
    pub fn BIGINT() -> (r: Self)
        ensures
            r@ == OdbcDataType::BigInt,
    {
        OdbcTypeInfo { data_type: OdbcDataType::BigInt }
    }

    /// `BIT` type information.
    pub fn BIT() -> (r: Self)
        ensures
            r@ == OdbcDataType::Bit,
    {
        OdbcTypeInfo { data_type: OdbcDataType::Bit }
    }

    /// `DATE` type information.
    pub fn DATE() -> (r: Self)
        ensures
            r@ == OdbcDataType::Date,
    {
        OdbcTypeInfo { data_type: OdbcDataType::Date }
    }

    /// `DOUBLE` type information.
    pub fn DOUBLE() -> (r: Self)
        ensures
            r@ == OdbcDataType::Double,
    {
        OdbcTypeInfo { data_type: OdbcDataType::Double }
    }

    /// `INTEGER` type information.
    pub fn INTEGER() -> (r: Self)
        ensures
            r@ == OdbcDataType::Integer,
    {
        OdbcTypeInfo { data_type: OdbcDataType::Integer }
    }

    /// `REAL` type information.
    pub fn REAL() -> (r: Self)
        ensures
            r@ == OdbcDataType::Real,
    {
        OdbcTypeInfo { data_type: OdbcDataType::Real }
    }

    /// `SMALLINT` type information.
    pub fn SMALLINT() -> (r: Self)
        ensures
            r@ == OdbcDataType::SmallInt,
    {
        OdbcTypeInfo { data_type: OdbcDataType::SmallInt }
    }

    /// `TINYINT` type information.
    pub fn TINYINT() -> (r: Self)
        ensures
            r@ == OdbcDataType::TinyInt,
    {
        OdbcTypeInfo { data_type: OdbcDataType::TinyInt }
    }

    /// `UNKNOWN` type information.
    pub fn UNKNOWN() -> (r: Self)
        ensures
            r@ == OdbcDataType::Unknown,
    {
        OdbcTypeInfo { data_type: OdbcDataType::Unknown }
    }

    /// `TIME` type information with zero fractional precision.
    pub fn TIME() -> (r: Self)
        ensures
            r@ == (OdbcDataType::Time { precision: 0 }),
    {
        OdbcTypeInfo { data_type: OdbcDataType::Time { precision: 0 } }
    }

    /// `TIMESTAMP` type information with zero fractional precision.
    pub fn TIMESTAMP() -> (r: Self)
        ensures
            r@ == (OdbcDataType::Timestamp { precision: 0 }),
    {
        OdbcTypeInfo { data_type: OdbcDataType::Timestamp { precision: 0 } }
    }

    /// Creates `VARCHAR` type information.
    pub fn varchar(length: Option<usize>) -> (r: Self)
        requires
            nonzero_size(length),
        ensures
            r@ == (OdbcDataType::Varchar { length }),
            r@.wf(),
    {
        OdbcTypeInfo { data_type: OdbcDataType::Varchar { length } }
    }

    /// Creates `VARBINARY` type information.
    pub fn varbinary(length: Option<usize>) -> (r: Self)
        requires
            nonzero_size(length),
        ensures
            r@ == (OdbcDataType::Varbinary { length }),
            r@.wf(),
    {
        OdbcTypeInfo { data_type: OdbcDataType::Varbinary { length } }
    }

    /// Creates `DECIMAL` type information.
    pub fn decimal(precision: usize, scale: i16) -> (r: Self)
        ensures
            r@ == (OdbcDataType::Decimal { precision, scale }),
    {
        OdbcTypeInfo { data_type: OdbcDataType::Decimal { precision, scale } }
    }

    /// Creates `NUMERIC` type information.
    pub fn numeric(precision: usize, scale: i16) -> (r: Self)
        ensures
            r@ == (OdbcDataType::Numeric { precision, scale }),
    {
        OdbcTypeInfo { data_type: OdbcDataType::Numeric { precision, scale } }
    }

    /// The SQL name of the type, as reported through `TypeInfo::name`.
    pub fn name(&self) -> (r: &'static str)
        ensures
            r@ == self@.sql_name(),
    {
        self.data_type.name()
    }
}

/// The Rust types that can be bound to and read from ODBC values.
#[derive(Clone, Copy, Debug, PartialEq, Eq, Structural)]
pub enum SqlxType {
    I8,
    I16,
    I32,
    I64,
    U8,
    U16,
    U32,
    U64,
    Bool,
    F32,
    F64,
    /// `str` and `&str`.
    Str,
    /// `String`.
    String,
    /// `[u8]` and `&[u8]`.
    Bytes,
    /// `Vec<u8>`.
    ByteVec,
    BigDecimal,
    NaiveDate,
    NaiveTime,
    NaiveDateTime,
    DateTimeUtc,
    DateTimeFixedOffset,
    DateTimeLocal,
    Uuid,
}

impl SqlxType {
    /// The SQL type that a value of this Rust type is bound as.
    pub open spec fn spec_type_info(self) -> OdbcDataType {
        match self {
            SqlxType::I8 | SqlxType::U8 => OdbcDataType::TinyInt,
            SqlxType::I16 | SqlxType::U16 => OdbcDataType::SmallInt,
            SqlxType::I32 | SqlxType::U32 => OdbcDataType::Integer,
            SqlxType::I64 | SqlxType::U64 => OdbcDataType::BigInt,
            SqlxType::Bool => OdbcDataType::Bit,
            SqlxType::F32 => OdbcDataType::Real,
            SqlxType::F64 => OdbcDataType::Double,
            SqlxType::Str | SqlxType::String => OdbcDataType::WVarchar { length: None },
            SqlxType::Bytes | SqlxType::ByteVec => OdbcDataType::Varbinary { length: None },
            SqlxType::BigDecimal => OdbcDataType::Numeric { precision: 28, scale: 4 },
            SqlxType::NaiveDate => OdbcDataType::Date,
            SqlxType::NaiveTime => OdbcDataType::Time { precision: 0 },
            SqlxType::NaiveDateTime
            | SqlxType::DateTimeUtc
            | SqlxType::DateTimeFixedOffset
            | SqlxType::DateTimeLocal => OdbcDataType::Timestamp { precision: 0 },
            SqlxType::Uuid => OdbcDataType::Varchar { length: Some(36) },
        }
    }

    /// The signed integer Rust types.
    pub open spec fn is_signed_integer(self) -> bool {
        ||| self is I8
        ||| self is I16
        ||| self is I32
        ||| self is I64
    }

    /// The integer Rust types, signed and unsigned.
    pub open spec fn is_integer(self) -> bool {
        ||| self.is_signed_integer()
        ||| self is U8
        ||| self is U16
        ||| self is U32
        ||| self is U64
    }

    /// The width in bits of an integer Rust type; zero for the others.
    pub open spec fn integer_bits(self) -> int {
        match self {
            SqlxType::I8 | SqlxType::U8 => 8,
            SqlxType::I16 | SqlxType::U16 => 16,
            SqlxType::I32 | SqlxType::U32 => 32,
            SqlxType::I64 | SqlxType::U64 => 64,
            _ => 0,
        }
    }

    /// The Rust types that hold numbers: the integers, `bool`, the floats and `BigDecimal`.
    pub open spec fn is_number(self) -> bool {
        ||| self.is_integer()
        ||| self is Bool
        ||| self is F32
        ||| self is F64
        ||| self is BigDecimal
    }

    /// Whether a column of type `ty` can be decoded into this Rust type.
    pub open spec fn spec_compatible(self, ty: OdbcDataType) -> bool {
        match self {
            SqlxType::I8 | SqlxType::I16 | SqlxType::I32 | SqlxType::I64 | SqlxType::U8 =>
                ty.is_integer() || ty is Numeric || ty is Decimal || ty.is_character(),
            SqlxType::U16 =>
                ty is SmallInt || ty is Integer || ty is BigInt || ty is Numeric || ty is Decimal
                    || ty.is_character(),
            SqlxType::U32 | SqlxType::U64 =>
                ty is Integer || ty is BigInt || ty is Numeric || ty is Decimal || ty.is_character(),
            SqlxType::Bool | SqlxType::F32 | SqlxType::F64 => ty.is_numeric() || ty.is_character(),
            SqlxType::Str => ty.is_character(),
            SqlxType::Bytes => ty.is_binary(),
            SqlxType::String | SqlxType::ByteVec => ty == self.spec_type_info(),
            SqlxType::BigDecimal =>
                ty is Numeric || ty is Decimal || ty is Double || ty is Float || ty.is_character(),
            SqlxType::NaiveDate =>
                ty is Date || ty.is_character() || ty.is_numeric() || ty is Other || ty is Unknown,
            SqlxType::NaiveTime =>
                ty is Time || ty.is_character() || ty.is_numeric() || ty is Other || ty is Unknown,
            SqlxType::NaiveDateTime | SqlxType::DateTimeUtc | SqlxType::DateTimeFixedOffset =>
                ty is Timestamp || ty.is_character() || ty.is_numeric() || ty is Other
                    || ty is Unknown,
            SqlxType::DateTimeLocal =>
                ty is Timestamp || ty.is_character() || ty is Other || ty is Unknown,
            SqlxType::Uuid => ty.is_character() || ty.is_binary() || ty is Other || ty is Unknown,
        }
    }

    /// Returns the type information a value of this Rust type is bound with.
    pub fn type_info(self) -> (r: OdbcTypeInfo)
        ensures
            r@ == self.spec_type_info(),
            r@.wf(),
    {
        let data_type = match self {
            SqlxType::I8 | SqlxType::U8 => OdbcDataType::TinyInt,
            SqlxType::I16 | SqlxType::U16 => OdbcDataType::SmallInt,
            SqlxType::I32 | SqlxType::U32 => OdbcDataType::Integer,
            SqlxType::I64 | SqlxType::U64 => OdbcDataType::BigInt,
            SqlxType::Bool => OdbcDataType::Bit,
            SqlxType::F32 => OdbcDataType::Real,
            SqlxType::F64 => OdbcDataType::Double,
            SqlxType::Str | SqlxType::String => OdbcDataType::WVarchar { length: None },
            SqlxType::Bytes | SqlxType::ByteVec => OdbcDataType::Varbinary { length: None },
            SqlxType::BigDecimal => OdbcDataType::Numeric { precision: 28, scale: 4 },
            SqlxType::NaiveDate => OdbcDataType::Date,
            SqlxType::NaiveTime => OdbcDataType::Time { precision: 0 },
            SqlxType::NaiveDateTime
            | SqlxType::DateTimeUtc
            | SqlxType::DateTimeFixedOffset
            | SqlxType::DateTimeLocal => OdbcDataType::Timestamp { precision: 0 },
            SqlxType::Uuid => OdbcDataType::Varchar { length: Some(36) },
        };
        OdbcTypeInfo::new(data_type)
    }

    /// Returns whether a column of type `ty` can be decoded into this Rust type.
    pub fn compatible(self, ty: &OdbcTypeInfo) -> (r: bool)
        ensures
            r == self.spec_compatible(ty@),
            (self.is_signed_integer() && ty@.is_integer()) ==> r,
    {
        let dt = ty.data_type();
        let character = dt.accepts_character_data();
        let binary = dt.accepts_binary_data();
        let numeric = dt.accepts_numeric_data();
        let integer = match dt {
            OdbcDataType::TinyInt
            | OdbcDataType::SmallInt
            | OdbcDataType::Integer
            | OdbcDataType::BigInt => true,
            _ => false,
        };
        let exact = match dt {
            OdbcDataType::Numeric { .. } | OdbcDataType::Decimal { .. } => true,
            _ => false,
        };
        let other_or_unknown = match dt {
            OdbcDataType::Other { .. } | OdbcDataType::Unknown => true,
            _ => false,
        };
        match self {
            SqlxType::I8 | SqlxType::I16 | SqlxType::I32 | SqlxType::I64 | SqlxType::U8 =>
                integer || exact || character,
            SqlxType::U16 => match dt {
                OdbcDataType::SmallInt | OdbcDataType::Integer | OdbcDataType::BigInt => true,
                _ => exact || character,
            },
            SqlxType::U32 | SqlxType::U64 => match dt {
                OdbcDataType::Integer | OdbcDataType::BigInt => true,
                _ => exact || character,
            },
            SqlxType::Bool | SqlxType::F32 | SqlxType::F64 => numeric || character,
            SqlxType::Str => character,
            SqlxType::Bytes => binary,
            SqlxType::String => dt == (OdbcDataType::WVarchar { length: None }),
            SqlxType::ByteVec => dt == (OdbcDataType::Varbinary { length: None }),
            SqlxType::BigDecimal => match dt {
                OdbcDataType::Double | OdbcDataType::Float { .. } => true,
                _ => exact || character,
            },
            SqlxType::NaiveDate => match dt {
                OdbcDataType::Date => true,
                _ => character || numeric || other_or_unknown,
            },
            SqlxType::NaiveTime => match dt {
                OdbcDataType::Time { .. } => true,
                _ => character || numeric || other_or_unknown,
            },
            SqlxType::NaiveDateTime | SqlxType::DateTimeUtc | SqlxType::DateTimeFixedOffset =>
                match dt {
                OdbcDataType::Timestamp { .. } => true,
                _ => character || numeric || other_or_unknown,
            },
            SqlxType::DateTimeLocal => match dt {
                OdbcDataType::Timestamp { .. } => true,
                _ => character || other_or_unknown,
            },
            SqlxType::Uuid => character || binary || other_or_unknown,
        }
    }
}

/// Every Rust type but `bool` accepts the very SQL type it is bound as; `BIT`,
/// the type a `bool` is bound as, is neither numeric nor character data and so is
/// not among the types a `bool` is decoded from.
pub proof fn lemma_type_info_is_compatible(t: SqlxType)
    ensures
        t != SqlxType::Bool ==> t.spec_compatible(t.spec_type_info()),
        !SqlxType::Bool.spec_compatible(SqlxType::Bool.spec_type_info()),
{
}

/// Integer columns decode into integers: every signed integer type and `u8` accept each integer
/// column, `u16` every one but `TINYINT`, and `u32` and `u64` only `INTEGER` and `BIGINT`. Every
/// integer Rust type accepts character data, and every type that holds numbers accepts decimals.
/// No integer Rust type accepts binary data, dates, times or timestamps.
pub proof fn lemma_integer_types_decode_integer_columns(t: SqlxType, ty: OdbcDataType)
    ensures
        (t.is_signed_integer() || t is U8) && ty.is_integer() ==> t.spec_compatible(ty),
        t is U16 && ty.is_integer() ==> (t.spec_compatible(ty) <==> ty.integer_bits() >= 16),
        (t is U32 || t is U64) && ty.is_integer() ==> (t.spec_compatible(ty) <==> ty.integer_bits()
            >= 32),
        t.is_integer() && ty.is_character() ==> t.spec_compatible(ty),
        t.is_number() && (ty is Numeric || ty is Decimal) ==> t.spec_compatible(ty),
        t.is_integer() && t.spec_compatible(ty) ==> (ty.is_integer() || ty is Numeric
            || ty is Decimal || ty.is_character()),
{
}

/// Character columns decode into every Rust type but the byte types, `String` (which asks for
/// `NVARCHAR` exactly) and `u8` slices; binary columns decode into byte slices and UUIDs, and
/// into `Vec<u8>` where they are `VARBINARY` without a length, and into nothing else.
pub proof fn lemma_text_and_bytes_decode(t: SqlxType, ty: OdbcDataType)
    ensures
        ty.is_character() && !(t is Bytes || t is ByteVec || t is String) ==> t.spec_compatible(
            ty,
        ),
        ty.is_binary() ==> (t.spec_compatible(ty) <==> (t is Bytes || t is Uuid || (t is ByteVec
            && ty == (OdbcDataType::Varbinary { length: None })))),
{
}

/// Each Rust type is bound as a SQL type of its own kind: integers as the integer type of their
/// width, floats and decimals as numeric types, strings as wide character data, byte slices and
/// vectors as binary data, and dates, times and timestamps as themselves.
pub proof fn lemma_type_info_by_kind(t: SqlxType)
    ensures
        t.is_integer() <==> t.spec_type_info().is_integer(),
        t.is_integer() ==> t.spec_type_info().integer_bits() == t.integer_bits(),
        (t is F32 || t is F64 || t is BigDecimal) ==> (t.spec_type_info().is_numeric()
            && !t.spec_type_info().is_integer()),
        (t is Str || t is String) ==> t.spec_type_info().is_wide_character(),
        (t is Bytes || t is ByteVec) <==> t.spec_type_info().is_binary(),
        t is Bool <==> t.spec_type_info() is Bit,
        t is NaiveDate <==> t.spec_type_info() is Date,
        t is NaiveTime <==> t.spec_type_info() is Time,
        (t is NaiveDateTime || t is DateTimeUtc || t is DateTimeFixedOffset || t is DateTimeLocal)
            <==> t.spec_type_info() is Timestamp,
        t.spec_type_info().wf(),
{
}

/// Character, binary and numeric data are disjoint groups of types.
pub proof fn lemma_data_groups_disjoint(ty: OdbcDataType)
    ensures
        !(ty.is_character() && ty.is_binary()),
        !(ty.is_character() && ty.is_numeric()),
        !(ty.is_binary() && ty.is_numeric()),
{
}

} // verus!
