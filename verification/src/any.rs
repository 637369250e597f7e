use vstd::prelude::*;
use crate::arguments::{OdbcArgumentValue, OdbcArguments};
use crate::data_type::{DataTypeExt, OdbcDataType};
use crate::type_info::OdbcTypeInfo;

verus! {

/// The kinds of type that the SQLx `Any` driver knows.
#[derive(Debug, Clone, Copy, PartialEq, Eq, Structural)]
pub enum AnyKind {
    Null,
    Bool,
    SmallInt,
    Integer,
    BigInt,
    Real,
    Double,
    Text,
    Blob,
}

/// An argument of the `Any` driver. Floats are held by the bits of the `f64` they are bound as
/// (a 32 bit float widened).
#[derive(Debug, Clone, PartialEq, Eq)]
pub enum AnyArgument {
    Null(AnyKind),
    Bool(bool),
    SmallInt(i16),
    Integer(i32),
    BigInt(i64),
    Float(u64),
    Text(String),
    Blob(Vec<u8>),
}

/// The `Any` kind a column of the given type reads as, if any: character data as text,
/// binary data as blobs, and the numeric types as the kind of their width.
pub open spec fn spec_any_kind(data_type: OdbcDataType) -> Option<AnyKind> {
    match data_type {
        OdbcDataType::Unknown => Some(AnyKind::Null),
        OdbcDataType::Bit => Some(AnyKind::Bool),
        OdbcDataType::TinyInt | OdbcDataType::SmallInt => Some(AnyKind::SmallInt),
        OdbcDataType::Integer => Some(AnyKind::Integer),
        OdbcDataType::BigInt => Some(AnyKind::BigInt),
        OdbcDataType::Real => Some(AnyKind::Real),
        OdbcDataType::Float { .. } | OdbcDataType::Double => Some(AnyKind::Double),
        _ => if data_type.is_character() {
            Some(AnyKind::Text)
        } else if data_type.is_binary() {
            Some(AnyKind::Blob)
        } else {
            None
        },
    }
}

/// Maps the type of a result column to the `Any` kind it reads as; `None` for the types the
/// `Any` driver has no kind for (dates, times, timestamps, decimals and driver specific types).
pub fn any_kind_of(type_info: &OdbcTypeInfo) -> (r: Option<AnyKind>)
    ensures
        r == spec_any_kind(type_info@),
        type_info@.is_character() ==> r == Some(AnyKind::Text),
        type_info@.is_binary() ==> r == Some(AnyKind::Blob),
{
    let data_type = type_info.data_type();
    match data_type {
        OdbcDataType::Unknown => Some(AnyKind::Null),
        OdbcDataType::Bit => Some(AnyKind::Bool),
        OdbcDataType::TinyInt | OdbcDataType::SmallInt => Some(AnyKind::SmallInt),
        OdbcDataType::Integer => Some(AnyKind::Integer),
        OdbcDataType::BigInt => Some(AnyKind::BigInt),
        OdbcDataType::Real => Some(AnyKind::Real),
        OdbcDataType::Float { .. } | OdbcDataType::Double => Some(AnyKind::Double),
        _ => if data_type.accepts_character_data() {
            Some(AnyKind::Text)
        } else if data_type.accepts_binary_data() {
            Some(AnyKind::Blob)
        } else {
            None
        },
    }
}

/// The ODBC type an `Any` kind is bound as.
pub open spec fn spec_any_type_to_odbc(kind: AnyKind) -> OdbcDataType {
    match kind {
        AnyKind::Null => OdbcDataType::Unknown,
        AnyKind::Bool => OdbcDataType::Bit,
        AnyKind::SmallInt => OdbcDataType::SmallInt,
        AnyKind::Integer => OdbcDataType::Integer,
        AnyKind::BigInt => OdbcDataType::BigInt,
        AnyKind::Real => OdbcDataType::Real,
        AnyKind::Double => OdbcDataType::Double,
        AnyKind::Text => OdbcDataType::WVarchar { length: None },
        AnyKind::Blob => OdbcDataType::Varbinary { length: None },
    }
}

/// Returns the type information an `Any` kind is bound as.
pub fn any_type_to_odbc(kind: AnyKind) -> (r: OdbcTypeInfo)
    ensures
        r@ == spec_any_type_to_odbc(kind),
{
    OdbcTypeInfo::new(
        match kind {
            AnyKind::Null => OdbcDataType::Unknown,
            AnyKind::Bool => OdbcDataType::Bit,
            AnyKind::SmallInt => OdbcDataType::SmallInt,
            AnyKind::Integer => OdbcDataType::Integer,
            AnyKind::BigInt => OdbcDataType::BigInt,
            AnyKind::Real => OdbcDataType::Real,
            AnyKind::Double => OdbcDataType::Double,
            AnyKind::Text => OdbcDataType::WVarchar { length: None },
            AnyKind::Blob => OdbcDataType::Varbinary { length: None },
        },
    )
}

/// The width in bits of the integer `Any` kinds; zero for the others.
pub open spec fn any_integer_bits(kind: AnyKind) -> int {
    match kind {
        AnyKind::SmallInt => 16,
        AnyKind::Integer => 32,
        AnyKind::BigInt => 64,
        _ => 0,
    }
}

/// Character data reads as text and binary data as blobs; integer columns read as an integer
/// kind wide enough for their values, and the floating point types as floats. The `Any` driver
/// has no kind for exactly dates, times, timestamps, decimals and driver specific types.
pub proof fn lemma_any_kind_by_group(t: OdbcDataType)
    ensures
        t.is_character() <==> spec_any_kind(t) == Some(AnyKind::Text),
        t.is_binary() <==> spec_any_kind(t) == Some(AnyKind::Blob),
        spec_any_kind(t) is None <==> (t is Date || t is Time || t is Timestamp || t is Decimal
            || t is Numeric || t is Other),
        t.is_integer() <==> (spec_any_kind(t) matches Some(k) && any_integer_bits(k) > 0),
        t.is_integer() ==> (spec_any_kind(t) matches Some(k) && any_integer_bits(k)
            >= t.integer_bits()),
        (t is Real || t is Float || t is Double) <==> (spec_any_kind(t) == Some(AnyKind::Real)
            || spec_any_kind(t) == Some(AnyKind::Double)),
        t is Bit <==> spec_any_kind(t) == Some(AnyKind::Bool),
        t is Unknown <==> spec_any_kind(t) == Some(AnyKind::Null),
{
}

/// Every `Any` kind is bound as a type that reads back as the same kind.
pub proof fn lemma_any_kind_round_trip(kind: AnyKind)
    ensures
        spec_any_kind(spec_any_type_to_odbc(kind)) == Some(kind),
{
}

/// The argument value an `Any` argument is bound as.
pub open spec fn is_argument_of(argument: AnyArgument, value: OdbcArgumentValue) -> bool {
    match argument {
        AnyArgument::Null(kind) => (value matches OdbcArgumentValue::Null(t) && t@
            == spec_any_type_to_odbc(kind)),
        AnyArgument::Bool(b) => value == OdbcArgumentValue::Bit(b),
        AnyArgument::SmallInt(v) => value == OdbcArgumentValue::Int(v as i64),
        AnyArgument::Integer(v) => value == OdbcArgumentValue::Int(v as i64),
        AnyArgument::BigInt(v) => value == OdbcArgumentValue::Int(v),
        AnyArgument::Float(bits) => value == OdbcArgumentValue::Float(bits),
        AnyArgument::Text(s) => (value matches OdbcArgumentValue::Text(t) && t@ == s@),
        AnyArgument::Blob(b) => (value matches OdbcArgumentValue::Bytes(v) && v@ == b@),
    }
}

/// Converts one `Any` argument.
pub fn map_argument(argument: AnyArgument) -> (r: OdbcArgumentValue)
    ensures
        is_argument_of(argument, r),
{
    match argument {
        AnyArgument::Null(kind) => OdbcArgumentValue::Null(any_type_to_odbc(kind)),
        AnyArgument::Bool(b) => OdbcArgumentValue::Bit(b),
        AnyArgument::SmallInt(v) => OdbcArgumentValue::Int(v as i64),
        AnyArgument::Integer(v) => OdbcArgumentValue::Int(v as i64),
        AnyArgument::BigInt(v) => OdbcArgumentValue::Int(v),
        AnyArgument::Float(bits) => OdbcArgumentValue::Float(bits),
        AnyArgument::Text(s) => OdbcArgumentValue::Text(s),
        AnyArgument::Blob(b) => OdbcArgumentValue::Bytes(b),
    }
}

/// Converts the arguments of the `Any` driver, keeping their order.
pub fn map_arguments(arguments: Vec<AnyArgument>) -> (r: OdbcArguments)
    ensures
        r@.len() == arguments@.len(),
        forall|i: int| 0 <= i < arguments@.len() ==> is_argument_of(#[trigger] arguments@[i], r@[i]),
{
    let mut rest = arguments;
    let ghost all = rest@;
    let mut reversed: Vec<AnyArgument> = Vec::new();
    while rest.len() > 0
        invariant
            rest@ == all.take(rest.len() as int),
            rest.len() + reversed.len() == all.len(),
            forall|j: int| 0 <= j < reversed.len() ==> #[trigger] reversed@[j] == all[all.len() - 1 - j],
        decreases rest.len(),
    {
        let a = rest.pop().unwrap();
        reversed.push(a);
        assert(rest@ =~= all.take(rest.len() as int));
    }
    let mut out = OdbcArguments::new();
    let ghost n = all.len();
    while reversed.len() > 0
        invariant
            n == all.len(),
            reversed.len() + out@.len() == n,
            forall|j: int| 0 <= j < reversed.len() ==> #[trigger] reversed@[j] == all[n - 1 - j],
            forall|i: int| 0 <= i < out@.len() ==> is_argument_of(#[trigger] all[i], out@[i]),
        decreases reversed.len(),
    {
        let ghost j = reversed.len() - 1;
        assert(reversed@[j] == all[n - 1 - j]);
        let a = reversed.pop().unwrap();
        out.add_value(map_argument(a));
    }
    out
}

} // verus!
