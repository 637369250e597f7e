use vstd::prelude::*;
use crate::data_type::OdbcDataType;
use crate::temporal::{CalendarDate, CalendarDateTime, ClockTime, OdbcDate, OdbcTime, OdbcTimestamp,
    date_from_naive, time_from_naive, timestamp_from_naive, spec_timestamp_from_naive};
use crate::type_info::{OdbcTypeInfo, SqlxType};

verus! {

/// Values that can be bound to ODBC parameters. Floats are held by the bits of an `f64`.
#[derive(Debug, Clone, PartialEq)]
pub enum OdbcArgumentValue {
    /// UTF-8 text parameter.
    Text(String),
    /// Binary parameter.
    Bytes(Vec<u8>),
    /// Signed integer parameter.
    Int(i64),
    /// Unsigned integer parameter.
    UInt(u64),
    /// Boolean parameter.
    Bit(bool),
    /// Floating point parameter, as the bits of an `f64`.
    Float(u64),
    /// Date parameter.
    Date(OdbcDate),
    /// Time parameter.
    Time(OdbcTime),
    /// Timestamp parameter.
    Timestamp(OdbcTimestamp),
    /// Typed NULL parameter.
    Null(OdbcTypeInfo),
}

/// Argument buffer for ODBC queries.
#[derive(Debug, Default, Clone, PartialEq)]
pub struct OdbcArguments {
    values: Vec<OdbcArgumentValue>,
}

impl View for OdbcArguments {
    type V = Seq<OdbcArgumentValue>;

    closed spec fn view(&self) -> Seq<OdbcArgumentValue> {
        self.values@
    }
}

impl OdbcArguments {
    /// An empty argument buffer.
    pub fn new() -> (r: Self)
        ensures
            r@ == Seq::<OdbcArgumentValue>::empty(),
    {
        OdbcArguments { values: Vec::new() }
    }

    /// Adds a raw ODBC argument value.
    pub fn add_value(&mut self, value: OdbcArgumentValue)
        ensures
            final(self)@ == old(self)@.push(value),
    {
        self.values.push(value);
    }

    /// Returns the number of arguments.
    pub fn len(&self) -> (r: usize)
        ensures
            r == self@.len(),
    {
        self.values.len()
    }

    /// Returns `true` when no arguments have been added.
    pub fn is_empty(&self) -> (r: bool)
        ensures
            r == (self@.len() == 0),
    {
        self.values.len() == 0
    }

    /// Returns the raw argument values.
    pub fn values(&self) -> (r: &[OdbcArgumentValue])
        ensures
            r@ == self@,
    {
        self.values.as_slice()
    }

    /// Makes room for `additional` more arguments; the arguments do not change.
    pub fn reserve(&mut self, additional: usize)
        ensures
            final(self)@ == old(self)@,
    {
        self.values.reserve(additional);
    }
}

/// How an unsigned 64 bit integer is bound: as a signed integer when it fits one, else as an
/// unsigned integer.
pub fn encode_u64(value: u64) -> (r: OdbcArgumentValue)
    ensures
        value <= i64::MAX ==> r == OdbcArgumentValue::Int(value as i64),
        value > i64::MAX ==> r == OdbcArgumentValue::UInt(value),
{
    if value <= 0x7fff_ffff_ffff_ffff {
        OdbcArgumentValue::Int(value as i64)
    } else {
        OdbcArgumentValue::UInt(value)
    }
}

/// A NULL bound with the type of the Rust type it stands for.
pub fn encode_null(ty: SqlxType) -> (r: OdbcArgumentValue)
    ensures
        r matches OdbcArgumentValue::Null(t) && t@ == ty.spec_type_info(),
{
    OdbcArgumentValue::Null(ty.type_info())
}

/// How a date is bound.
pub fn encode_date(value: CalendarDate) -> (r: OdbcArgumentValue)
    ensures
        r == OdbcArgumentValue::Date(OdbcDate {
            year: value.year as i16,
            month: value.month as u16,
            day: value.day as u16,
        }),
{
    OdbcArgumentValue::Date(date_from_naive(value))
}

/// How a time of day is bound; the fraction of the second is dropped.
pub fn encode_time(value: ClockTime) -> (r: OdbcArgumentValue)
    ensures
        r == OdbcArgumentValue::Time(OdbcTime {
            hour: value.hour as u16,
            minute: value.minute as u16,
            second: value.second as u16,
        }),
{
    OdbcArgumentValue::Time(time_from_naive(value))
}

/// How a date and time is bound.
pub fn encode_timestamp(value: CalendarDateTime) -> (r: OdbcArgumentValue)
    ensures
        r == OdbcArgumentValue::Timestamp(spec_timestamp_from_naive(value)),
{
    OdbcArgumentValue::Timestamp(timestamp_from_naive(value))
}

/// The buffer a typed NULL parameter is bound with. The variants that carry a data type bind
/// with that data type; the others bind with the type of their buffer.
#[derive(Debug, Clone, Copy, PartialEq, Eq, Structural)]
pub enum NullParameter {
    I8,
    I16,
    I32,
    I64,
    Bit,
    F32,
    F64,
    /// An `f64` buffer described as the given type.
    F64As(OdbcDataType),
    Date,
    /// A time buffer described as the given type.
    TimeAs(OdbcDataType),
    /// A timestamp buffer described as the given type.
    TimestampAs(OdbcDataType),
    /// A variable sized binary buffer described as the given type.
    BinaryAs(OdbcDataType),
    /// A UTF-16 text buffer described as the given type.
    WideTextAs(OdbcDataType),
    /// A narrow text buffer described as the given type.
    TextAs(OdbcDataType),
}

/// The NULL parameter for a data type: the fixed size buffer of the type where there is one,
/// else a buffer described as the requested type (wide text for wide character types, narrow
/// text for every other type without a buffer of its own).
pub open spec fn spec_null_parameter(data_type: OdbcDataType) -> NullParameter {
    match data_type {
        OdbcDataType::TinyInt => NullParameter::I8,
        OdbcDataType::SmallInt => NullParameter::I16,
        OdbcDataType::Integer => NullParameter::I32,
        OdbcDataType::BigInt => NullParameter::I64,
        OdbcDataType::Bit => NullParameter::Bit,
        OdbcDataType::Real => NullParameter::F32,
        OdbcDataType::Double => NullParameter::F64,
        OdbcDataType::Float { .. } => NullParameter::F64As(data_type),
        OdbcDataType::Date => NullParameter::Date,
        OdbcDataType::Time { .. } => NullParameter::TimeAs(data_type),
        OdbcDataType::Timestamp { .. } => NullParameter::TimestampAs(data_type),
        OdbcDataType::Varbinary { .. } | OdbcDataType::LongVarbinary { .. }
        | OdbcDataType::Binary { .. } => NullParameter::BinaryAs(data_type),
        OdbcDataType::WVarchar { .. } | OdbcDataType::WLongVarchar { .. }
        | OdbcDataType::WChar { .. } => NullParameter::WideTextAs(data_type),
        _ => NullParameter::TextAs(data_type),
    }
}

/// The SQL type a NULL parameter is described as: that of its buffer, or the one it carries.
pub open spec fn null_parameter_data_type(parameter: NullParameter) -> OdbcDataType {
    match parameter {
        NullParameter::I8 => OdbcDataType::TinyInt,
        NullParameter::I16 => OdbcDataType::SmallInt,
        NullParameter::I32 => OdbcDataType::Integer,
        NullParameter::I64 => OdbcDataType::BigInt,
        NullParameter::Bit => OdbcDataType::Bit,
        NullParameter::F32 => OdbcDataType::Real,
        NullParameter::F64 => OdbcDataType::Double,
        NullParameter::Date => OdbcDataType::Date,
        NullParameter::F64As(t) => t,
        NullParameter::TimeAs(t) => t,
        NullParameter::TimestampAs(t) => t,
        NullParameter::BinaryAs(t) => t,
        NullParameter::WideTextAs(t) => t,
        NullParameter::TextAs(t) => t,
    }
}

/// A NULL parameter whose buffer has a fixed size layout of its own.
pub open spec fn is_fixed_null_parameter(parameter: NullParameter) -> bool {
    ||| parameter is I8
    ||| parameter is I16
    ||| parameter is I32
    ||| parameter is I64
    ||| parameter is Bit
    ||| parameter is F32
    ||| parameter is F64
    ||| parameter is Date
}

/// A typed NULL is bound as its own SQL type: with the fixed size buffer of that type where the
/// type has a fixed layout, else with a buffer of its kind of data described as that type (bytes
/// for binary data, UTF-16 text for wide character data, times and timestamps as themselves, a
/// `FLOAT(p)` as an `f64`, narrow text for everything else).
pub proof fn lemma_null_parameter_keeps_type(t: OdbcDataType)
    ensures
        null_parameter_data_type(spec_null_parameter(t)) == t,
        t.has_fixed_layout() <==> is_fixed_null_parameter(spec_null_parameter(t)),
        t.is_binary() <==> spec_null_parameter(t) is BinaryAs,
        t.is_wide_character() <==> spec_null_parameter(t) is WideTextAs,
        t is Time <==> spec_null_parameter(t) is TimeAs,
        t is Timestamp <==> spec_null_parameter(t) is TimestampAs,
        t is Float <==> spec_null_parameter(t) is F64As,
        (t.is_character() && !t.is_wide_character()) ==> spec_null_parameter(t) is TextAs,
        (t is Decimal || t is Numeric || t is Unknown || t is Other) ==> spec_null_parameter(t)
            is TextAs,
{
}

/// Chooses the buffer of a NULL parameter of the given type.
pub fn null_parameter(data_type: OdbcDataType) -> (r: NullParameter)
    ensures
        r == spec_null_parameter(data_type),
        null_parameter_data_type(r) == data_type,
        data_type.has_fixed_layout() ==> is_fixed_null_parameter(r),
{
    match data_type {
        OdbcDataType::TinyInt => NullParameter::I8,
        OdbcDataType::SmallInt => NullParameter::I16,
        OdbcDataType::Integer => NullParameter::I32,
        OdbcDataType::BigInt => NullParameter::I64,
        OdbcDataType::Bit => NullParameter::Bit,
        OdbcDataType::Real => NullParameter::F32,
        OdbcDataType::Double => NullParameter::F64,
        OdbcDataType::Float { .. } => NullParameter::F64As(data_type),
        OdbcDataType::Date => NullParameter::Date,
        OdbcDataType::Time { .. } => NullParameter::TimeAs(data_type),
        OdbcDataType::Timestamp { .. } => NullParameter::TimestampAs(data_type),
        OdbcDataType::Varbinary { .. }
        | OdbcDataType::LongVarbinary { .. }
        | OdbcDataType::Binary { .. } => NullParameter::BinaryAs(data_type),
        OdbcDataType::WVarchar { .. }
        | OdbcDataType::WLongVarchar { .. }
        | OdbcDataType::WChar { .. } => NullParameter::WideTextAs(data_type),
        OdbcDataType::Char { .. }
        | OdbcDataType::Varchar { .. }
        | OdbcDataType::LongVarchar { .. }
        | OdbcDataType::Numeric { .. }
        | OdbcDataType::Decimal { .. }
        | OdbcDataType::Unknown
        | OdbcDataType::Other { .. } => NullParameter::TextAs(data_type),
    }
}

/// The parameter an argument value is bound as.
#[derive(Debug, Clone, Copy, PartialEq, Eq, Structural)]
pub enum ParameterPlan {
    /// Narrow text.
    Text,
    /// Variable sized binary.
    Bytes,
    /// A nullable 64 bit signed integer.
    Int,
    /// A nullable 64 bit unsigned integer described as `BIGINT`.
    UIntAsBigInt,
    /// A bit.
    Bit,
    /// A nullable `f64`.
    Float,
    /// A nullable date.
    Date,
    /// A nullable time described as `TIME(0)`.
    TimeWithPrecision(i16),
    /// A nullable timestamp described as `TIMESTAMP(9)`.
    TimestampWithPrecision(i16),
    /// A typed NULL.
    Null(NullParameter),
}

/// The parameter each argument value is bound as: times with precision 0, timestamps with
/// nanosecond precision 9, typed NULLs as `spec_null_parameter` chooses.
pub open spec fn spec_parameter_plan(value: OdbcArgumentValue) -> ParameterPlan {
    match value {
        OdbcArgumentValue::Text(_) => ParameterPlan::Text,
        OdbcArgumentValue::Bytes(_) => ParameterPlan::Bytes,
        OdbcArgumentValue::Int(_) => ParameterPlan::Int,
        OdbcArgumentValue::UInt(_) => ParameterPlan::UIntAsBigInt,
        OdbcArgumentValue::Bit(_) => ParameterPlan::Bit,
        OdbcArgumentValue::Float(_) => ParameterPlan::Float,
        OdbcArgumentValue::Date(_) => ParameterPlan::Date,
        OdbcArgumentValue::Time(_) => ParameterPlan::TimeWithPrecision(0),
        OdbcArgumentValue::Timestamp(_) => ParameterPlan::TimestampWithPrecision(9),
        OdbcArgumentValue::Null(t) => ParameterPlan::Null(spec_null_parameter(t@)),
    }
}

/// Chooses the parameter an argument value is bound as.
pub fn parameter_plan(value: &OdbcArgumentValue) -> (r: ParameterPlan)
    ensures
        r == spec_parameter_plan(*value),
{
    match value {
        OdbcArgumentValue::Text(_) => ParameterPlan::Text,
        OdbcArgumentValue::Bytes(_) => ParameterPlan::Bytes,
        OdbcArgumentValue::Int(_) => ParameterPlan::Int,
        OdbcArgumentValue::UInt(_) => ParameterPlan::UIntAsBigInt,
        OdbcArgumentValue::Bit(_) => ParameterPlan::Bit,
        OdbcArgumentValue::Float(_) => ParameterPlan::Float,
        OdbcArgumentValue::Date(_) => ParameterPlan::Date,
        OdbcArgumentValue::Time(_) => ParameterPlan::TimeWithPrecision(0),
        OdbcArgumentValue::Timestamp(_) => ParameterPlan::TimestampWithPrecision(9),
        OdbcArgumentValue::Null(t) => ParameterPlan::Null(null_parameter(t.data_type())),
    }
}

/// Whether a parameter bound by the given plan reports the SQL type `data_type`: narrow text as
/// character data, binary data as `VARBINARY`, both integer buffers as `BIGINT`, floats as
/// `DOUBLE`, and the others as the type they hold or carry.
pub open spec fn plan_reports_type(plan: ParameterPlan, data_type: OdbcDataType) -> bool {
    match plan {
        ParameterPlan::Text => data_type.is_character(),
        ParameterPlan::Bytes => data_type is Varbinary,
        ParameterPlan::Int | ParameterPlan::UIntAsBigInt => data_type == OdbcDataType::BigInt,
        ParameterPlan::Bit => data_type == OdbcDataType::Bit,
        ParameterPlan::Float => data_type == OdbcDataType::Double,
        ParameterPlan::Date => data_type == OdbcDataType::Date,
        ParameterPlan::TimeWithPrecision(p) => data_type == (OdbcDataType::Time { precision: p }),
        ParameterPlan::TimestampWithPrecision(p) => data_type == (OdbcDataType::Timestamp {
            precision: p,
        }),
        ParameterPlan::Null(n) => data_type == null_parameter_data_type(n),
    }
}

/// The SQL types an argument value may be sent as: text as character data, bytes as
/// `VARBINARY`, signed and unsigned integers as `BIGINT`, booleans as `BIT`, floats as `DOUBLE`,
/// dates as `DATE`, times as `TIME(0)`, timestamps as `TIMESTAMP(9)` and a typed NULL as its type.
pub open spec fn argument_sent_as(value: OdbcArgumentValue, data_type: OdbcDataType) -> bool {
    match value {
        OdbcArgumentValue::Text(_) => data_type.is_character(),
        OdbcArgumentValue::Bytes(_) => data_type is Varbinary,
        OdbcArgumentValue::Int(_) | OdbcArgumentValue::UInt(_) => data_type is BigInt,
        OdbcArgumentValue::Bit(_) => data_type is Bit,
        OdbcArgumentValue::Float(_) => data_type is Double,
        OdbcArgumentValue::Date(_) => data_type is Date,
        OdbcArgumentValue::Time(_) => data_type == (OdbcDataType::Time { precision: 0 }),
        OdbcArgumentValue::Timestamp(_) => data_type == (OdbcDataType::Timestamp { precision: 9 }),
        OdbcArgumentValue::Null(t) => data_type == t@,
    }
}

/// Every argument is bound as a parameter that reports the SQL type the argument is sent as,
/// and as a NULL exactly when it is one.
pub proof fn lemma_parameter_reports_argument_type(value: OdbcArgumentValue, data_type: OdbcDataType)
    ensures
        plan_reports_type(spec_parameter_plan(value), data_type) <==> argument_sent_as(
            value,
            data_type,
        ),
        (spec_parameter_plan(value) is Null) <==> (value is Null),
{
    if let OdbcArgumentValue::Null(t) = value {
        lemma_null_parameter_keeps_type(t@);
    }
}

/// The parameters of every argument, in order.
pub fn parameter_plans(arguments: &OdbcArguments) -> (r: Vec<ParameterPlan>)
    ensures
        r.len() == arguments@.len(),
        forall|i: int| 0 <= i < r.len() ==> r@[i] == spec_parameter_plan(#[trigger] arguments@[i]),
{
    let values = arguments.values();
    let mut out: Vec<ParameterPlan> = Vec::new();
    let mut i: usize = 0;
    while i < values.len()
        invariant
            values@ == arguments@,
            i <= values.len(),
            out.len() == i,
            forall|k: int| 0 <= k < i ==> out@[k] == spec_parameter_plan(#[trigger] arguments@[k]),
        decreases values.len() - i,
    {
        out.push(parameter_plan(&values[i]));
        i += 1;
    }
    out
}

/// How a signed integer of any width up to 64 bits is bound.
pub fn encode_i64(value: i64) -> (r: OdbcArgumentValue)
    ensures
        r == OdbcArgumentValue::Int(value),
{
    OdbcArgumentValue::Int(value)
}

/// How a boolean is bound.
pub fn encode_bool(value: bool) -> (r: OdbcArgumentValue)
    ensures
        r == OdbcArgumentValue::Bit(value),
{
    OdbcArgumentValue::Bit(value)
}

/// How a float is bound, given the bits of the `f64` it is (a 32 bit float widened).
pub fn encode_f64_bits(bits: u64) -> (r: OdbcArgumentValue)
    ensures
        r == OdbcArgumentValue::Float(bits),
{
    OdbcArgumentValue::Float(bits)
}

/// How a text is bound.
pub fn encode_str(value: &str) -> (r: OdbcArgumentValue)
    ensures
        r matches OdbcArgumentValue::Text(t) && t@ == value@,
{
    OdbcArgumentValue::Text(value.to_owned())
}

/// How bytes are bound.
pub fn encode_bytes(value: &[u8]) -> (r: OdbcArgumentValue)
    ensures
        r matches OdbcArgumentValue::Bytes(b) && b@ == value@,
{
    OdbcArgumentValue::Bytes(vstd::slice::slice_to_vec(value))
}

} // verus!
