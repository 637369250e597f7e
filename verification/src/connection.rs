use vstd::prelude::*;
use vstd::utf8::{decode_utf8, encode_utf8, valid_utf8};
use crate::column::{ColumnView, OdbcColumn};
use crate::data_type::OdbcDataType;
use crate::row::OdbcRow;
use crate::error::DriverError;
use crate::temporal::{OdbcDate, OdbcTime, OdbcTimestamp};
use crate::text::{ascii_upper_seq, chars_of, contains_chars, contains_seq, to_ascii_upper_chars, decimal, with_decimal, signed_decimal, push_signed_decimal, collapse_whitespace, join_words, words, push_char, push_chars, string_from_chars, utf8_len_exceeds, lemma_encode_at_least_chars};
use crate::query_result::OdbcQueryResult;
use crate::options::OdbcBufferSettings;
use crate::value::{OdbcValue, OdbcValueKind, kind_data_type};

verus! {

/// Names of the IBM Db2 family of database systems, which need a dummy table to select from.
pub open spec fn is_db2_name(dbms_name: Seq<char>) -> bool {
    let upper = ascii_upper_seq(dbms_name);
    ||| contains_seq(upper, seq!['D', 'B', '2'])
    ||| contains_seq(upper, seq!['D', 'B', '/', '2'])
    ||| contains_seq(upper, seq!['I', 'S', 'E', 'R', 'I', 'E', 'S'])
    ||| contains_seq(upper, seq!['A', 'S', '/', '4', '0', '0'])
    ||| contains_seq(upper, seq!['I', 'B', 'M', ' ', 'I'])
}

/// The connectivity query for a database system: Db2 selects from `SYSIBM.SYSDUMMY1`, every
/// other system runs `SELECT 1`.
pub fn ping_query_for_dbms_name(dbms_name: &str) -> (r: &'static str)
    ensures
        r@ == (if is_db2_name(dbms_name@) {
            "SELECT 1 FROM SYSIBM.SYSDUMMY1"@
        } else {
            "SELECT 1"@
        }),
{
    let upper = to_ascii_upper_chars(&chars_of(dbms_name));
    let db2: Vec<char> = vec!['D', 'B', '2'];
    let db_2: Vec<char> = vec!['D', 'B', '/', '2'];
    let iseries: Vec<char> = vec!['I', 'S', 'E', 'R', 'I', 'E', 'S'];
    let as400: Vec<char> = vec!['A', 'S', '/', '4', '0', '0'];
    let ibm_i: Vec<char> = vec!['I', 'B', 'M', ' ', 'I'];
    assert(db2@ =~= seq!['D', 'B', '2'] && db_2@ =~= seq!['D', 'B', '/', '2'] && iseries@
        =~= seq!['I', 'S', 'E', 'R', 'I', 'E', 'S'] && as400@ =~= seq!['A', 'S', '/', '4', '0', '0']
        && ibm_i@ =~= seq!['I', 'B', 'M', ' ', 'I']);
    if contains_chars(&upper, &db2) || contains_chars(&upper, &db_2) || contains_chars(
        &upper,
        &iseries,
    ) || contains_chars(&upper, &as400) || contains_chars(&upper, &ibm_i) {
        "SELECT 1 FROM SYSIBM.SYSDUMMY1"
    } else {
        "SELECT 1"
    }
}

/// How the rows of a result set are fetched.
#[derive(Debug, Clone, Copy, PartialEq, Eq, Structural)]
pub enum FetchPlan {
    /// Column by column, in batches of `batch_size` rows, with variable sized values held in
    /// buffers of `max_column_size` (longer values are truncated).
    Buffered { batch_size: usize, max_column_size: usize },
    /// Row by row, reading each value whole.
    Unbuffered,
}

/// Chooses how rows are fetched: buffered exactly when a column size is configured.
pub fn fetch_plan(settings: OdbcBufferSettings) -> (r: FetchPlan)
    ensures
        settings.max_column_size matches Some(size) ==> r == (FetchPlan::Buffered {
            batch_size: settings.batch_size,
            max_column_size: size,
        }),
        settings.max_column_size is None ==> r == FetchPlan::Unbuffered,
{
    match settings.max_column_size {
        Some(max_column_size) => FetchPlan::Buffered { batch_size: settings.batch_size, max_column_size },
        None => FetchPlan::Unbuffered,
    }
}

/// The memory layout a buffered fetch binds for a column.
#[derive(Debug, Clone, Copy, PartialEq, Eq, Structural)]
pub enum BufferDesc {
    /// Variable sized binary buffer, holding up to `max_bytes` bytes per value.
    Binary { max_bytes: usize },
    /// Text buffer holding UTF-8 strings with binary length of up to `max_str_len`.
    Text { max_str_len: usize },
    /// UTF-16 text buffer holding strings with length of up to `max_str_len`.
    WText { max_str_len: usize },
    /// 64 bit floating point.
    F64 { nullable: bool },
    /// 32 bit floating point.
    F32 { nullable: bool },
    /// Dates.
    Date { nullable: bool },
    /// Times of day.
    Time { nullable: bool },
    /// Timestamps.
    Timestamp { nullable: bool },
    /// Signed 8 bit integers.
    I8 { nullable: bool },
    /// Signed 16 bit integers.
    I16 { nullable: bool },
    /// Signed 32 bit integers.
    I32 { nullable: bool },
    /// Signed 64 bit integers.
    I64 { nullable: bool },
    /// Unsigned 8 bit integers.
    U8 { nullable: bool },
    /// Single bits.
    Bit { nullable: bool },
    /// ODBC numeric structures.
    Numeric,
}

/// The buffer bound for a column of the given type: integers as nullable 64 bit integers,
/// binary and character data (and every type without a fixed layout) as variable sized
/// buffers of `max_column_size`.
pub open spec fn spec_map_buffer_desc(data_type: OdbcDataType, max_column_size: usize) -> BufferDesc {
    match data_type {
        OdbcDataType::TinyInt | OdbcDataType::SmallInt | OdbcDataType::Integer
        | OdbcDataType::BigInt => BufferDesc::I64 { nullable: true },
        OdbcDataType::Real => BufferDesc::F32 { nullable: true },
        OdbcDataType::Float { .. } | OdbcDataType::Double => BufferDesc::F64 { nullable: true },
        OdbcDataType::Bit => BufferDesc::Bit { nullable: true },
        OdbcDataType::Date => BufferDesc::Date { nullable: true },
        OdbcDataType::Time { .. } => BufferDesc::Time { nullable: true },
        OdbcDataType::Timestamp { .. } => BufferDesc::Timestamp { nullable: true },
        OdbcDataType::Binary { .. } | OdbcDataType::Varbinary { .. }
        | OdbcDataType::LongVarbinary { .. } => BufferDesc::Binary { max_bytes: max_column_size },
        _ => BufferDesc::Text { max_str_len: max_column_size },
    }
}

/// Chooses the buffer a buffered fetch binds for a column of the given type.
pub fn map_buffer_desc(data_type: OdbcDataType, max_column_size: usize) -> (r: BufferDesc)
    ensures
        r == spec_map_buffer_desc(data_type, max_column_size),
        !(r is Numeric),
        (data_type.is_character() || data_type is Decimal || data_type is Numeric) ==> r == (
        BufferDesc::Text { max_str_len: max_column_size }),
{
    match data_type {
        OdbcDataType::TinyInt
        | OdbcDataType::SmallInt
        | OdbcDataType::Integer
        | OdbcDataType::BigInt => BufferDesc::I64 { nullable: true },
        OdbcDataType::Real => BufferDesc::F32 { nullable: true },
        OdbcDataType::Float { .. } | OdbcDataType::Double => BufferDesc::F64 { nullable: true },
        OdbcDataType::Bit => BufferDesc::Bit { nullable: true },
        OdbcDataType::Date => BufferDesc::Date { nullable: true },
        OdbcDataType::Time { .. } => BufferDesc::Time { nullable: true },
        OdbcDataType::Timestamp { .. } => BufferDesc::Timestamp { nullable: true },
        OdbcDataType::Binary { .. }
        | OdbcDataType::Varbinary { .. }
        | OdbcDataType::LongVarbinary { .. } => BufferDesc::Binary { max_bytes: max_column_size },
        OdbcDataType::Char { .. }
        | OdbcDataType::WChar { .. }
        | OdbcDataType::Varchar { .. }
        | OdbcDataType::WVarchar { .. }
        | OdbcDataType::LongVarchar { .. }
        | OdbcDataType::WLongVarchar { .. }
        | OdbcDataType::Other { .. }
        | OdbcDataType::Unknown
        | OdbcDataType::Decimal { .. }
        | OdbcDataType::Numeric { .. } => BufferDesc::Text { max_str_len: max_column_size },
    }
}

/// The C type a value is read as from the driver.
#[derive(Debug, Clone, Copy, PartialEq, Eq, Structural)]
pub enum RawType {
    Bit,
    I8,
    I16,
    I32,
    I64,
    U8,
    F32,
    F64,
    Date,
    Time,
    Timestamp,
    /// UTF-8 text.
    Text,
    /// UTF-16 text.
    WText,
    Binary,
}

/// A value as read from the driver; `None` is SQL NULL. Floats are held by their bits.
#[derive(Debug, Clone, PartialEq, Eq)]
pub enum RawValue {
    Bit(Option<bool>),
    I8(Option<i8>),
    I16(Option<i16>),
    I32(Option<i32>),
    I64(Option<i64>),
    U8(Option<u8>),
    F32(Option<u32>),
    F64(Option<u64>),
    Date(Option<OdbcDate>),
    Time(Option<OdbcTime>),
    Timestamp(Option<OdbcTimestamp>),
    /// UTF-8 encoded text.
    Text(Option<Vec<u8>>),
    /// UTF-16 encoded text.
    WText(Option<Vec<u16>>),
    Binary(Option<Vec<u8>>),
}

/// The characters `String::from_utf8_lossy` reads from bytes.
pub uninterp spec fn utf8_lossy(bytes: Seq<u8>) -> Seq<char>;

/// A UTF-16 code unit that opens a surrogate pair.
pub open spec fn is_high_surrogate(u: u16) -> bool {
    0xD800 <= u <= 0xDBFF
}

/// A UTF-16 code unit that closes a surrogate pair.
pub open spec fn is_low_surrogate(u: u16) -> bool {
    0xDC00 <= u <= 0xDFFF
}

/// The characters UTF-16 code units encode, as `String::from_utf16_lossy` reads them: a high
/// surrogate followed by a low one is one character, any other surrogate reads as U+FFFD,
/// and every other unit is the character of that number.
pub open spec fn utf16_lossy(units: Seq<u16>) -> Seq<char>
    decreases units.len(),
{
    if units.len() == 0 {
        Seq::empty()
    } else if units.len() >= 2 && is_high_surrogate(units[0]) && is_low_surrogate(units[1]) {
        seq![(0x10000 + (units[0] - 0xD800) * 0x400 + (units[1] - 0xDC00)) as char]
            + utf16_lossy(units.subrange(2, units.len() as int))
    } else if is_high_surrogate(units[0]) || is_low_surrogate(units[0]) {
        seq!['\u{FFFD}'] + utf16_lossy(units.drop_first())
    } else {
        seq![units[0] as char] + utf16_lossy(units.drop_first())
    }
}

/// Reads text from bytes, replacing invalid UTF-8 (`String::from_utf8_lossy`); valid UTF-8
/// reads as the characters it encodes.
#[verifier::external_body]
fn string_from_utf8_lossy(bytes: &[u8]) -> (r: String)
    ensures
        r@ == utf8_lossy(bytes@),
        valid_utf8(bytes@) ==> r@ == decode_utf8(bytes@),
{
    String::from_utf8_lossy(bytes).into_owned()
}

/// Reads text from UTF-16 code units, replacing unpaired surrogates
/// (`String::from_utf16_lossy`).
#[verifier::external_body]
fn string_from_utf16_lossy(units: &[u16]) -> (r: String)
    ensures
        r@ == utf16_lossy(units@),
{
    String::from_utf16_lossy(units)
}

/// Whether `k` is the value kind a driver value reads as: NULL for a missing value, integers
/// of 8 to 64 bits as the integer kind of their width (an unsigned byte as a 64 bit integer),
/// text decoded lossily, everything else as the kind of the same name.
pub open spec fn is_kind_of_raw(raw: RawValue, k: OdbcValueKind) -> bool {
    match raw {
        RawValue::Bit(v) => k == (match v { Some(b) => OdbcValueKind::Bit(b), None => OdbcValueKind::Null }),
        RawValue::I8(v) => k == (match v { Some(x) => OdbcValueKind::TinyInt(x), None => OdbcValueKind::Null }),
        RawValue::I16(v) => k == (match v { Some(x) => OdbcValueKind::SmallInt(x), None => OdbcValueKind::Null }),
        RawValue::I32(v) => k == (match v { Some(x) => OdbcValueKind::Integer(x), None => OdbcValueKind::Null }),
        RawValue::I64(v) => k == (match v { Some(x) => OdbcValueKind::BigInt(x), None => OdbcValueKind::Null }),
        RawValue::U8(v) => k == (match v { Some(x) => OdbcValueKind::BigInt(x as i64), None => OdbcValueKind::Null }),
        RawValue::F32(v) => k == (match v { Some(x) => OdbcValueKind::Real(x), None => OdbcValueKind::Null }),
        RawValue::F64(v) => k == (match v { Some(x) => OdbcValueKind::Double(x), None => OdbcValueKind::Null }),
        RawValue::Date(v) => k == (match v { Some(x) => OdbcValueKind::Date(x), None => OdbcValueKind::Null }),
        RawValue::Time(v) => k == (match v { Some(x) => OdbcValueKind::Time(x), None => OdbcValueKind::Null }),
        RawValue::Timestamp(v) => k == (match v { Some(x) => OdbcValueKind::Timestamp(x), None => OdbcValueKind::Null }),
        RawValue::Text(v) => match v {
            Some(bytes) => (k matches OdbcValueKind::Text(t) && t@ == utf8_lossy(bytes@)),
            None => k is Null,
        },
        RawValue::WText(v) => match v {
            Some(units) => (k matches OdbcValueKind::Text(t) && t@ == utf16_lossy(units@)),
            None => k is Null,
        },
        RawValue::Binary(v) => match v {
            Some(bytes) => (k matches OdbcValueKind::Binary(b) && b@ == bytes@),
            None => k is Null,
        },
    }
}

/// Turns a value read from the driver into a value kind.
pub fn value_kind_of_raw(raw: RawValue) -> (r: OdbcValueKind)
    ensures
        is_kind_of_raw(raw, r),
{
    match raw {
        RawValue::Bit(v) => match v { Some(b) => OdbcValueKind::Bit(b), None => OdbcValueKind::Null },
        RawValue::I8(v) => match v { Some(x) => OdbcValueKind::TinyInt(x), None => OdbcValueKind::Null },
        RawValue::I16(v) => match v { Some(x) => OdbcValueKind::SmallInt(x), None => OdbcValueKind::Null },
        RawValue::I32(v) => match v { Some(x) => OdbcValueKind::Integer(x), None => OdbcValueKind::Null },
        RawValue::I64(v) => match v { Some(x) => OdbcValueKind::BigInt(x), None => OdbcValueKind::Null },
        RawValue::U8(v) => match v { Some(x) => OdbcValueKind::BigInt(x as i64), None => OdbcValueKind::Null },
        RawValue::F32(v) => match v { Some(x) => OdbcValueKind::Real(x), None => OdbcValueKind::Null },
        RawValue::F64(v) => match v { Some(x) => OdbcValueKind::Double(x), None => OdbcValueKind::Null },
        RawValue::Date(v) => match v { Some(x) => OdbcValueKind::Date(x), None => OdbcValueKind::Null },
        RawValue::Time(v) => match v { Some(x) => OdbcValueKind::Time(x), None => OdbcValueKind::Null },
        RawValue::Timestamp(v) => match v { Some(x) => OdbcValueKind::Timestamp(x), None => OdbcValueKind::Null },
        RawValue::Text(v) => match v {
            Some(bytes) => OdbcValueKind::Text(string_from_utf8_lossy(bytes.as_slice())),
            None => OdbcValueKind::Null,
        },
        RawValue::WText(v) => match v {
            Some(units) => OdbcValueKind::Text(string_from_utf16_lossy(units.as_slice())),
            None => OdbcValueKind::Null,
        },
        RawValue::Binary(v) => match v {
            Some(bytes) => OdbcValueKind::Binary(bytes),
            None => OdbcValueKind::Null,
        },
    }
}

/// Turns the values of a fetched column into value kinds, in order.
pub fn buffered_column_values(raw: Vec<RawValue>) -> (r: Vec<OdbcValueKind>)
    ensures
        r.len() == raw.len(),
        forall|i: int| 0 <= i < raw.len() ==> is_kind_of_raw(#[trigger] raw@[i], r@[i]),
{
    let mut raw = raw;
    let ghost given = raw@;
    let mut reversed: Vec<OdbcValueKind> = Vec::new();
    while raw.len() > 0
        invariant
            raw@ == given.take(raw.len() as int),
            raw.len() + reversed.len() == given.len(),
            forall|j: int| 0 <= j < reversed.len() ==> is_kind_of_raw(
                #[trigger] given[given.len() - 1 - j],
                reversed@[j],
            ),
        decreases raw.len(),
    {
        let ghost before = raw@;
        let v = raw.pop().unwrap();
        assert(v == given[given.len() - 1 - reversed.len()]);
        reversed.push(value_kind_of_raw(v));
        assert(raw@ =~= given.take(raw.len() as int));
    }
    let mut out: Vec<OdbcValueKind> = Vec::new();
    let n = reversed.len();
    while reversed.len() > 0
        invariant
            n == given.len(),
            reversed.len() + out.len() == n,
            forall|j: int| 0 <= j < reversed.len() ==> is_kind_of_raw(
                #[trigger] given[n - 1 - j],
                reversed@[j],
            ),
            forall|i: int| 0 <= i < out.len() ==> is_kind_of_raw(#[trigger] given[i], out@[i]),
        decreases reversed.len(),
    {
        let ghost j = reversed.len() - 1;
        assert(is_kind_of_raw(given[n - 1 - j], reversed@[j]));
        let k = reversed.pop().unwrap();
        assert(n - 1 - j == out.len());
        out.push(k);
    }
    out
}

/// The C type a buffer of the given layout holds, or the error for the numeric layout, which
/// buffered fetching does not read.
pub fn raw_type_of_buffer(desc: BufferDesc) -> (r: Result<RawType, DriverError>)
    ensures
        desc is Numeric <==> r is Err,
        r matches Err(e) ==> (e matches DriverError::Protocol(m)
            && m@ == "unsupported ODBC buffer descriptor: Numeric"@),
        r matches Ok(t) ==> t == (match desc {
            BufferDesc::Binary { .. } => RawType::Binary,
            BufferDesc::Text { .. } => RawType::Text,
            BufferDesc::WText { .. } => RawType::WText,
            BufferDesc::F64 { .. } => RawType::F64,
            BufferDesc::F32 { .. } => RawType::F32,
            BufferDesc::Date { .. } => RawType::Date,
            BufferDesc::Time { .. } => RawType::Time,
            BufferDesc::Timestamp { .. } => RawType::Timestamp,
            BufferDesc::I8 { .. } => RawType::I8,
            BufferDesc::I16 { .. } => RawType::I16,
            BufferDesc::I32 { .. } => RawType::I32,
            BufferDesc::I64 { .. } => RawType::I64,
            BufferDesc::U8 { .. } => RawType::U8,
            BufferDesc::Bit { .. } => RawType::Bit,
            BufferDesc::Numeric => RawType::Bit,
        }),
{
    match desc {
        BufferDesc::Binary { .. } => Ok(RawType::Binary),
        BufferDesc::Text { .. } => Ok(RawType::Text),
        BufferDesc::WText { .. } => Ok(RawType::WText),
        BufferDesc::F64 { .. } => Ok(RawType::F64),
        BufferDesc::F32 { .. } => Ok(RawType::F32),
        BufferDesc::Date { .. } => Ok(RawType::Date),
        BufferDesc::Time { .. } => Ok(RawType::Time),
        BufferDesc::Timestamp { .. } => Ok(RawType::Timestamp),
        BufferDesc::I8 { .. } => Ok(RawType::I8),
        BufferDesc::I16 { .. } => Ok(RawType::I16),
        BufferDesc::I32 { .. } => Ok(RawType::I32),
        BufferDesc::I64 { .. } => Ok(RawType::I64),
        BufferDesc::U8 { .. } => Ok(RawType::U8),
        BufferDesc::Bit { .. } => Ok(RawType::Bit),
        BufferDesc::Numeric => Err(
            DriverError::Protocol("unsupported ODBC buffer descriptor: Numeric".to_owned()),
        ),
    }
}

/// How a column of the given type is read one row at a time: bits, integers of each width,
/// floats, dates, times and timestamps as themselves, binary data as bytes, and everything
/// else as UTF-16 text.
pub open spec fn spec_fetch_type(data_type: OdbcDataType) -> RawType {
    match data_type {
        OdbcDataType::Bit => RawType::Bit,
        OdbcDataType::TinyInt => RawType::I8,
        OdbcDataType::SmallInt => RawType::I16,
        OdbcDataType::Integer => RawType::I32,
        OdbcDataType::BigInt => RawType::I64,
        OdbcDataType::Real => RawType::F32,
        OdbcDataType::Float { .. } | OdbcDataType::Double => RawType::F64,
        OdbcDataType::Date => RawType::Date,
        OdbcDataType::Time { .. } => RawType::Time,
        OdbcDataType::Timestamp { .. } => RawType::Timestamp,
        OdbcDataType::Binary { .. } | OdbcDataType::Varbinary { .. }
        | OdbcDataType::LongVarbinary { .. } => RawType::Binary,
        _ => RawType::WText,
    }
}

/// Chooses how a column of the given type is read one row at a time.
pub fn fetch_type(data_type: OdbcDataType) -> (r: RawType)
    ensures
        r == spec_fetch_type(data_type),
        data_type.is_binary() <==> r == RawType::Binary,
        data_type.is_character() ==> r == RawType::WText,
{
    match data_type {
        OdbcDataType::Bit => RawType::Bit,
        OdbcDataType::TinyInt => RawType::I8,
        OdbcDataType::SmallInt => RawType::I16,
        OdbcDataType::Integer => RawType::I32,
        OdbcDataType::BigInt => RawType::I64,
        OdbcDataType::Real => RawType::F32,
        OdbcDataType::Float { .. } | OdbcDataType::Double => RawType::F64,
        OdbcDataType::Date => RawType::Date,
        OdbcDataType::Time { .. } => RawType::Time,
        OdbcDataType::Timestamp { .. } => RawType::Timestamp,
        OdbcDataType::Binary { .. }
        | OdbcDataType::Varbinary { .. }
        | OdbcDataType::LongVarbinary { .. } => RawType::Binary,
        _ => RawType::WText,
    }
}

/// The width in bits of a signed integer C type; zero for every other C type.
pub open spec fn signed_integer_bits(t: RawType) -> int {
    match t {
        RawType::I8 => 8,
        RawType::I16 => 16,
        RawType::I32 => 32,
        RawType::I64 => 64,
        _ => 0,
    }
}

/// Reading one row at a time: a column is read as bytes exactly when it holds binary data,
/// character data, decimals and types of unknown layout are read as UTF-16 text, each integer
/// column as a signed integer of its own width, and bits, dates, times and timestamps as
/// themselves. No column is read as narrow text or as unsigned bytes.
pub proof fn lemma_unbuffered_read_by_group(t: OdbcDataType)
    ensures
        t.is_binary() <==> spec_fetch_type(t) == RawType::Binary,
        t.is_character() ==> spec_fetch_type(t) == RawType::WText,
        (t is Decimal || t is Numeric || t is Unknown || t is Other) ==> spec_fetch_type(t)
            == RawType::WText,
        t.is_integer() <==> signed_integer_bits(spec_fetch_type(t)) > 0,
        t.is_integer() ==> signed_integer_bits(spec_fetch_type(t)) == t.integer_bits(),
        t is Bit <==> spec_fetch_type(t) == RawType::Bit,
        t is Date <==> spec_fetch_type(t) == RawType::Date,
        t is Time <==> spec_fetch_type(t) == RawType::Time,
        t is Timestamp <==> spec_fetch_type(t) == RawType::Timestamp,
        t is Real <==> spec_fetch_type(t) == RawType::F32,
        (t is Float || t is Double) <==> spec_fetch_type(t) == RawType::F64,
        spec_fetch_type(t) != RawType::Text,
        spec_fetch_type(t) != RawType::U8,
{
}

/// Buffered fetching binds for every column a buffer that it can read: never the numeric
/// layout. Binary columns get byte buffers and character data, decimals and types of unknown
/// layout text buffers, both of the configured column size; integer columns share one nullable
/// 64 bit buffer, and every other fixed size buffer is nullable too.
pub proof fn lemma_buffer_desc_readable(t: OdbcDataType, max_column_size: usize)
    ensures
        !(spec_map_buffer_desc(t, max_column_size) is Numeric),
        t.is_binary() ==> spec_map_buffer_desc(t, max_column_size) == (BufferDesc::Binary {
            max_bytes: max_column_size,
        }),
        (t.is_character() || t is Decimal || t is Numeric || t is Unknown || t is Other)
            ==> spec_map_buffer_desc(t, max_column_size) == (BufferDesc::Text {
            max_str_len: max_column_size,
        }),
        t.is_integer() ==> spec_map_buffer_desc(t, max_column_size) == (BufferDesc::I64 {
            nullable: true,
        }),
        t is Real ==> spec_map_buffer_desc(t, max_column_size) == (BufferDesc::F32 {
            nullable: true,
        }),
        (t is Float || t is Double) ==> spec_map_buffer_desc(t, max_column_size) == (
        BufferDesc::F64 { nullable: true }),
        t is Bit ==> spec_map_buffer_desc(t, max_column_size) == (BufferDesc::Bit {
            nullable: true,
        }),
        t is Date ==> spec_map_buffer_desc(t, max_column_size) == (BufferDesc::Date {
            nullable: true,
        }),
        t is Time ==> spec_map_buffer_desc(t, max_column_size) == (BufferDesc::Time {
            nullable: true,
        }),
        t is Timestamp ==> spec_map_buffer_desc(t, max_column_size) == (BufferDesc::Timestamp {
            nullable: true,
        }),
{
}

/// The C type a driver value was read as.
pub open spec fn raw_value_type(raw: RawValue) -> RawType {
    match raw {
        RawValue::Bit(_) => RawType::Bit,
        RawValue::I8(_) => RawType::I8,
        RawValue::I16(_) => RawType::I16,
        RawValue::I32(_) => RawType::I32,
        RawValue::I64(_) => RawType::I64,
        RawValue::U8(_) => RawType::U8,
        RawValue::F32(_) => RawType::F32,
        RawValue::F64(_) => RawType::F64,
        RawValue::Date(_) => RawType::Date,
        RawValue::Time(_) => RawType::Time,
        RawValue::Timestamp(_) => RawType::Timestamp,
        RawValue::Text(_) => RawType::Text,
        RawValue::WText(_) => RawType::WText,
        RawValue::Binary(_) => RawType::Binary,
    }
}

/// Whether a driver value is SQL NULL.
pub open spec fn raw_value_is_null(raw: RawValue) -> bool {
    match raw {
        RawValue::Bit(v) => v is None,
        RawValue::I8(v) => v is None,
        RawValue::I16(v) => v is None,
        RawValue::I32(v) => v is None,
        RawValue::I64(v) => v is None,
        RawValue::U8(v) => v is None,
        RawValue::F32(v) => v is None,
        RawValue::F64(v) => v is None,
        RawValue::Date(v) => v is None,
        RawValue::Time(v) => v is None,
        RawValue::Timestamp(v) => v is None,
        RawValue::Text(v) => v is None,
        RawValue::WText(v) => v is None,
        RawValue::Binary(v) => v is None,
    }
}

/// A value read row by row from a column keeps the column's kind of data: NULL reads as NULL;
/// otherwise binary columns give binary values, character columns and decimals give text,
/// integer columns give integers of the column's own type, and bits, floats, dates, times and
/// timestamps give values of the same kind.
pub proof fn lemma_unbuffered_value_keeps_kind(t: OdbcDataType, raw: RawValue, k: OdbcValueKind)
    requires
        raw_value_type(raw) == spec_fetch_type(t),
        is_kind_of_raw(raw, k),
    ensures
        raw_value_is_null(raw) <==> k is Null,
        !raw_value_is_null(raw) ==> {
            let reported = kind_data_type(k);
            &&& t.is_binary() <==> reported.is_binary()
            &&& (t.is_character() || t is Decimal || t is Numeric) ==> k is Text
            &&& t.is_integer() ==> reported == t
            &&& t is Bit <==> k is Bit
            &&& t is Real <==> k is Real
            &&& (t is Float || t is Double) <==> k is Double
            &&& t is Date <==> k is Date
            &&& t is Time <==> k is Time
            &&& t is Timestamp <==> k is Timestamp
        },
{
}

/// The type a value reports is read back as that type: a value read row by row from a column
/// of the type a value of kind `k` reports, where it is not NULL, reports the same type again.
pub proof fn lemma_reported_type_reads_back(k: OdbcValueKind, raw: RawValue, read: OdbcValueKind)
    requires
        raw_value_type(raw) == spec_fetch_type(kind_data_type(k)),
        !raw_value_is_null(raw),
        is_kind_of_raw(raw, read),
    ensures
        k !is Null ==> kind_data_type(read) == kind_data_type(k),
{
}

/// Buffered and unbuffered fetching agree on what a column holds: binary columns are read as
/// bytes both ways, and a column read as text one way is read as text the other way.
pub proof fn lemma_buffered_agrees_with_unbuffered(t: OdbcDataType, max_column_size: usize)
    ensures
        (spec_map_buffer_desc(t, max_column_size) is Binary) <==> (spec_fetch_type(t)
            == RawType::Binary),
        (spec_map_buffer_desc(t, max_column_size) is Text) <==> (spec_fetch_type(t)
            == RawType::WText),
{
}

/// The views of a list of column metadata.
pub open spec fn column_views(columns: Seq<OdbcColumn>) -> Seq<ColumnView> {
    columns.map_values(|c: OdbcColumn| c@)
}

/// Copies a list of column metadata.
pub fn duplicate_columns(meta: &Vec<OdbcColumn>) -> (r: Vec<OdbcColumn>)
    ensures
        column_views(r@) == column_views(meta@),
{
    let mut out: Vec<OdbcColumn> = Vec::new();
    let mut i: usize = 0;
    while i < meta.len()
        invariant
            i <= meta.len(),
            out.len() == i,
            forall|k: int| 0 <= k < i ==> (#[trigger] out@[k])@ == meta@[k]@,
        decreases meta.len() - i,
    {
        out.push(meta[i].duplicate());
        i += 1;
    }
    assert(column_views(out@) =~= column_views(meta@));
    out
}

/// Every fetched column holds a value for each of the batch's rows.
pub open spec fn batch_complete(columns: Seq<Vec<OdbcValueKind>>, num_rows: int) -> bool {
    forall|c: int| 0 <= c < columns.len() ==> #[trigger] columns[c]@.len() >= num_rows
}

/// `m` is the fewest values any fetched column holds, and it falls short of the batch.
pub open spec fn shortest_column(columns: Seq<Vec<OdbcValueKind>>, num_rows: int, m: int) -> bool {
    &&& m < num_rows
    &&& exists|c: int| 0 <= c < columns.len() && #[trigger] columns[c]@.len() == m
    &&& forall|c: int| 0 <= c < columns.len() ==> #[trigger] columns[c]@.len() >= m
}

/// The row at position `i` of a batch: the columns' metadata and, for each column, the
/// value it holds at `i`.
pub open spec fn is_batch_row(
    row: OdbcRow,
    meta: Seq<OdbcColumn>,
    columns: Seq<Vec<OdbcValueKind>>,
    i: int,
) -> bool {
    &&& column_views(row.spec_columns()) == column_views(meta)
    &&& row.spec_values().len() == columns.len()
    &&& forall|c: int| 0 <= c < columns.len() ==> (#[trigger] row.spec_values()[c])@ == columns[c]@[i]
}

/// The message for a batch whose columns hold too few values for row `n` (counted from 1).
pub open spec fn too_few_values_message(n: nat) -> Seq<char> {
    "ODBC buffered fetch produced too few values for row "@ + decimal(n)
}

/// Gathers a batch fetched column by column into rows: row `i` holds the value each column
/// holds at `i`. When some column holds fewer values than the batch has rows, the batch fails
/// at the first row it cannot fill.
pub fn rows_from_columns(meta: &Vec<OdbcColumn>, columns: Vec<Vec<OdbcValueKind>>, num_rows: usize) -> (r: Result<Vec<OdbcRow>, DriverError>)
    ensures
        batch_complete(columns@, num_rows as int) ==> (r matches Ok(rows) && rows.len() == num_rows
            && forall|i: int| 0 <= i < num_rows ==> is_batch_row(#[trigger] rows@[i], meta@, columns@, i)),
        !batch_complete(columns@, num_rows as int) ==> (r matches Err(e) && exists|m: int|
            shortest_column(columns@, num_rows as int, m) && (e matches DriverError::Protocol(msg)
                && msg@ == too_few_values_message((m + 1) as nat))),
{
    let ncols = columns.len();
    let mut columns = columns;
    let ghost orig = columns@;
    let mut m: usize = num_rows;
    let mut c: usize = 0;
    let ghost mut witness: int = -1;
    while c < ncols
        invariant
            ncols == columns.len(),
            columns@ == orig,
            c <= ncols,
            m <= num_rows,
            forall|k: int| 0 <= k < c ==> #[trigger] orig[k]@.len() >= m,
            m < num_rows ==> (0 <= witness < c && orig[witness]@.len() == m),
        decreases ncols - c,
    {
        if columns[c].len() < m {
            m = columns[c].len();
            proof {
                witness = c as int;
            }
        }
        c += 1;
    }
    if m < num_rows {
        let msg = with_decimal(
            "ODBC buffered fetch produced too few values for row ",
            (m + 1) as u64,
        );
        assert(shortest_column(orig, num_rows as int, m as int));
        assert(!batch_complete(orig, num_rows as int));
        return Err(DriverError::Protocol(msg));
    }
    assert(batch_complete(orig, num_rows as int));
    c = 0;
    while c < ncols
        invariant
            ncols == columns.len() == orig.len(),
            c <= ncols,
            batch_complete(orig, num_rows as int),
            forall|k: int| 0 <= k < c ==> (#[trigger] columns@[k])@ == orig[k]@.take(num_rows as int),
            forall|k: int| c <= k < ncols ==> #[trigger] columns@[k] == orig[k],
        decreases ncols - c,
    {
        columns[c].truncate(num_rows);
        assert(columns@[c as int]@ =~= orig[c as int]@.take(num_rows as int));
        c += 1;
    }
    let mut rows_rev: Vec<OdbcRow> = Vec::new();
    let mut remaining: usize = num_rows;
    while remaining > 0
        invariant
            ncols == columns.len() == orig.len(),
            remaining <= num_rows,
            batch_complete(orig, num_rows as int),
            rows_rev.len() == num_rows - remaining,
            forall|k: int| 0 <= k < ncols ==> (#[trigger] columns@[k])@ == orig[k]@.take(remaining as int),
            forall|j: int| 0 <= j < rows_rev.len() ==> is_batch_row(#[trigger] rows_rev@[j], meta@, orig, num_rows - 1 - j),
        decreases remaining,
    {
        let mut values: Vec<OdbcValue> = Vec::new();
        let mut k: usize = 0;
        while k < ncols
            invariant
                ncols == columns.len() == orig.len(),
                0 < remaining <= num_rows,
                batch_complete(orig, num_rows as int),
                k <= ncols,
                values.len() == k,
                forall|q: int| 0 <= q < k ==> (#[trigger] columns@[q])@ == orig[q]@.take(remaining - 1),
                forall|q: int| k <= q < ncols ==> (#[trigger] columns@[q])@ == orig[q]@.take(remaining as int),
                forall|q: int| 0 <= q < k ==> (#[trigger] values@[q])@ == orig[q]@[remaining - 1],
            decreases ncols - k,
        {
            assert(orig[k as int]@.len() >= num_rows);
            let v = columns[k].pop().unwrap();
            assert(columns@[k as int]@ =~= orig[k as int]@.take(remaining - 1));
            values.push(OdbcValue::new(v));
            k += 1;
        }
        let row = OdbcRow::new(duplicate_columns(meta), values);
        rows_rev.push(row);
        remaining -= 1;
    }
    let mut rows: Vec<OdbcRow> = Vec::new();
    while rows_rev.len() > 0
        invariant
            rows_rev.len() + rows.len() == num_rows,
            forall|j: int| 0 <= j < rows_rev.len() ==> is_batch_row(#[trigger] rows_rev@[j], meta@, orig, num_rows - 1 - j),
            forall|i: int| 0 <= i < rows.len() ==> is_batch_row(#[trigger] rows@[i], meta@, orig, i),
        decreases rows_rev.len(),
    {
        let ghost j = rows_rev.len() - 1;
        assert(is_batch_row(rows_rev@[j], meta@, orig, num_rows - 1 - j));
        let row = rows_rev.pop().unwrap();
        rows.push(row);
    }
    Ok(rows)
}

/// What running a statement produced: the rows of its result set, or the summary of a
/// statement that returns no rows.
pub enum Execution<R> {
    Rows(Vec<R>),
    Done(OdbcQueryResult),
}

/// One item of the stream of a statement's results.
#[derive(Debug)]
pub enum FetchItem<R> {
    Row(R),
    Result(OdbcQueryResult),
}

/// The stream of a statement's results: its rows in order, then a result with no affected
/// rows; or the summary alone for a statement without rows.
pub fn fetch_items<R>(execution: Execution<R>) -> (r: Vec<FetchItem<R>>)
    ensures
        execution matches Execution::Done(q) ==> r@ == seq![FetchItem::<R>::Result(q)],
        execution matches Execution::Rows(rows) ==> {
            &&& r.len() == rows.len() + 1
            &&& forall|i: int| 0 <= i < rows.len() ==> r@[i] == FetchItem::Row(#[trigger] rows@[i])
            &&& r@.last() matches FetchItem::Result(q) && q.spec_rows_affected() == 0
        },
{
    match execution {
        Execution::Done(q) => {
            let mut out: Vec<FetchItem<R>> = Vec::new();
            out.push(FetchItem::Result(q));
            out
        },
        Execution::Rows(rows) => {
            let mut rest = rows;
            let ghost all = rest@;
            let mut reversed: Vec<R> = Vec::new();
            while rest.len() > 0
                invariant
                    rest@ == all.take(rest.len() as int),
                    rest.len() + reversed.len() == all.len(),
                    forall|j: int| 0 <= j < reversed.len() ==> #[trigger] reversed@[j] == all[all.len() - 1 - j],
                decreases rest.len(),
            {
                let row = rest.pop().unwrap();
                reversed.push(row);
                assert(rest@ =~= all.take(rest.len() as int));
            }
            let mut out: Vec<FetchItem<R>> = Vec::new();
            let ghost n = all.len();
            while reversed.len() > 0
                invariant
                    n == all.len(),
                    reversed.len() + out.len() == n,
                    forall|j: int| 0 <= j < reversed.len() ==> #[trigger] reversed@[j] == all[n - 1 - j],
                    forall|i: int| 0 <= i < out.len() ==> out@[i] == FetchItem::Row(#[trigger] all[i]),
                decreases reversed.len(),
            {
                let ghost j = reversed.len() - 1;
                assert(reversed@[j] == all[n - 1 - j]);
                let row = reversed.pop().unwrap();
                out.push(FetchItem::Row(row));
            }
            out.push(FetchItem::Result(OdbcQueryResult::new(0)));
            out
        },
    }
}

/// The first row a statement produced, if any.
pub fn first_row<R>(execution: Execution<R>) -> (r: Option<R>)
    ensures
        execution matches Execution::Rows(rows) ==> (if rows.len() > 0 {
            r == Some(rows@[0])
        } else {
            r is None
        }),
        execution is Done ==> r is None,
{
    match execution {
        Execution::Rows(rows) => {
            let mut rows = rows;
            if rows.len() == 0 {
                None
            } else {
                Some(rows.remove(0))
            }
        },
        Execution::Done(_) => None,
    }
}

/// The number of result columns the driver reported, which must not be negative.
pub fn result_column_count(count: i16) -> (r: Result<usize, DriverError>)
    ensures
        count >= 0 ==> r == Ok::<usize, DriverError>(count as usize),
        count < 0 ==> (r matches Err(e) && e matches DriverError::Protocol(m)
            && m@ == "ODBC returned a negative column count: "@ + signed_decimal(count as int)),
{
    if count < 0 {
        let mut msg = "ODBC returned a negative column count: ".to_owned();
        push_signed_decimal(&mut msg, count as i64);
        Err(DriverError::Protocol(msg))
    } else {
        Ok(count as usize)
    }
}

/// The ODBC column number (counted from 1) of the column at `ordinal`, which must fit 16 bits.
pub fn column_number(ordinal: usize) -> (r: Result<u16, DriverError>)
    requires
        ordinal < usize::MAX,
    ensures
        ordinal + 1 <= u16::MAX ==> r == Ok::<u16, DriverError>((ordinal + 1) as u16),
        ordinal + 1 > u16::MAX ==> (r matches Err(e) && e matches DriverError::Protocol(m)
            && m@ == "ODBC column index exceeds u16: "@ + decimal((ordinal + 1) as nat)),
{
    if ordinal >= 65535 {
        let n: u64 = (ordinal + 1) as u64;
        Err(DriverError::Protocol(with_decimal("ODBC column index exceeds u16: ", n)))
    } else {
        Ok((ordinal + 1) as u16)
    }
}

/// The name of a result column: the name the driver described, or `col<ordinal>` when the
/// name could not be read.
pub fn column_name_or_default(name: Option<String>, ordinal: usize) -> (r: String)
    ensures
        name matches Some(n) ==> r@ == n@,
        name is None ==> r@ == "col"@ + decimal(ordinal as nat),
{
    match name {
        Some(n) => n,
        None => with_decimal("col", ordinal as u64),
    }
}

/// The result of a statement that returned no cursor, from the row count the driver
/// reported (none counts as zero); a negative count breaks the protocol.
pub fn query_result_from_row_count(count: Option<isize>) -> (r: Result<OdbcQueryResult, DriverError>)
    ensures
        count is None ==> (r matches Ok(q) && q.spec_rows_affected() == 0),
        count is Some && count->0 >= 0 ==> (r matches Ok(q) && q.spec_rows_affected()
            == count->0),
        count is Some && count->0 < 0 ==> (r matches Err(e) && e matches DriverError::Protocol(m)
            && m@ == "ODBC row count does not fit in u64"@),
{
    let n: isize = match count {
        Some(n) => n,
        None => 0,
    };
    if n < 0 {
        Err(DriverError::Protocol("ODBC row count does not fit in u64".to_owned()))
    } else {
        Ok(OdbcQueryResult::new(n as u64))
    }
}

/// What a prepare does when the driver cannot describe the result columns. Every choice
/// fails: a prepare never reports an empty column list in place of a description error.
#[derive(Debug, Clone, Copy, PartialEq, Eq, Structural)]
pub enum DeferredMetadata {
    /// Describe parameters `1..=count` in order and fail with the first error among them;
    /// when all of them can be described, fail with the error of the column description.
    DescribeParametersThenFail { count: u16 },
    /// Fail with the error of the column description.
    Fail,
}

/// Chooses how a prepare fails when the result columns cannot be described: a statement with
/// parameters reports a parameter that cannot be described first, if there is one; any other
/// prepare fails with the column description's error.
pub fn on_column_description_failure(parameter_count: u16) -> (r: DeferredMetadata)
    ensures
        parameter_count > 0 ==> r == (DeferredMetadata::DescribeParametersThenFail {
            count: parameter_count,
        }),
        parameter_count == 0 ==> r == DeferredMetadata::Fail,
{
    if parameter_count > 0 {
        DeferredMetadata::DescribeParametersThenFail { count: parameter_count }
    } else {
        DeferredMetadata::Fail
    }
}

/// The longest preview of a statement, in bytes.
pub open spec fn preview_limit() -> int {
    160
}

/// The preview of a statement shown in error messages: its words joined by single spaces,
/// cut to 157 characters followed by `...` when longer than 160 bytes in UTF-8.
pub open spec fn spec_sql_preview(sql: Seq<char>) -> Seq<char> {
    let compact = join_words(words(sql));
    if encode_utf8(compact).len() <= preview_limit() {
        compact
    } else {
        let keep = if compact.len() < 157 {
            compact.len() as int
        } else {
            157
        };
        compact.take(keep) + seq!['.', '.', '.']
    }
}

/// A preview is never longer than 160 characters.
pub proof fn lemma_sql_preview_bounded(sql: Seq<char>)
    ensures
        spec_sql_preview(sql).len() <= preview_limit(),
{
    let compact = join_words(words(sql));
    lemma_encode_at_least_chars(compact, 0);
    assert(compact.skip(0) =~= compact);
}

/// Shortens a statement for an error message.
pub fn sql_preview(sql: &str) -> (r: String)
    ensures
        r@ == spec_sql_preview(sql@),
{
    let compact = collapse_whitespace(&chars_of(sql));
    let chars = chars_of(compact.as_str());
    if !utf8_len_exceeds(&chars, 160) {
        compact
    } else {
        let keep: usize = if chars.len() < 157 {
            chars.len()
        } else {
            157
        };
        let mut preview = string_from_chars(&chars, 0, keep);
        push_char(&mut preview, '.');
        push_char(&mut preview, '.');
        push_char(&mut preview, '.');
        assert(preview@ =~= chars@.take(keep as int) + seq!['.', '.', '.']);
        preview
    }
}

} // verus!
