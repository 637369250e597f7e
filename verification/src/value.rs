use vstd::prelude::*;
use vstd::utf8::{valid_utf8, decode_utf8};
use crate::data_type::OdbcDataType;
use crate::temporal::{OdbcDate, OdbcTime, OdbcTimestamp};
use crate::text::{chars_of, trim, trim_bounds, string_from_chars, range_starts_with};
use crate::type_info::OdbcTypeInfo;

verus! {

/// Supported owned ODBC value kinds. Floating point values are held by their IEEE 754 bit
/// patterns.
#[derive(Debug, Clone, PartialEq, Eq)]
pub enum OdbcValueKind {
    /// NULL value.
    Null,
    /// 8-bit signed integer.
    TinyInt(i8),
    /// 16-bit signed integer.
    SmallInt(i16),
    /// 32-bit signed integer.
    Integer(i32),
    /// 64-bit signed integer.
    BigInt(i64),
    /// 32-bit float, as the bits of an `f32`.
    Real(u32),
    /// 64-bit float, as the bits of an `f64`.
    Double(u64),
    /// Boolean value.
    Bit(bool),
    /// Text value.
    Text(String),
    /// Binary value.
    Binary(Vec<u8>),
    /// Date value.
    Date(OdbcDate),
    /// Time value.
    Time(OdbcTime),
    /// Timestamp value.
    Timestamp(OdbcTimestamp),
}

/// The signed integer a value holds, if it is one of the integer kinds.
pub open spec fn kind_as_i64(k: OdbcValueKind) -> Option<i64> {
    match k {
        OdbcValueKind::TinyInt(v) => Some(v as i64),
        OdbcValueKind::SmallInt(v) => Some(v as i64),
        OdbcValueKind::Integer(v) => Some(v as i64),
        OdbcValueKind::BigInt(v) => Some(v),
        _ => None,
    }
}

/// The SQL type a value of the given kind reports.
pub open spec fn kind_data_type(k: OdbcValueKind) -> OdbcDataType {
    match k {
        OdbcValueKind::Null => OdbcDataType::Unknown,
        OdbcValueKind::TinyInt(_) => OdbcDataType::TinyInt,
        OdbcValueKind::SmallInt(_) => OdbcDataType::SmallInt,
        OdbcValueKind::Integer(_) => OdbcDataType::Integer,
        OdbcValueKind::BigInt(_) => OdbcDataType::BigInt,
        OdbcValueKind::Real(_) => OdbcDataType::Real,
        OdbcValueKind::Double(_) => OdbcDataType::Double,
        OdbcValueKind::Bit(_) => OdbcDataType::Bit,
        OdbcValueKind::Text(_) => OdbcDataType::WVarchar { length: None },
        OdbcValueKind::Binary(_) => OdbcDataType::Varbinary { length: None },
        OdbcValueKind::Date(_) => OdbcDataType::Date,
        OdbcValueKind::Time(_) => OdbcDataType::Time { precision: 0 },
        OdbcValueKind::Timestamp(_) => OdbcDataType::Timestamp { precision: 6 },
    }
}

/// A float's bit pattern denotes a number other than zero (NaN included): every bit but the
/// sign bit is zero exactly for `+0.0` and `-0.0`.
pub open spec fn f32_bits_nonzero(bits: u32) -> bool {
    bits & 0x7fff_ffffu32 != 0
}

/// As `f32_bits_nonzero`, for the bits of an `f64`.
pub open spec fn f64_bits_nonzero(bits: u64) -> bool {
    bits & 0x7fff_ffff_ffff_ffffu64 != 0
}

/// How a text reads as a boolean.
#[derive(Debug, Clone, PartialEq, Eq)]
pub enum BoolText {
    /// The trimmed text is one of the boolean words or digits.
    Known(bool),
    /// The trimmed text is nothing else; it is true when it reads as a number other than
    /// zero (first as a float, then as a signed integer) and no boolean when it reads as
    /// neither.
    Numeric(String),
}

/// The words that read as `false`: `0`, `0.0`, `false`, `FALSE`, `f`, `F`.
pub open spec fn is_false_word(t: Seq<char>) -> bool {
    ||| t == seq!['0']
    ||| t == seq!['0', '.', '0']
    ||| t == seq!['f', 'a', 'l', 's', 'e']
    ||| t == seq!['F', 'A', 'L', 'S', 'E']
    ||| t == seq!['f']
    ||| t == seq!['F']
}

/// The words that read as `true`: `1`, `1.0`, `true`, `TRUE`, `t`, `T`.
pub open spec fn is_true_word(t: Seq<char>) -> bool {
    ||| t == seq!['1']
    ||| t == seq!['1', '.', '0']
    ||| t == seq!['t', 'r', 'u', 'e']
    ||| t == seq!['T', 'R', 'U', 'E']
    ||| t == seq!['t']
    ||| t == seq!['T']
}

/// Whether `r` is how the text `s` reads as a boolean.
pub open spec fn is_bool_text_of(s: Seq<char>, r: BoolText) -> bool {
    let t = trim(s);
    if is_false_word(t) {
        r == BoolText::Known(false)
    } else if is_true_word(t) {
        r == BoolText::Known(true)
    } else {
        (r matches BoolText::Numeric(n) && n@ == t)
    }
}

/// Returns whether `v[from..to]` is exactly the characters of `word`.
fn range_is(v: &Vec<char>, from: usize, to: usize, word: &Vec<char>) -> (r: bool)
    requires
        from <= to <= v.len(),
    ensures
        r == (v@.subrange(from as int, to as int) == word@),
{
    if to - from != word.len() {
        return false;
    }
    let r = range_starts_with(v, from, to, word);
    assert(v@.subrange(from as int, from + word.len()) == v@.subrange(from as int, to as int));
    r
}

/// Reads a text as a boolean: the trimmed text `0`, `0.0`, `false`, `FALSE`, `f` or `F` is
/// false, `1`, `1.0`, `true`, `TRUE`, `t` or `T` is true, and any other is left to be read as
/// a number.
pub fn parse_bool_text(value: &str) -> (r: BoolText)
    ensures
        is_bool_text_of(value@, r),
{
    let chars = chars_of(value);
    let (from, to) = trim_bounds(&chars);
    let ghost t = chars@.subrange(from as int, to as int);
    let f0: Vec<char> = vec!['0'];
    let f1: Vec<char> = vec!['0', '.', '0'];
    let f2: Vec<char> = vec!['f', 'a', 'l', 's', 'e'];
    let f3: Vec<char> = vec!['F', 'A', 'L', 'S', 'E'];
    let f4: Vec<char> = vec!['f'];
    let f5: Vec<char> = vec!['F'];
    assert(f0@ =~= seq!['0'] && f1@ =~= seq!['0', '.', '0'] && f2@ =~= seq!['f', 'a', 'l', 's', 'e']
        && f3@ =~= seq!['F', 'A', 'L', 'S', 'E'] && f4@ =~= seq!['f'] && f5@ =~= seq!['F']);
    let is_false = range_is(&chars, from, to, &f0) || range_is(&chars, from, to, &f1) || range_is(
        &chars,
        from,
        to,
        &f2,
    ) || range_is(&chars, from, to, &f3) || range_is(&chars, from, to, &f4) || range_is(
        &chars,
        from,
        to,
        &f5,
    );
    if is_false {
        return BoolText::Known(false);
    }
    let t0: Vec<char> = vec!['1'];
    let t1: Vec<char> = vec!['1', '.', '0'];
    let t2: Vec<char> = vec!['t', 'r', 'u', 'e'];
    let t3: Vec<char> = vec!['T', 'R', 'U', 'E'];
    let t4: Vec<char> = vec!['t'];
    let t5: Vec<char> = vec!['T'];
    assert(t0@ =~= seq!['1'] && t1@ =~= seq!['1', '.', '0'] && t2@ =~= seq!['t', 'r', 'u', 'e']
        && t3@ =~= seq!['T', 'R', 'U', 'E'] && t4@ =~= seq!['t'] && t5@ =~= seq!['T']);
    let is_true = range_is(&chars, from, to, &t0) || range_is(&chars, from, to, &t1) || range_is(
        &chars,
        from,
        to,
        &t2,
    ) || range_is(&chars, from, to, &t3) || range_is(&chars, from, to, &t4) || range_is(
        &chars,
        from,
        to,
        &t5,
    );
    if is_true {
        return BoolText::Known(true);
    }
    BoolText::Numeric(string_from_chars(&chars, from, to))
}

/// How a value of the given kind reads as a boolean.
pub open spec fn is_bool_of_kind(k: OdbcValueKind, r: Option<BoolText>) -> bool {
    match k {
        OdbcValueKind::Bit(b) => r == Some(BoolText::Known(b)),
        OdbcValueKind::TinyInt(v) => r == Some(BoolText::Known(v != 0)),
        OdbcValueKind::SmallInt(v) => r == Some(BoolText::Known(v != 0)),
        OdbcValueKind::Integer(v) => r == Some(BoolText::Known(v != 0)),
        OdbcValueKind::BigInt(v) => r == Some(BoolText::Known(v != 0)),
        OdbcValueKind::Real(bits) => r == Some(BoolText::Known(f32_bits_nonzero(bits))),
        OdbcValueKind::Double(bits) => r == Some(BoolText::Known(f64_bits_nonzero(bits))),
        OdbcValueKind::Text(t) => (r matches Some(b) && is_bool_text_of(t@, b)),
        _ => r is None,
    }
}

/// The integer a value holds, when it is one of the integer kinds and lies in `lo..=hi`.
pub open spec fn int_in_range(k: OdbcValueKind, lo: int, hi: int) -> Option<int> {
    match kind_as_i64(k) {
        Some(v) => if lo <= v <= hi {
            Some(v as int)
        } else {
            None
        },
        None => None,
    }
}

/// Why a value does not decode into a `String`.
#[derive(Debug, Clone, Copy, PartialEq, Eq, Structural)]
pub enum StringDecodeError {
    /// The value is binary but not valid UTF-8.
    InvalidUtf8,
    /// The value is neither text nor binary.
    NotText,
}

/// A small owned ODBC value representation.
#[derive(Debug, Clone, PartialEq, Eq)]
pub struct OdbcValue {
    kind: OdbcValueKind,
}

impl View for OdbcValue {
    type V = OdbcValueKind;

    closed spec fn view(&self) -> OdbcValueKind {
        self.kind
    }
}

/// Reads a string slice out of UTF-8 bytes (`std::str::from_utf8`).
#[verifier::external_body]
pub(crate) fn str_from_utf8(bytes: &[u8]) -> (r: Option<&str>)
    ensures
        r is Some <==> valid_utf8(bytes@),
        r matches Some(s) ==> s@ == decode_utf8(bytes@),
{
    std::str::from_utf8(bytes).ok()
}

impl OdbcValue {
    /// Creates a new value from a raw kind.
    pub fn new(kind: OdbcValueKind) -> (r: Self)
        ensures
            r@ == kind,
    {
        OdbcValue { kind }
    }

    /// Returns the raw value kind.
    pub fn kind(&self) -> (r: &OdbcValueKind)
        ensures
            *r == self@,
    {
        &self.kind
    }

    /// Returns whether this value is NULL.
    pub fn is_null(&self) -> (r: bool)
        ensures
            r == (self@ is Null),
    {
        match self.kind {
            OdbcValueKind::Null => true,
            _ => false,
        }
    }

    /// Returns this value as a signed integer where possible.
    pub fn as_i64(&self) -> (r: Option<i64>)
        ensures
            r == kind_as_i64(self@),
    {
        match self.kind {
            OdbcValueKind::TinyInt(value) => Some(value as i64),
            OdbcValueKind::SmallInt(value) => Some(value as i64),
            OdbcValueKind::Integer(value) => Some(value as i64),
            OdbcValueKind::BigInt(value) => Some(value),
            _ => None,
        }
    }

    /// Returns this value as text where possible.
    pub fn as_str(&self) -> (r: Option<&str>)
        ensures
            r is Some <==> self@ is Text,
            r matches Some(s) ==> s@ == self@->Text_0@,
    {
        match &self.kind {
            OdbcValueKind::Text(value) => Some(value.as_str()),
            _ => None,
        }
    }

    /// Returns this value as bytes where possible.
    pub fn as_bytes(&self) -> (r: Option<&[u8]>)
        ensures
            r is Some <==> self@ is Binary,
            r matches Some(b) ==> b@ == self@->Binary_0@,
    {
        match &self.kind {
            OdbcValueKind::Binary(value) => Some(value.as_slice()),
            _ => None,
        }
    }

    /// Returns the type information this value reports.
    pub fn type_info(&self) -> (r: OdbcTypeInfo)
        ensures
            r@ == kind_data_type(self@),
    {
        let data_type = match &self.kind {
            OdbcValueKind::Null => OdbcDataType::Unknown,
            OdbcValueKind::TinyInt(_) => OdbcDataType::TinyInt,
            OdbcValueKind::SmallInt(_) => OdbcDataType::SmallInt,
            OdbcValueKind::Integer(_) => OdbcDataType::Integer,
            OdbcValueKind::BigInt(_) => OdbcDataType::BigInt,
            OdbcValueKind::Real(_) => OdbcDataType::Real,
            OdbcValueKind::Double(_) => OdbcDataType::Double,
            OdbcValueKind::Bit(_) => OdbcDataType::Bit,
            OdbcValueKind::Text(_) => OdbcDataType::WVarchar { length: None },
            OdbcValueKind::Binary(_) => OdbcDataType::Varbinary { length: None },
            OdbcValueKind::Date(_) => OdbcDataType::Date,
            OdbcValueKind::Time(_) => OdbcDataType::Time { precision: 0 },
            OdbcValueKind::Timestamp(_) => OdbcDataType::Timestamp { precision: 6 },
        };
        OdbcTypeInfo::new(data_type)
    }

    /// Returns this value as a boolean where possible: bits, integers and floats are true
    /// when not zero, and text as `parse_bool_text` reads it.
    pub fn as_bool(&self) -> (r: Option<BoolText>)
        ensures
            is_bool_of_kind(self@, r),
    {
        match &self.kind {
            OdbcValueKind::Bit(value) => Some(BoolText::Known(*value)),
            OdbcValueKind::TinyInt(value) => Some(BoolText::Known(*value != 0)),
            OdbcValueKind::SmallInt(value) => Some(BoolText::Known(*value != 0)),
            OdbcValueKind::Integer(value) => Some(BoolText::Known(*value != 0)),
            OdbcValueKind::BigInt(value) => Some(BoolText::Known(*value != 0)),
            OdbcValueKind::Real(bits) => Some(BoolText::Known(*bits & 0x7fff_ffffu32 != 0)),
            OdbcValueKind::Double(bits) => Some(
                BoolText::Known(*bits & 0x7fff_ffff_ffff_ffffu64 != 0),
            ),
            OdbcValueKind::Text(value) => Some(parse_bool_text(value.as_str())),
            _ => None,
        }
    }

    /// Decodes an `i8` from an integer value that fits.
    pub fn decode_i8(&self) -> (r: Option<i8>)
        ensures
            r matches Some(v) ==> int_in_range(self@, i8::MIN as int, i8::MAX as int) == Some(
                v as int,
            ),
            r is None ==> int_in_range(self@, i8::MIN as int, i8::MAX as int) is None,
    {
        match self.as_i64() {
            Some(v) => if -128 <= v && v <= 127 {
                Some(v as i8)
            } else {
                None
            },
            None => None,
        }
    }

    /// Decodes an `i16` from an integer value that fits.
    pub fn decode_i16(&self) -> (r: Option<i16>)
        ensures
            r matches Some(v) ==> int_in_range(self@, i16::MIN as int, i16::MAX as int) == Some(
                v as int,
            ),
            r is None ==> int_in_range(self@, i16::MIN as int, i16::MAX as int) is None,
    {
        match self.as_i64() {
            Some(v) => if -32768 <= v && v <= 32767 {
                Some(v as i16)
            } else {
                None
            },
            None => None,
        }
    }

    /// Decodes an `i32` from an integer value that fits.
    pub fn decode_i32(&self) -> (r: Option<i32>)
        ensures
            r matches Some(v) ==> int_in_range(self@, i32::MIN as int, i32::MAX as int) == Some(
                v as int,
            ),
            r is None ==> int_in_range(self@, i32::MIN as int, i32::MAX as int) is None,
    {
        match self.as_i64() {
            Some(v) => if -2147483648 <= v && v <= 2147483647 {
                Some(v as i32)
            } else {
                None
            },
            None => None,
        }
    }

    /// Decodes an `i64` from an integer value.
    pub fn decode_i64(&self) -> (r: Option<i64>)
        ensures
            r == kind_as_i64(self@),
    {
        self.as_i64()
    }

    /// Decodes a `u8` from an integer value that fits.
    pub fn decode_u8(&self) -> (r: Option<u8>)
        ensures
            r matches Some(v) ==> int_in_range(self@, 0, u8::MAX as int) == Some(v as int),
            r is None ==> int_in_range(self@, 0, u8::MAX as int) is None,
    {
        match self.as_i64() {
            Some(v) => if 0 <= v && v <= 255 {
                Some(v as u8)
            } else {
                None
            },
            None => None,
        }
    }

    /// Decodes a `u16` from an integer value that fits.
    pub fn decode_u16(&self) -> (r: Option<u16>)
        ensures
            r matches Some(v) ==> int_in_range(self@, 0, u16::MAX as int) == Some(v as int),
            r is None ==> int_in_range(self@, 0, u16::MAX as int) is None,
    {
        match self.as_i64() {
            Some(v) => if 0 <= v && v <= 65535 {
                Some(v as u16)
            } else {
                None
            },
            None => None,
        }
    }

    /// Decodes a `u32` from an integer value that fits.
    pub fn decode_u32(&self) -> (r: Option<u32>)
        ensures
            r matches Some(v) ==> int_in_range(self@, 0, u32::MAX as int) == Some(v as int),
            r is None ==> int_in_range(self@, 0, u32::MAX as int) is None,
    {
        match self.as_i64() {
            Some(v) => if 0 <= v && v <= 4294967295 {
                Some(v as u32)
            } else {
                None
            },
            None => None,
        }
    }

    /// Decodes a `u64` from a non-negative integer value.
    pub fn decode_u64(&self) -> (r: Option<u64>)
        ensures
            r matches Some(v) ==> int_in_range(self@, 0, i64::MAX as int) == Some(v as int),
            r is None ==> int_in_range(self@, 0, i64::MAX as int) is None,
    {
        match self.as_i64() {
            Some(v) => if 0 <= v {
                Some(v as u64)
            } else {
                None
            },
            None => None,
        }
    }

    /// Decodes a `String`: text as it is, binary when it is valid UTF-8.
    pub fn decode_string(&self) -> (r: Result<String, StringDecodeError>)
        ensures
            self@ is Text ==> (r matches Ok(s) && s@ == self@->Text_0@),
            self@ is Binary ==> (if valid_utf8(self@->Binary_0@) {
                (r matches Ok(s) && s@ == decode_utf8(self@->Binary_0@))
            } else {
                r == Err::<String, StringDecodeError>(StringDecodeError::InvalidUtf8)
            }),
            !(self@ is Text || self@ is Binary) ==> r == Err::<String, StringDecodeError>(
                StringDecodeError::NotText,
            ),
    {
        match &self.kind {
            OdbcValueKind::Text(text) => Ok(text.clone()),
            OdbcValueKind::Binary(bytes) => match str_from_utf8(bytes.as_slice()) {
                Some(text) => Ok(text.to_owned()),
                None => Err(StringDecodeError::InvalidUtf8),
            },
            _ => Err(StringDecodeError::NotText),
        }
    }

    /// Decodes a `Vec<u8>` from a binary value.
    pub fn decode_bytes(&self) -> (r: Option<Vec<u8>>)
        ensures
            r is Some <==> self@ is Binary,
            r matches Some(b) ==> b@ == self@->Binary_0@,
    {
        match &self.kind {
            OdbcValueKind::Binary(bytes) => Some(vstd::slice::slice_to_vec(bytes.as_slice())),
            _ => None,
        }
    }

    /// Returns a borrowed reference to this value.
    pub fn as_ref(&self) -> (r: OdbcValueRef<'_>)
        ensures
            r@ == self@,
    {
        OdbcValueRef { value: self }
    }
}

/// Borrowed ODBC value reference.
#[derive(Debug, Clone, Copy)]
pub struct OdbcValueRef<'r> {
    value: &'r OdbcValue,
}

impl<'r> View for OdbcValueRef<'r> {
    type V = OdbcValueKind;

    closed spec fn view(&self) -> OdbcValueKind {
        self.value@
    }
}

impl<'r> OdbcValueRef<'r> {
    /// The value this reference borrows.
    pub fn value(&self) -> (r: &'r OdbcValue)
        ensures
            r@ == self@,
    {
        self.value
    }

    /// Returns this value as a signed integer where possible.
    pub fn as_i64(&self) -> (r: Option<i64>)
        ensures
            r == kind_as_i64(self@),
    {
        self.value.as_i64()
    }

    /// Returns this value as borrowed text where possible.
    pub fn as_str(&self) -> (r: Option<&'r str>)
        ensures
            r is Some <==> self@ is Text,
            r matches Some(s) ==> s@ == self@->Text_0@,
    {
        let value: &'r OdbcValue = self.value;
        value.as_str()
    }

    /// Returns this value as borrowed bytes where possible.
    pub fn as_bytes(&self) -> (r: Option<&'r [u8]>)
        ensures
            r is Some <==> self@ is Binary,
            r matches Some(b) ==> b@ == self@->Binary_0@,
    {
        let value: &'r OdbcValue = self.value;
        value.as_bytes()
    }

    /// Returns this value as a boolean where possible.
    pub fn as_bool(&self) -> (r: Option<BoolText>)
        ensures
            is_bool_of_kind(self@, r),
    {
        self.value.as_bool()
    }

    /// Returns whether this value is NULL.
    pub fn is_null(&self) -> (r: bool)
        ensures
            r == (self@ is Null),
    {
        self.value.is_null()
    }
}

} // verus!
