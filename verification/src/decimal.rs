use vstd::prelude::*;
use vstd::utf8::{valid_utf8, decode_utf8};
use crate::arguments::OdbcArgumentValue;
use crate::text::{trim, trim_str};
use crate::value::{OdbcValue, OdbcValueKind, kind_as_i64, str_from_utf8};

verus! {

/// A decimal number as `bigdecimal::BigDecimal` holds it: an unscaled integer, given by its
/// sign and its digits in base 2^32 (least significant first), and a scale; the number is
/// the unscaled integer times 10 to the power of minus the scale.
#[derive(Debug, Clone, PartialEq, Eq)]
pub struct DecimalValue {
    pub negative: bool,
    pub magnitude: Vec<u32>,
    pub scale: i64,
}

/// The number that base-2^32 digits, least significant first, stand for.
pub open spec fn magnitude_value(m: Seq<u32>) -> nat
    decreases m.len(),
{
    if m.len() == 0 {
        0
    } else {
        m[0] as nat + 0x1_0000_0000 * magnitude_value(m.drop_first())
    }
}

impl DecimalValue {
    /// The unscaled integer.
    pub open spec fn unscaled(&self) -> int {
        if self.negative {
            -magnitude_value(self.magnitude@)
        } else {
            magnitude_value(self.magnitude@) as int
        }
    }
}

/// The unscaled integer and the scale of the decimal `bigdecimal` reads from a text, or the
/// message of its error (`BigDecimal::from_str`).
pub uninterp spec fn bigdecimal_from_str(s: Seq<char>) -> Result<(int, int), Seq<char>>;

/// The text `bigdecimal` writes for the decimal with the given unscaled integer and scale
/// (`BigDecimal::to_string`).
pub uninterp spec fn bigdecimal_to_text(unscaled: int, scale: int) -> Seq<char>;

/// `BigDecimal::from_str`: the decimal a text names, or `bigdecimal`'s error message.
#[verifier::external_body]
fn parse_decimal_text(s: &str) -> (r: Result<DecimalValue, String>)
    ensures
        r is Ok <==> bigdecimal_from_str(s@) is Ok,
        r matches Ok(d) ==> bigdecimal_from_str(s@)->Ok_0 == (d.unscaled(), d.scale as int),
        r matches Err(m) ==> bigdecimal_from_str(s@)->Err_0 == m@,
{
    match s.parse::<bigdecimal::BigDecimal>() {
        Ok(d) => {
            let (int_val, scale) = d.into_bigint_and_exponent();
            let (sign, magnitude) = int_val.to_u32_digits();
            let negative = match sign {
                bigdecimal::num_bigint::Sign::Minus => true,
                bigdecimal::num_bigint::Sign::NoSign => false,
                bigdecimal::num_bigint::Sign::Plus => false,
            };
            Ok(DecimalValue { negative, magnitude, scale })
        },
        Err(e) => Err(e.to_string()),
    }
}

/// `BigDecimal::from(i64)`: the integer itself, with scale zero.
#[verifier::external_body]
fn decimal_from_i64(n: i64) -> (r: DecimalValue)
    ensures
        r.unscaled() == n,
        r.scale == 0,
{
    let (int_val, scale) = bigdecimal::BigDecimal::from(n).into_bigint_and_exponent();
    let (sign, magnitude) = int_val.to_u32_digits();
    let negative = match sign {
        bigdecimal::num_bigint::Sign::Minus => true,
        bigdecimal::num_bigint::Sign::NoSign => false,
        bigdecimal::num_bigint::Sign::Plus => false,
    };
    DecimalValue { negative, magnitude, scale }
}

/// `BigDecimal::to_string` on the decimal with the given parts.
#[verifier::external_body]
fn decimal_to_text(d: &DecimalValue) -> (r: String)
    ensures
        r@ == bigdecimal_to_text(d.unscaled(), d.scale as int),
{
    let sign = match d.negative {
        true => bigdecimal::num_bigint::Sign::Minus,
        false => bigdecimal::num_bigint::Sign::Plus,
    };
    let int_val = bigdecimal::num_bigint::BigInt::from_slice(sign, d.magnitude.as_slice());
    bigdecimal::BigDecimal::new(int_val, d.scale).to_string()
}

/// Why a value does not decode into a decimal.
#[derive(Debug, Clone, PartialEq, Eq)]
pub enum DecimalDecodeError {
    /// A text value that is no decimal, with `bigdecimal`'s message.
    BadText(String),
    /// A binary value that is not UTF-8.
    InvalidUtf8,
    /// A binary value whose text is no decimal, with `bigdecimal`'s message.
    BadBytes(String),
    /// A float value: it is converted by `BigDecimal::try_from(f64)`, outside this library.
    FloatValue,
    /// The value is of a kind that holds no decimal.
    CannotDecode,
}

/// Whether `r` is what a value of kind `k` decodes into as a decimal: a text as `bigdecimal`
/// reads its trimmed text; a binary value likewise once it is UTF-8; an integer as itself.
pub open spec fn is_decimal_of_kind(k: OdbcValueKind, r: Result<DecimalValue, DecimalDecodeError>) -> bool {
    match k {
        OdbcValueKind::Text(t) => match bigdecimal_from_str(trim(t@)) {
            Ok(p) => r matches Ok(d) && (d.unscaled(), d.scale as int) == p,
            Err(m) => r matches Err(DecimalDecodeError::BadText(message)) && message@ == m,
        },
        OdbcValueKind::Binary(b) => if !valid_utf8(b@) {
            r == Err::<DecimalValue, DecimalDecodeError>(DecimalDecodeError::InvalidUtf8)
        } else {
            match bigdecimal_from_str(trim(decode_utf8(b@))) {
                Ok(p) => r matches Ok(d) && (d.unscaled(), d.scale as int) == p,
                Err(m) => r matches Err(DecimalDecodeError::BadBytes(message)) && message@ == m,
            }
        },
        OdbcValueKind::Real(_) | OdbcValueKind::Double(_) => r == Err::<DecimalValue, DecimalDecodeError>(
            DecimalDecodeError::FloatValue,
        ),
        _ => match kind_as_i64(k) {
            Some(i) => r matches Ok(d) && d.unscaled() == i && d.scale == 0,
            None => r == Err::<DecimalValue, DecimalDecodeError>(DecimalDecodeError::CannotDecode),
        },
    }
}

/// Decodes a value into a decimal (`bigdecimal::BigDecimal`). A float value is reported as
/// `FloatValue`, for the caller to convert.
pub fn decode_decimal(value: &OdbcValue) -> (r: Result<DecimalValue, DecimalDecodeError>)
    ensures
        is_decimal_of_kind(value@, r),
{
    if let Some(text) = value.as_str() {
        return match parse_decimal_text(trim_str(text).as_str()) {
            Ok(d) => Ok(d),
            Err(message) => Err(DecimalDecodeError::BadText(message)),
        };
    }
    if let Some(bytes) = value.as_bytes() {
        let text = match str_from_utf8(bytes) {
            Some(text) => text,
            None => return Err(DecimalDecodeError::InvalidUtf8),
        };
        return match parse_decimal_text(trim_str(text).as_str()) {
            Ok(d) => Ok(d),
            Err(message) => Err(DecimalDecodeError::BadBytes(message)),
        };
    }
    if let Some(integer) = value.as_i64() {
        return Ok(decimal_from_i64(integer));
    }
    match value.kind() {
        OdbcValueKind::Real(_) | OdbcValueKind::Double(_) => Err(DecimalDecodeError::FloatValue),
        _ => Err(DecimalDecodeError::CannotDecode),
    }
}

/// How a decimal is bound: as the text `bigdecimal` writes for it.
pub fn encode_decimal(value: &DecimalValue) -> (r: OdbcArgumentValue)
    ensures
        r matches OdbcArgumentValue::Text(t) && t@ == bigdecimal_to_text(value.unscaled(), value.scale as int),
{
    OdbcArgumentValue::Text(decimal_to_text(value))
}

} // verus!
