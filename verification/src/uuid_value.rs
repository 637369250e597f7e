use vstd::prelude::*;
use vstd::utf8::{valid_utf8, decode_utf8};
use crate::arguments::OdbcArgumentValue;
use crate::text::{is_space, trim, trim_end, trim_start, trim_str};
use crate::value::{OdbcValue, OdbcValueKind, str_from_utf8};

verus! {

/// The lower-case hexadecimal digit of a number below sixteen.
pub open spec fn hex_digit(n: int) -> char {
    if n < 10 {
        (48 + n) as char
    } else {
        (87 + n) as char
    }
}

/// Each byte as two lower-case hexadecimal digits, high digit first.
pub open spec fn hex_bytes(b: Seq<u8>) -> Seq<char>
    decreases b.len(),
{
    if b.len() == 0 {
        Seq::empty()
    } else {
        seq![hex_digit(b[0] as int / 16), hex_digit(b[0] as int % 16)] + hex_bytes(b.drop_first())
    }
}

/// The hyphenated text of a UUID's 16 bytes: groups of 4, 2, 2, 2 and 6 bytes in
/// lower-case hexadecimal, joined by `-`.
pub open spec fn uuid_hyphenated(b: Seq<u8>) -> Seq<char> {
    hex_bytes(b.subrange(0, 4)) + seq!['-'] + hex_bytes(b.subrange(4, 6)) + seq!['-']
        + hex_bytes(b.subrange(6, 8)) + seq!['-'] + hex_bytes(b.subrange(8, 10)) + seq!['-']
        + hex_bytes(b.subrange(10, 16))
}

/// The 16 bytes `uuid` reads from a text (`Uuid::parse_str`), which accepts the
/// hyphenated, simple, braced and URN forms.
pub uninterp spec fn uuid_parse_str(s: Seq<char>) -> Option<Seq<u8>>;

/// `Uuid::from_slice`: a slice of exactly 16 bytes is the UUID with those bytes; any other
/// length is refused.
#[verifier::external_body]
fn uuid_from_slice(bytes: &[u8]) -> (r: Option<[u8; 16]>)
    ensures
        r is Some <==> bytes@.len() == 16,
        r matches Some(b) ==> b@ == bytes@,
{
    match uuid::Uuid::from_slice(bytes) {
        Ok(u) => Some(*u.as_bytes()),
        Err(_) => None,
    }
}

/// `Uuid::parse_str`: the bytes of the UUID a text names, or `None` where it names none.
#[verifier::external_body]
fn parse_uuid_text(s: &str) -> (r: Option<[u8; 16]>)
    ensures
        r is Some <==> uuid_parse_str(s@) is Some,
        r matches Some(b) ==> uuid_parse_str(s@) == Some(b@),
{
    match uuid::Uuid::parse_str(s) {
        Ok(u) => Some(*u.as_bytes()),
        Err(_) => None,
    }
}

/// `Uuid::to_string`: the hyphenated lower-case text of a UUID, which `Uuid::parse_str` reads
/// back as the same UUID.
#[verifier::external_body]
fn uuid_to_text(bytes: [u8; 16]) -> (r: String)
    ensures
        r@ == uuid_hyphenated(bytes@),
        uuid_parse_str(r@) == Some(bytes@),
{
    uuid::Uuid::from_bytes(bytes).to_string()
}

/// The UUID a value holds: a 16-byte binary value as its bytes; other binary values that are
/// UTF-8, and text values, as `uuid` reads their trimmed text.
pub open spec fn spec_decode_uuid(k: OdbcValueKind) -> Option<Seq<u8>> {
    match k {
        OdbcValueKind::Binary(b) => if b@.len() == 16 {
            Some(b@)
        } else if valid_utf8(b@) {
            uuid_parse_str(trim(decode_utf8(b@)))
        } else {
            None
        },
        OdbcValueKind::Text(t) => uuid_parse_str(trim(t@)),
        _ => None,
    }
}

/// Decodes a value into a UUID (`uuid::Uuid`), by its 16 bytes; `None` where the value
/// holds none.
pub fn decode_uuid(value: &OdbcValue) -> (r: Option<[u8; 16]>)
    ensures
        r is Some <==> spec_decode_uuid(value@) is Some,
        r matches Some(b) ==> spec_decode_uuid(value@) == Some(b@),
{
    if let Some(bytes) = value.as_bytes() {
        if bytes.len() == 16 {
            return uuid_from_slice(bytes);
        }
        if let Some(text) = str_from_utf8(bytes) {
            if let Some(uuid) = parse_uuid_text(trim_str(text).as_str()) {
                return Some(uuid);
            }
        }
    }
    if let Some(text) = value.as_str() {
        if let Some(uuid) = parse_uuid_text(trim_str(text).as_str()) {
            return Some(uuid);
        }
    }
    None
}

/// A hexadecimal digit is no whitespace.
proof fn lemma_hex_digit_not_space(n: int)
    requires
        0 <= n < 16,
    ensures
        !is_space(hex_digit(n)),
{
}

/// The hexadecimal text of bytes has two digits per byte, the first of the first byte first
/// and the second of the last byte last.
proof fn lemma_hex_bytes_ends(b: Seq<u8>)
    ensures
        hex_bytes(b).len() == 2 * b.len(),
        b.len() > 0 ==> hex_bytes(b)[0] == hex_digit(b[0] as int / 16),
        b.len() > 0 ==> hex_bytes(b).last() == hex_digit(b.last() as int % 16),
    decreases b.len(),
{
    if b.len() > 0 {
        lemma_hex_bytes_ends(b.drop_first());
        if b.len() > 1 {
            assert(b.drop_first().last() == b.last());
        }
    }
}

/// The text of a UUID has no surrounding whitespace.
proof fn lemma_uuid_text_trimmed(b: Seq<u8>)
    requires
        b.len() == 16,
    ensures
        trim(uuid_hyphenated(b)) == uuid_hyphenated(b),
{
    let t = uuid_hyphenated(b);
    let first = b.subrange(0, 4);
    let last = b.subrange(10, 16);
    lemma_hex_bytes_ends(first);
    lemma_hex_bytes_ends(last);
    lemma_hex_bytes_ends(b.subrange(4, 6));
    lemma_hex_bytes_ends(b.subrange(6, 8));
    lemma_hex_bytes_ends(b.subrange(8, 10));
    assert(t[0] == hex_bytes(first)[0]);
    lemma_hex_digit_not_space(first[0] as int / 16);
    assert(t.last() == hex_bytes(last).last());
    lemma_hex_digit_not_space(last.last() as int % 16);
    assert(trim_start(t) == t);
    assert(trim_end(t) == t);
}

/// How a UUID is bound: as its hyphenated lower-case text, which decodes back to the same
/// UUID.
pub fn encode_uuid(bytes: [u8; 16]) -> (r: OdbcArgumentValue)
    ensures
        r matches OdbcArgumentValue::Text(t) && t@ == uuid_hyphenated(bytes@),
        r matches OdbcArgumentValue::Text(t) && uuid_parse_str(trim(t@)) == Some(bytes@),
{
    let text = uuid_to_text(bytes);
    proof {
        lemma_uuid_text_trimmed(bytes@);
    }
    OdbcArgumentValue::Text(text)
}

} // verus!
