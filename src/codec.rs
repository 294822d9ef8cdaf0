use vstd::prelude::*;
use vstd::utf8::{valid_utf8, decode_utf8, encode_utf8, encode_utf8_valid_utf8, encode_utf8_decode_utf8, is_ascii_chars};
use crate::types::ExecutorError;

verus! {

#[verifier::external_type_specification]
#[verifier::external_body]
pub struct ExFromHexError(hex::FromHexError);

/// Whether a byte is an ASCII hex digit of either case.
pub open spec fn is_hex_digit(b: u8) -> bool {
    (0x30 <= b && b <= 0x39) || (0x41 <= b && b <= 0x46) || (0x61 <= b && b <= 0x66)
}

/// The value of a hex digit.
pub open spec fn hex_value(b: u8) -> int {
    if 0x30 <= b && b <= 0x39 {
        b - 0x30
    } else if 0x41 <= b && b <= 0x46 {
        b - 0x41 + 10
    } else {
        b - 0x61 + 10
    }
}

/// Whether a byte text is a whole number of hex digit pairs.
pub open spec fn is_hex_text(s: Seq<u8>) -> bool {
    s.len() % 2 == 0 && forall|i: int| 0 <= i < s.len() ==> #[trigger] is_hex_digit(s[i])
}

/// The bytes that a text of hex digit pairs stands for.
pub open spec fn hex_bytes(s: Seq<u8>) -> Seq<u8> {
    Seq::new((s.len() / 2) as nat, |i: int| (hex_value(s[2 * i]) * 16 + hex_value(s[2 * i + 1])) as u8)
}

/// The lowercase hex digit of a value below sixteen.
pub open spec fn hex_digit(v: int) -> u8 {
    if v < 10 { (0x30 + v) as u8 } else { (0x61 + v - 10) as u8 }
}

/// The lowercase hex text of a byte sequence, two digits per byte.
pub open spec fn hex_text(b: Seq<u8>) -> Seq<u8> {
    Seq::new(2 * b.len(), |i: int| if i % 2 == 0 { hex_digit((b[i / 2] / 16) as int) } else { hex_digit((b[i / 2] % 16) as int) })
}

/// The bytes of a text whose characters are all ASCII.
pub open spec fn ascii_bytes(s: Seq<char>) -> Seq<u8> {
    s.map_values(|c: char| c as u8)
}

/// The name that an R4 register payload carries: the payload is ASCII, its
/// first four characters are a type tag, the rest is the hex text of the
/// name's UTF-8 bytes.
pub open spec fn r4_name(r4: Seq<char>) -> Option<Seq<char>> {
    let rest = ascii_bytes(r4).skip(4);
    if is_ascii_chars(r4) && r4.len() >= 4 && is_hex_text(rest) && valid_utf8(hex_bytes(rest)) {
        Some(decode_utf8(hex_bytes(rest)))
    } else {
        None
    }
}

/// Relies on hex::decode: it fails on an odd length or on a byte that is not
/// a hex digit, and otherwise turns each pair of digits into one byte.
#[verifier::external_body]
fn hex_decode(data: &[u8]) -> (r: Result<Vec<u8>, hex::FromHexError>)
    ensures
        r is Ok <==> is_hex_text(data@),
        r is Ok ==> r->Ok_0@ == hex_bytes(data@),
{
    hex::decode(data)
}

/// Relies on String::from_utf8: it fails exactly on bytes that are not UTF-8,
/// and otherwise holds the characters they encode.
#[verifier::external_body]
fn utf8_decode(bytes: Vec<u8>) -> (r: Option<String>)
    ensures
        r is Some <==> valid_utf8(bytes@),
        r is Some ==> r->0@ == decode_utf8(bytes@),
{
    String::from_utf8(bytes).ok()
}

/// Decodes the registered name out of an R4 register payload.
pub fn decode_r4_name(r4: &str) -> (r: Result<String, ExecutorError>)
    ensures
        match r {
            Ok(name) => r4_name(r4@) == Some(name@),
            Err(e) => r4_name(r4@) is None && e == ExecutorError::DecodeError,
        },
{
    if !r4.is_ascii() {
        return Err(ExecutorError::DecodeError);
    }
    let bytes = r4.as_bytes();
    proof {
        vstd::string::is_ascii_spec_bytes(r4);
        assert(bytes@ =~= ascii_bytes(r4@));
    }
    let n = bytes.len();
    if n < 4 {
        return Err(ExecutorError::DecodeError);
    }
    let mut rest: Vec<u8> = Vec::new();
    let mut i: usize = 4;
    while i < n
        invariant
            4 <= i <= n,
            n == bytes@.len(),
            rest@ == bytes@.subrange(4, i as int),
        decreases n - i,
    {
        rest.push(bytes[i]);
        i = i + 1;
    }
    assert(rest@ =~= ascii_bytes(r4@).skip(4));
    match hex_decode(rest.as_slice()) {
        Err(_) => Err(ExecutorError::DecodeError),
        Ok(decoded) => match utf8_decode(decoded) {
            Some(name) => Ok(name),
            None => Err(ExecutorError::DecodeError),
        },
    }
}

proof fn lemma_hex_digit(v: int)
    requires
        0 <= v < 16,
    ensures
        is_hex_digit(hex_digit(v)),
        hex_value(hex_digit(v)) == v,
{
}

/// Hex text decodes back to the bytes it was made from.
pub proof fn lemma_hex_round_trip(b: Seq<u8>)
    ensures
        is_hex_text(hex_text(b)),
        hex_bytes(hex_text(b)) == b,
{
    let t = hex_text(b);
    assert forall|i: int| 0 <= i < t.len() implies #[trigger] is_hex_digit(t[i]) by {
        if i % 2 == 0 {
            lemma_hex_digit((b[i / 2] / 16) as int);
        } else {
            lemma_hex_digit((b[i / 2] % 16) as int);
        }
    }
    assert forall|j: int| 0 <= j < b.len() implies #[trigger] hex_bytes(t)[j] == b[j] by {
        lemma_hex_digit((b[j] / 16) as int);
        lemma_hex_digit((b[j] % 16) as int);
        assert((2 * j) / 2 == j);
        assert((2 * j + 1) / 2 == j);
        assert((2 * j) % 2 == 0);
        assert((2 * j + 1) % 2 == 1);
        assert(b[j] as int == (b[j] / 16) * 16 + b[j] % 16);
    }
    assert(hex_bytes(t) =~= b);
}

/// A payload made of a four-character ASCII tag followed by the hex text of
/// a name's UTF-8 bytes decodes to that name.
pub proof fn lemma_r4_decodes_name(tag: Seq<char>, name: Seq<char>, r4: Seq<char>)
    requires
        tag.len() == 4,
        is_ascii_chars(tag),
        ascii_bytes(r4) == ascii_bytes(tag) + hex_text(encode_utf8(name)),
        r4.len() == tag.len() + hex_text(encode_utf8(name)).len(),
        is_ascii_chars(r4),
    ensures
        r4_name(r4) == Some(name),
{
    let body = hex_text(encode_utf8(name));
    lemma_hex_round_trip(encode_utf8(name));
    assert(ascii_bytes(r4).skip(4) =~= body);
    encode_utf8_valid_utf8(name);
    encode_utf8_decode_utf8(name);
}

} // verus!
