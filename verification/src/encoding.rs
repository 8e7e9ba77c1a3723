//! Lower-case hexadecimal encoding of byte strings, and its inverse.

use vstd::prelude::*;

verus! {

/// Whether `c` is an ASCII hexadecimal digit, in either case.
pub open spec fn is_hex_digit(c: char) -> bool {
    ||| ('0' <= c && c <= '9')
    ||| ('a' <= c && c <= 'f')
    ||| ('A' <= c && c <= 'F')
}

/// The value of a hexadecimal digit.
pub open spec fn hex_digit_value(c: char) -> int {
    if '0' <= c && c <= '9' {
        c as int - '0' as int
    } else if 'a' <= c && c <= 'f' {
        c as int - 'a' as int + 10
    } else {
        c as int - 'A' as int + 10
    }
}

/// The lower-case digit for a value below sixteen.
pub open spec fn lower_hex_digit(n: int) -> char {
    if n < 10 {
        (n + '0' as int) as char
    } else {
        (n - 10 + 'a' as int) as char
    }
}

/// A string that decodes: an even number of hexadecimal digits.
pub open spec fn is_hex_string(s: Seq<char>) -> bool {
    &&& s.len() % 2 == 0
    &&& forall|i: int| 0 <= i < s.len() ==> #[trigger] is_hex_digit(s[i])
}

/// The bytes that a hexadecimal string stands for, two digits per byte,
/// the high nibble first.
pub open spec fn hex_decode(s: Seq<char>) -> Seq<u8> {
    Seq::new(
        s.len() / 2,
        |i: int| (hex_digit_value(s[2 * i]) * 16 + hex_digit_value(s[2 * i + 1])) as u8,
    )
}

/// The lower-case hexadecimal encoding of `b`: two digits per byte, the
/// high nibble first.
pub open spec fn hex_encode(b: Seq<u8>) -> Seq<char> {
    Seq::new(
        b.len() * 2,
        |i: int|
            if i % 2 == 0 {
                lower_hex_digit(b[i / 2] as int / 16)
            } else {
                lower_hex_digit(b[i / 2] as int % 16)
            },
    )
}

#[verifier::external_type_specification]
#[verifier::external_body]
pub struct ExFromHexError(hex::FromHexError);

/// Calls `hex::encode`, which writes each byte as two lower-case digits,
/// the high nibble first (the crate's table `0123456789abcdef`).
#[verifier::external_body]
fn hex_encode_bytes(data: &[u8]) -> (res: String)
    ensures
        res@ == hex_encode(data@),
{
    hex::encode(data)
}

/// Calls `hex::decode` on the bytes of `s`. The crate refuses an odd
/// length and any byte outside `0-9a-fA-F`, and otherwise turns each pair
/// of digits into one byte. A character outside ASCII is never a digit, so
/// the contract can speak of characters.
#[verifier::external_body]
fn hex_decode_str(s: &str) -> (res: Result<Vec<u8>, hex::FromHexError>)
    ensures
        res is Ok <==> is_hex_string(s@),
        res matches Ok(v) ==> v@ == hex_decode(s@),
{
    hex::decode(s)
}

/// Lower-case hexadecimal encoding of `data`.
pub fn encode_hex(data: &[u8]) -> (res: String)
    ensures
        res@ == hex_encode(data@),
        res@.len() == 2 * data@.len(),
{
    hex_encode_bytes(data)
}

/// Decodes a string of hexadecimal digits; `None` when it is not one.
pub fn decode_hex(s: &str) -> (res: Option<Vec<u8>>)
    ensures
        res is Some <==> is_hex_string(s@),
        res matches Some(v) ==> v@ == hex_decode(s@),
{
    match hex_decode_str(s) {
        Ok(v) => Some(v),
        Err(_) => None,
    }
}

/// Every encoding decodes, and gives back the bytes it was made from.
pub proof fn lemma_hex_decode_encode(b: Seq<u8>)
    ensures
        is_hex_string(hex_encode(b)),
        hex_decode(hex_encode(b)) == b,
{
    let e = hex_encode(b);
    assert forall|i: int| 0 <= i < e.len() implies #[trigger] is_hex_digit(e[i]) by {
        let v = b[i / 2] as int;
        assert(0 <= v / 16 < 16 && 0 <= v % 16 < 16);
    }
    let d = hex_decode(e);
    assert(d.len() == b.len());
    assert forall|j: int| 0 <= j < b.len() implies #[trigger] d[j] == b[j] by {
        assert((2 * j) / 2 == j && (2 * j) % 2 == 0);
        assert((2 * j + 1) / 2 == j && (2 * j + 1) % 2 == 1);
        let v = b[j] as int;
        assert(v == (v / 16) * 16 + v % 16);
    }
    assert(d =~= b);
}

} // verus!
