//! Hexadecimal text: the encoding in which wallets, signatures and nonces
//! travel.

use vstd::prelude::*;

verus! {

/// Whether `c` is one of `0`-`9`, `a`-`f` or `A`-`F`.
pub open spec fn is_hex_digit(c: char) -> bool {
    ||| '0' <= c <= '9'
    ||| 'a' <= c <= 'f'
    ||| 'A' <= c <= 'F'
}

/// The number, 0 to 15, that a hexadecimal digit stands for.
pub open spec fn hex_digit_value(c: char) -> int {
    if '0' <= c <= '9' {
        c as int - '0' as int
    } else if 'a' <= c <= 'f' {
        c as int - 'a' as int + 10
    } else {
        c as int - 'A' as int + 10
    }
}

/// Text that decodes: an even number of hexadecimal digits, in either case.
pub open spec fn is_hex_text(text: Seq<char>) -> bool {
    &&& text.len() % 2 == 0
    &&& forall|i: int| 0 <= i < text.len() ==> is_hex_digit(#[trigger] text[i])
}

/// The bytes that hexadecimal text stands for: each pair of digits is one
/// byte, the first digit its high half.
pub open spec fn hex_value(text: Seq<char>) -> Seq<u8> {
    Seq::new(
        text.len() / 2,
        |i: int| (16 * hex_digit_value(text[2 * i]) + hex_digit_value(text[2 * i + 1])) as u8,
    )
}

/// The lower-case digit for a number from 0 to 15.
pub open spec fn lower_hex_digit(n: int) -> char {
    if n < 10 {
        (('0' as int + n) as u8) as char
    } else {
        (('a' as int + n - 10) as u8) as char
    }
}

/// The lower-case hexadecimal text of `bytes`: two digits per byte, the high
/// half first.
pub open spec fn hex_lower(bytes: Seq<u8>) -> Seq<char> {
    Seq::new(
        2 * bytes.len(),
        |i: int|
            if i % 2 == 0 {
                lower_hex_digit(bytes[i / 2] as int / 16)
            } else {
                lower_hex_digit(bytes[i / 2] as int % 16)
            },
    )
}

/// Decodes hexadecimal text with `hex::decode`.
///
/// Trusted: `hex::decode` succeeds exactly on an even number of hexadecimal
/// digits of either case, and then yields one byte per pair of digits, the
/// first digit being the high half.
#[verifier::external_body]
pub(crate) fn decode_hex(text: &str) -> (bytes: Option<Vec<u8>>)
    ensures
        bytes is Some <==> is_hex_text(text@),
        bytes matches Some(b) ==> b@ == hex_value(text@),
{
    hex::decode(text).ok()
}

/// Encodes bytes with `hex::encode`.
///
/// Trusted: `hex::encode` writes two lower-case digits per byte, the high
/// half first.
#[verifier::external_body]
pub(crate) fn encode_hex(bytes: &[u8]) -> (text: String)
    ensures
        text@ == hex_lower(bytes@),
{
    hex::encode(bytes)
}

/// Encoding then decoding gives the bytes back: what `hex_lower` writes is
/// hexadecimal text, and `hex_value` reads the same bytes from it.
pub proof fn lemma_hex_round_trip(bytes: Seq<u8>)
    ensures
        is_hex_text(hex_lower(bytes)),
        hex_value(hex_lower(bytes)) == bytes,
        hex_lower(bytes).len() == 2 * bytes.len(),
{
    let text = hex_lower(bytes);
    assert forall|i: int| 0 <= i < text.len() implies is_hex_digit(#[trigger] text[i]) by {
        let b = bytes[i / 2] as int;
        assert(0 <= b / 16 < 16 && 0 <= b % 16 < 16);
    }
    assert forall|k: int| 0 <= k < bytes.len() implies hex_value(text)[k] == bytes[k] by {
        let b = bytes[k] as int;
        assert((2 * k) / 2 == k && (2 * k + 1) / 2 == k);
        assert((2 * k) % 2 == 0 && (2 * k + 1) % 2 == 1);
        assert(0 <= b / 16 < 16 && 0 <= b % 16 < 16);
        assert(hex_digit_value(lower_hex_digit(b / 16)) == b / 16);
        assert(hex_digit_value(lower_hex_digit(b % 16)) == b % 16);
        assert(16 * (b / 16) + b % 16 == b);
    }
    assert(hex_value(text) =~= bytes);
}

} // verus!
