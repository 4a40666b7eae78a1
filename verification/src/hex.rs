//! Hexadecimal text: how nonces and public keys are written to the state files.

use data_encoding::HEXLOWER_PERMISSIVE;
use vstd::prelude::*;
use vstd::string::*;

verus! {

/// The lower-case hexadecimal digit of a value below 16.
pub open spec fn hex_digit(value: int) -> char {
    if value < 10 {
        (48 + value) as char
    } else {
        (87 + value) as char
    }
}

/// The value of a hexadecimal digit of either case, if `c` is one.
pub open spec fn digit_value(c: char) -> Option<int> {
    if '0' <= c <= '9' {
        Some(c as int - 48)
    } else if 'a' <= c <= 'f' {
        Some(c as int - 87)
    } else if 'A' <= c <= 'F' {
        Some(c as int - 55)
    } else {
        None
    }
}

/// The lower-case hexadecimal text of some bytes: two digits per byte, the high one first.
pub open spec fn hex_text(bytes: Seq<u8>) -> Seq<char> {
    Seq::new(
        2 * bytes.len(),
        |i: int|
            if i % 2 == 0 {
                hex_digit(bytes[i / 2] as int / 16)
            } else {
                hex_digit(bytes[i / 2] as int % 16)
            },
    )
}

/// Whether a text consists of pairs of hexadecimal digits of either case.
pub open spec fn is_hex(text: Seq<char>) -> bool {
    &&& text.len() % 2 == 0
    &&& forall|i: int| 0 <= i < text.len() ==> digit_value(#[trigger] text[i]) is Some
}

/// The bytes that a hexadecimal text stands for.
pub open spec fn hex_bytes(text: Seq<char>) -> Seq<u8>
    recommends
        is_hex(text),
{
    Seq::new(
        text.len() / 2,
        |i: int| (16 * digit_value(text[2 * i])->0 + digit_value(text[2 * i + 1])->0) as u8,
    )
}

/// Calls `data_encoding::Encoding::encode` of `HEXLOWER_PERMISSIVE`, which writes each byte as
/// two lower-case digits. The length bound is the one below which that call does not panic.
#[verifier::external_body]
pub(crate) fn hex_encode(bytes: &[u8]) -> (text: String)
    requires
        bytes@.len() <= usize::MAX / 512,
    ensures
        text@ == hex_text(bytes@),
{
    HEXLOWER_PERMISSIVE.encode(bytes)
}

/// Calls `data_encoding::Encoding::decode` of `HEXLOWER_PERMISSIVE` on the text's UTF-8 bytes.
/// That encoding has no padding and ignores no character: it accepts the pairs of digits of either
/// case and nothing else. The length bound is the one below which the call does not panic.
#[verifier::external_body]
pub(crate) fn hex_decode(text: &str) -> (bytes: Option<Vec<u8>>)
    requires
        text.spec_bytes().len() <= usize::MAX / 8,
    ensures
        bytes is Some <==> is_hex(text@),
        bytes matches Some(bytes) ==> bytes@ == hex_bytes(text@),
{
    HEXLOWER_PERMISSIVE.decode(text.as_bytes()).ok()
}

/// Hexadecimal text gives back the bytes it was made from.
pub proof fn hex_round_trips(bytes: Seq<u8>)
    ensures
        is_hex(hex_text(bytes)),
        hex_bytes(hex_text(bytes)) == bytes,
{
    let text = hex_text(bytes);
    assert forall|i: int| 0 <= i < text.len() implies digit_value(#[trigger] text[i]) is Some by {}
    assert forall|i: int| 0 <= i < bytes.len() implies hex_bytes(text)[i] == bytes[i] by {
        assert((2 * i) / 2 == i && (2 * i + 1) / 2 == i);
        assert(digit_value(text[2 * i]) == Some(bytes[i] as int / 16));
        assert(digit_value(text[2 * i + 1]) == Some(bytes[i] as int % 16));
    }
    assert(hex_bytes(text) =~= bytes);
}

/// Different bytes have different hexadecimal texts.
pub proof fn hex_text_is_injective(a: Seq<u8>, b: Seq<u8>)
    ensures
        hex_text(a) == hex_text(b) <==> a == b,
{
    hex_round_trips(a);
    hex_round_trips(b);
}

/// Each byte is written as two digits out of `0` to `9` and `a` to `f`, the high one first.
pub proof fn bytes_are_written_in_lower_case(bytes: Seq<u8>, i: int)
    requires
        0 <= i < bytes.len(),
    ensures
        hex_text(bytes).len() == 2 * bytes.len(),
        hex_text(bytes)[2 * i] == "0123456789abcdef"@[bytes[i] as int / 16],
        hex_text(bytes)[2 * i + 1] == "0123456789abcdef"@[bytes[i] as int % 16],
{
    reveal_strlit("0123456789abcdef");
    assert((2 * i) / 2 == i && (2 * i + 1) / 2 == i);
}

/// A digit is read the same in either case: as its position among `0` to `9` and `a` to `f`.
pub proof fn digits_are_read_in_either_case(value: int)
    requires
        0 <= value < 16,
    ensures
        digit_value("0123456789abcdef"@[value]) == Some(value),
        digit_value("0123456789ABCDEF"@[value]) == Some(value),
{
    reveal_strlit("0123456789abcdef");
    reveal_strlit("0123456789ABCDEF");
}

} // verus!
