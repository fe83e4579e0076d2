//! Hexadecimal text as it appears in the signature header and in the
//! configured verification key.

use hex::FromHexError;
use vstd::prelude::*;

verus! {

/// The value of one ASCII hexadecimal digit, upper or lower case.
pub open spec fn hex_digit_value(c: u8) -> Option<u8> {
    if 0x30 <= c <= 0x39 {
        Some((c - 0x30) as u8)
    } else if 0x41 <= c <= 0x46 {
        Some((c - 0x41 + 10) as u8)
    } else if 0x61 <= c <= 0x66 {
        Some((c - 0x61 + 10) as u8)
    } else {
        None
    }
}

/// Whether `text` is an even number of hexadecimal digits.
pub open spec fn is_hex(text: Seq<u8>) -> bool {
    &&& text.len() % 2 == 0
    &&& forall|i: int| 0 <= i < text.len() ==> (#[trigger] hex_digit_value(text[i])) is Some
}

/// The byte that a pair of hexadecimal digits stands for.
pub open spec fn hex_pair_value(high: u8, low: u8) -> u8 {
    (16 * hex_digit_value(high).unwrap() + hex_digit_value(low).unwrap()) as u8
}

/// The bytes that hexadecimal `text` stands for, two digits to a byte.
pub open spec fn hex_bytes(text: Seq<u8>) -> Seq<u8> {
    Seq::new((text.len() / 2) as nat, |i: int| hex_pair_value(text[2 * i], text[2 * i + 1]))
}

/// The error of `hex::decode`, carried through as it comes.
#[verifier::external_type_specification]
#[verifier::external_body]
pub struct ExFromHexError(FromHexError);

/// Calls `hex::decode`. Trusted: it succeeds exactly on an even number of
/// hexadecimal digits of either case, and then returns one byte per pair of
/// digits, the first digit of a pair being the high half.
#[verifier::external_body]
pub(crate) fn decode_hex(text: &[u8]) -> (decoded: Result<Vec<u8>, FromHexError>)
    ensures
        decoded is Ok <==> is_hex(text@),
        decoded matches Ok(bytes) ==> bytes@ == hex_bytes(text@),
{
    hex::decode(text)
}

/// Whether `c` is one of the letters among the hexadecimal digits.
pub open spec fn is_hex_letter(c: u8) -> bool {
    0x41 <= c <= 0x46 || 0x61 <= c <= 0x66
}

/// Whether `d` is the hexadecimal letter `c` in the other case. The two
/// differ in one bit.
pub open spec fn is_case_flip(c: u8, d: u8) -> bool {
    is_hex_letter(c) && c ^ d == 0x20
}

/// Whether `c` and `d` differ in exactly one bit.
pub open spec fn one_bit_apart(c: u8, d: u8) -> bool {
    let x = c ^ d;
    x == 0x01 || x == 0x02 || x == 0x04 || x == 0x08 || x == 0x10 || x == 0x20 || x == 0x40 || x
        == 0x80
}

/// Two different characters are hexadecimal digits of the same value only
/// when they are one letter in its two cases.
pub proof fn lemma_digits_of_equal_value(c: u8, d: u8)
    requires
        hex_digit_value(c) is Some,
        c != d,
    ensures
        hex_digit_value(d) == hex_digit_value(c) <==> is_case_flip(c, d),
{
    assert(0x41 <= c && c <= 0x46 && c ^ d == 0x20 ==> 0x61 <= d && d <= 0x66 && d - c == 0x20)
        by (bit_vector);
    assert(0x61 <= c && c <= 0x66 && c ^ d == 0x20 ==> 0x41 <= d && d <= 0x46 && c - d == 0x20)
        by (bit_vector);
    assert(0x41 <= c && c <= 0x46 && 0x61 <= d && d <= 0x66 && d - c == 0x20 ==> c ^ d == 0x20)
        by (bit_vector);
    assert(0x61 <= c && c <= 0x66 && 0x41 <= d && d <= 0x46 && c - d == 0x20 ==> c ^ d == 0x20)
        by (bit_vector);
}

/// Hexadecimal text that differs from other text of its length in the value
/// of one digit stands for other bytes.
pub proof fn lemma_other_digit_other_bytes(text: Seq<u8>, other: Seq<u8>, at: int)
    requires
        is_hex(text),
        is_hex(other),
        other.len() == text.len(),
        0 <= at < text.len(),
        hex_digit_value(other[at]) != hex_digit_value(text[at]),
    ensures
        hex_bytes(other) != hex_bytes(text),
{
    let i = at / 2;
    assert(hex_digit_value(text[2 * i]) is Some);
    assert(hex_digit_value(text[2 * i + 1]) is Some);
    assert(hex_digit_value(other[2 * i]) is Some);
    assert(hex_digit_value(other[2 * i + 1]) is Some);
    assert(at == 2 * i || at == 2 * i + 1);
    assert(hex_bytes(other)[i] != hex_bytes(text)[i]);
}

/// Hexadecimal text in which one letter changes its case stands for the same
/// bytes.
pub proof fn lemma_case_flip_same_bytes(text: Seq<u8>, other: Seq<u8>, at: int)
    requires
        is_hex(text),
        other.len() == text.len(),
        0 <= at < text.len(),
        forall|j: int| 0 <= j < text.len() && j != at ==> other[j] == text[j],
        is_case_flip(text[at], other[at]),
    ensures
        is_hex(other),
        hex_bytes(other) == hex_bytes(text),
{
    let (c, d) = (text[at], other[at]);
    assert(c != d) by (bit_vector)
        requires
            c ^ d == 0x20,
    ;
    assert(hex_digit_value(c) is Some);
    lemma_digits_of_equal_value(c, d);
    assert forall|j: int| 0 <= j < other.len() implies hex_digit_value(other[j]) == hex_digit_value(
        text[j],
    ) by {
        if j != at {
            assert(other[j] == text[j]);
        }
    }
    assert forall|j: int| 0 <= j < other.len() implies (#[trigger] hex_digit_value(
        other[j],
    )) is Some by {
        assert(hex_digit_value(other[j]) == hex_digit_value(text[j]));
        assert(hex_digit_value(text[j]) is Some);
    }
    assert(hex_bytes(other) =~= hex_bytes(text));
}

} // verus!
