//! Hexadecimal text, as the `hex` crate writes and reads it.
use vstd::prelude::*;
use vstd::string::StringSliceAdditionalSpecFns;
use vstd::utf8::{encode_utf8, is_ascii_chars, is_ascii_chars_encode_utf8};

verus! {

/// Why a text is no hexadecimal encoding of bytes.
#[derive(Clone, Copy, Debug, PartialEq, Eq, Structural)]
pub enum HexFault {
    /// The byte `c` at position `index` is no hexadecimal digit.
    InvalidHexCharacter { c: char, index: usize },
    /// The text has an odd number of digits.
    OddLength,
    /// The text does not fill the container it is decoded into.
    InvalidStringLength,
}

/// The lower-case digit of a value below sixteen.
pub open spec fn hex_digit(value: u8) -> char {
    if value < 10 {
        (48 + value) as char
    } else {
        (87 + value) as char
    }
}

/// The value of a digit in either case; `None` for any other byte.
pub open spec fn hex_value(digit: u8) -> Option<u8> {
    if 48 <= digit <= 57 {
        Some((digit - 48) as u8)
    } else if 97 <= digit <= 102 {
        Some((digit - 87) as u8)
    } else if 65 <= digit <= 70 {
        Some((digit - 55) as u8)
    } else {
        None
    }
}

/// Two lower-case digits for each byte, the high half first.
pub open spec fn hex_encoded(bytes: Seq<u8>) -> Seq<char> {
    Seq::new(
        2 * bytes.len(),
        |i: int|
            if i % 2 == 0 {
                hex_digit(bytes[i / 2] / 16)
            } else {
                hex_digit(bytes[i / 2] % 16)
            },
    )
}

/// `i` is the position of the first byte of `text` that is no digit.
pub open spec fn first_bad_digit(text: Seq<u8>, i: int) -> bool {
    &&& 0 <= i < text.len()
    &&& hex_value(text[i]) is None
    &&& forall|j: int| 0 <= j < i ==> hex_value(#[trigger] text[j]) is Some
}

/// The bytes that `text` encodes, or what is wrong with it: an odd length
/// comes before a bad digit, and of the bad digits the first is named.
pub open spec fn hex_decoded(text: Seq<u8>) -> Result<Seq<u8>, HexFault> {
    if text.len() % 2 != 0 {
        Err(HexFault::OddLength)
    } else if exists|i: int| first_bad_digit(text, i) {
        let i = choose|i: int| first_bad_digit(text, i);
        Err(HexFault::InvalidHexCharacter { c: text[i] as char, index: i as usize })
    } else {
        Ok(
            Seq::new(
                text.len() / 2,
                |k: int| (hex_value(text[2 * k])->0 * 16 + hex_value(text[2 * k + 1])->0) as u8,
            ),
        )
    }
}

/// A digit that was written for a value reads as that value.
pub proof fn lemma_digit_reads_back(value: u8)
    requires
        value < 16,
    ensures
        '\0' <= hex_digit(value) <= '\u{7f}',
        hex_value(hex_digit(value) as u8) == Some(value),
{
}

/// The text that stands for some bytes stands for no others: decoding the
/// encoding gives the bytes back.
pub proof fn law_hex_round_trip(bytes: Seq<u8>)
    ensures
        hex_decoded(encode_utf8(hex_encoded(bytes))) == Ok::<Seq<u8>, HexFault>(bytes),
{
    let chars = hex_encoded(bytes);
    assert forall|i: int| 0 <= i < chars.len() implies '\0' <= #[trigger] chars[i] <= '\u{7f}' by {
        lemma_digit_reads_back(bytes[i / 2] / 16);
        lemma_digit_reads_back(bytes[i / 2] % 16);
    }
    assert(is_ascii_chars(chars));
    is_ascii_chars_encode_utf8(chars);
    let text = encode_utf8(chars);
    assert forall|i: int| 0 <= i < text.len() implies hex_value(#[trigger] text[i]) == Some(
        if i % 2 == 0 {
            bytes[i / 2] / 16
        } else {
            bytes[i / 2] % 16
        },
    ) by {
        assert(text[i] == chars[i] as u8);
        lemma_digit_reads_back(bytes[i / 2] / 16);
        lemma_digit_reads_back(bytes[i / 2] % 16);
    }
    assert(!exists|i: int| first_bad_digit(text, i));
    let decoded = Seq::new(
        text.len() / 2,
        |k: int| (hex_value(text[2 * k])->0 * 16 + hex_value(text[2 * k + 1])->0) as u8,
    );
    assert forall|k: int| 0 <= k < bytes.len() implies decoded[k] == bytes[k] by {
        assert(hex_value(text[2 * k]) == Some(bytes[k] / 16));
        assert(hex_value(text[2 * k + 1]) == Some(bytes[k] % 16));
    }
    assert(decoded =~= bytes);
}

/// Calls `hex::encode`, which writes each byte as two lower-case
/// hexadecimal digits, the high half first.
#[verifier::external_body]
pub(crate) fn hex_encode(bytes: &Vec<u8>) -> (text: String)
    ensures
        text@ == hex_encoded(bytes@),
{
    hex::encode(bytes)
}

/// Calls `hex::decode` on the bytes of `text`. It refuses a text of odd
/// length, then the first byte that is no digit of either case, and else
/// gives one byte for each pair of digits.
#[verifier::external_body]
pub(crate) fn hex_decode(text: &str) -> (r: Result<Vec<u8>, HexFault>)
    ensures
        match r {
            Ok(bytes) => hex_decoded(text.spec_bytes()) == Ok::<Seq<u8>, HexFault>(bytes@),
            Err(e) => hex_decoded(text.spec_bytes()) == Err::<Seq<u8>, HexFault>(e),
        },
{
    match hex::decode(text) {
        Ok(bytes) => Ok(bytes),
        Err(hex::FromHexError::InvalidHexCharacter { c, index }) => Err(
            HexFault::InvalidHexCharacter { c, index },
        ),
        Err(hex::FromHexError::OddLength) => Err(HexFault::OddLength),
        Err(hex::FromHexError::InvalidStringLength) => Err(HexFault::InvalidStringLength),
    }
}

} // verus!
