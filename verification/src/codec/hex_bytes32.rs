//! A 32-byte id as a lowercase hex string of 64 digits.

use vstd::prelude::*;
use vstd::utf8::*;

use super::{CodecError, HexError};
use crate::bytes;
use crate::identity::Bytes32;

verus! {

/// The lowercase hex digit of a number below 16.
pub open spec fn hex_digit(n: int) -> char {
    if n < 10 {
        (48 + n) as char
    } else {
        (87 + n) as char
    }
}

/// The value of a hex digit, given by its ASCII code, in either case.
pub open spec fn hex_value(digit: u8) -> Option<int> {
    if 48 <= digit <= 57 {
        Some(digit - 48)
    } else if 97 <= digit <= 102 {
        Some(digit - 87)
    } else if 65 <= digit <= 70 {
        Some(digit - 55)
    } else {
        None
    }
}

/// The lowercase hex form of some bytes: two digits for each.
pub open spec fn hex_text(bytes: Seq<u8>) -> Seq<char> {
    Seq::new(
        2 * bytes.len(),
        |i: int|
            if i % 2 == 0 {
                hex_digit(bytes[i / 2] as int / 16)
            } else {
                hex_digit(bytes[i / 2] as int % 16)
            },
    )
}

/// Every one of the first `n` characters is a hex digit.
pub open spec fn hex_up_to(digits: Seq<u8>, n: int) -> bool {
    forall|i: int| 0 <= i < n ==> hex_value(#[trigger] digits[i]) is Some
}

/// The bytes that an even number of hex digits spells.
pub open spec fn hex_bytes(digits: Seq<u8>) -> Seq<u8> {
    Seq::new(
        digits.len() / 2,
        |i: int| (hex_value(digits[2 * i])->0 * 16 + hex_value(digits[2 * i + 1])->0) as u8,
    )
}

/// What decoding the digits of a hex string comes to: the bytes, or the fault. An odd length is
/// found before any wrong character, and of these the first.
pub open spec fn hex_decoded(
    digits: Seq<u8>,
    res: core::result::Result<Seq<u8>, HexError>,
) -> bool {
    match res {
        Ok(bytes) => {
            &&& digits.len() % 2 == 0
            &&& hex_up_to(digits, digits.len() as int)
            &&& bytes == hex_bytes(digits)
        },
        Err(HexError::OddLength) => digits.len() % 2 == 1,
        Err(HexError::InvalidHexCharacter { c, index }) => {
            &&& digits.len() % 2 == 0
            &&& index < digits.len()
            &&& hex_up_to(digits, index as int)
            &&& hex_value(digits[index as int]) is None
            &&& c == digits[index as int] as char
        },
        Err(HexError::InvalidStringLength) => false,
    }
}

/// Calls `hex::encode`.
///
/// Trusted: the result is the lowercase hex form of the bytes.
#[verifier::external_body]
fn encode(bytes: &[u8]) -> (res: String)
    ensures
        res@ == hex_text(bytes@),
{
    hex::encode(bytes)
}

/// Calls `hex::decode`.
///
/// Trusted: the text is read by its UTF-8 bytes, see [`hex_decoded`].
#[verifier::external_body]
fn decode(text: &str) -> (res: core::result::Result<Vec<u8>, HexError>)
    ensures
        match res {
            Ok(bytes) => hex_decoded(encode_utf8(text@), Ok(bytes@)),
            Err(error) => hex_decoded(encode_utf8(text@), Err(error)),
        },
{
    hex::decode(text).map_err(|error| match error {
        hex::FromHexError::InvalidHexCharacter { c, index } => {
            HexError::InvalidHexCharacter { c, index }
        }
        hex::FromHexError::OddLength => HexError::OddLength,
        hex::FromHexError::InvalidStringLength => HexError::InvalidStringLength,
    })
}

/// The lowercase hex string of an id.
pub fn serialize(id: &Bytes32) -> (res: String)
    ensures
        res@ == hex_text(id@),
{
    encode(id.to_bytes().as_slice())
}

/// Parse an id from hex, rejecting what is not hex or not 32 bytes.
pub fn deserialize(raw: &str) -> (res: core::result::Result<Bytes32, CodecError>)
    ensures
        match res {
            Ok(id) => hex_decoded(encode_utf8(raw@), Ok(id@)) && id@.len() == 32,
            Err(CodecError::Hex(error)) => hex_decoded(encode_utf8(raw@), Err(error)),
            Err(CodecError::WrongLength) => {
                let bytes = hex_bytes(encode_utf8(raw@));
                hex_decoded(encode_utf8(raw@), Ok(bytes)) && bytes.len() != 32
            },
            Err(CodecError::NotADid) => false,
        },
{
    let decoded = match decode(raw) {
        Ok(decoded) => decoded,
        Err(error) => return Err(CodecError::Hex(error)),
    };
    if decoded.len() != 32 {
        return Err(CodecError::WrongLength);
    }
    let array = bytes::field32(decoded.as_slice(), 0);
    assert(array@ =~= decoded@);
    Ok(Bytes32::new(array))
}

/// The outcome of decoding is determined by the digits.
pub proof fn hex_decoding_is_determined(
    digits: Seq<u8>,
    a: core::result::Result<Seq<u8>, HexError>,
    b: core::result::Result<Seq<u8>, HexError>,
)
    requires
        hex_decoded(digits, a),
        hex_decoded(digits, b),
    ensures
        a == b,
{
    match (a, b) {
        (
            Err(HexError::InvalidHexCharacter { c, index }),
            Err(HexError::InvalidHexCharacter { c: d, index: other }),
        ) => {
            if index < other {
                assert(hex_value(digits[index as int]) is Some);
            } else if other < index {
                assert(hex_value(digits[other as int]) is Some);
            }
        },
        (Err(HexError::InvalidHexCharacter { c, index }), Ok(_)) => {
            assert(hex_value(digits[index as int]) is Some);
        },
        (Ok(_), Err(HexError::InvalidHexCharacter { c, index })) => {
            assert(hex_value(digits[index as int]) is Some);
        },
        _ => {},
    }
}

/// Decoding the hex form of some bytes gives the bytes back.
pub proof fn hex_round_trip(bytes: Seq<u8>)
    ensures
        hex_decoded(encode_utf8(hex_text(bytes)), Ok(bytes)),
{
    let text = hex_text(bytes);
    is_ascii_chars_encode_utf8(text);
    let digits = encode_utf8(text);
    assert forall|i: int| 0 <= i < text.len() implies hex_value(#[trigger] digits[i]) == Some(
        if i % 2 == 0 {
            bytes[i / 2] as int / 16
        } else {
            bytes[i / 2] as int % 16
        },
    ) by {
        assert(digits[i] == text[i] as u8);
    }
    assert(hex_bytes(digits) =~= bytes);
}

} // verus!
