//! What the identifiers and their text forms do, stated of the calls of them.

use vstd::prelude::*;
use vstd::utf8::*;

use crate::codec::{did_str, hex_bytes32, opt_did_str, CodecError, HexError};
use crate::identity::{bech32m_address, bls_public_key, parsed_did, Bytes32, Did, SecretKey};

verus! {

/// An id is the 32 bytes that it is made of, whichever way it is made, and gives them back. Two
/// ids are equal exactly if their bytes are.
pub proof fn ids_are_their_bytes(
    bytes: [u8; 32],
    id: Bytes32,
    back: [u8; 32],
    converted: Bytes32,
    other: Bytes32,
    equal: bool,
)
    requires
        call_ensures(Bytes32::new, (bytes,), id),
        call_ensures(Bytes32::to_bytes, (&id,), back),
        call_ensures(<Bytes32 as From<[u8; 32]>>::from, (bytes,), converted),
        call_ensures(<Bytes32 as PartialEq>::eq, (&id, &other), equal),
    ensures
        id@ == bytes@,
        back@ == bytes@,
        converted@ == bytes@,
        equal <==> other@ == bytes@,
{
    Bytes32::from_keeps_the_bytes(bytes);
}

/// A text is accepted as a DID exactly if dig-identity parses it; the DID then has the canonical
/// text and the launcher id that dig-identity found, and gives them back. Its canonical text
/// parses to the same DID.
pub proof fn dids_are_what_parses(
    text: &str,
    res: Option<Did>,
    spelled: &str,
    launcher_id: Bytes32,
    again: Option<Did>,
)
    requires
        call_ensures(Did::parse, (text,), res),
        res matches Some(did) ==> {
            &&& call_ensures(Did::as_str, (&did,), spelled)
            &&& call_ensures(Did::launcher_id, (&did,), launcher_id)
            &&& call_ensures(Did::parse, (spelled,), again)
        },
    ensures
        res is Some <==> parsed_did(text@) is Some,
        res matches Some(did) ==> {
            &&& parsed_did(text@) == Some((spelled@, launcher_id@))
            &&& again matches Some(same)
            &&& same@ == did@
            &&& did@.text == spelled@
            &&& did@.launcher_id == launcher_id@
        },
{
    if let (Some(did), Some(same)) = (res, again) {
        assert(same@ =~= did@);
    }
}

/// Every launcher id has a DID: the one that chia's address codec spells, which has that launcher
/// id.
pub proof fn launcher_ids_have_dids(launcher_id: &Bytes32, res: Option<Did>)
    requires
        call_ensures(Did::of_launcher, (launcher_id,), res),
    ensures
        res matches Some(did) && {
            &&& did@.launcher_id == launcher_id@
            &&& bech32m_address(launcher_id@, "did:chia:"@) == Some(did@.text)
            &&& parsed_did(did@.text) == Some((did@.text, launcher_id@))
        },
{
}

/// 32 bytes are accepted as a secret key exactly if they are one; the key gives them back, and its
/// public key is the one that belongs to them.
pub proof fn secret_keys_are_their_bytes(
    bytes: &[u8; 32],
    res: Option<SecretKey>,
    back: [u8; 32],
    public: [u8; 48],
    copy: SecretKey,
)
    requires
        call_ensures(SecretKey::from_bytes, (bytes,), res),
        res matches Some(secret) ==> {
            &&& call_ensures(SecretKey::to_bytes, (&secret,), back)
            &&& call_ensures(SecretKey::public_key, (&secret,), public)
            &&& call_ensures(<SecretKey as Clone>::clone, (&secret,), copy)
        },
    ensures
        res is Some <==> bls_public_key(bytes@) is Some,
        res matches Some(secret) ==> {
            &&& back@ == bytes@
            &&& copy@ == bytes@
            &&& bls_public_key(bytes@) == Some(public@)
        },
{
}

/// A DID that is written as text is its canonical text, and is read back as it was.
pub proof fn did_texts_are_read_back(
    did: &Did,
    text: String,
    raw: &str,
    res: core::result::Result<Did, CodecError>,
)
    requires
        call_ensures(did_str::serialize, (did,), text),
        raw@ == text@,
        call_ensures(did_str::deserialize, (raw,), res),
    ensures
        text@ == did@.text,
        res matches Ok(back) && back@ == did@,
{
    if let Ok(back) = res {
        assert(back@ =~= did@);
    }
}

/// A text is read as a DID exactly if dig-identity parses it, and is refused as none otherwise.
pub proof fn did_texts_are_read_exactly(raw: &str, res: core::result::Result<Did, CodecError>)
    requires
        call_ensures(did_str::deserialize, (raw,), res),
    ensures
        match parsed_did(raw@) {
            Some((text, launcher_id)) => {
                &&& res matches Ok(did)
                &&& did@.text == text
                &&& did@.launcher_id == launcher_id
            },
            None => res matches Err(error) && error == CodecError::NotADid,
        },
{
}

/// An optional DID is written and read as a DID is where there is one, and as nothing where there
/// is none.
pub proof fn optional_did_texts_are_read_back(
    did: &Option<Did>,
    text: Option<String>,
    raw: Option<&str>,
    res: core::result::Result<Option<Did>, CodecError>,
)
    requires
        call_ensures(opt_did_str::serialize, (did,), text),
        match (text, raw) {
            (Some(text), Some(raw)) => raw@ == text@,
            (None, None) => true,
            _ => false,
        },
        call_ensures(opt_did_str::deserialize, (raw,), res),
    ensures
        match *did {
            Some(did) => {
                &&& text matches Some(spelled) && spelled@ == did@.text
                &&& res matches Ok(Some(back)) && back@ == did@
            },
            None => text is None && (res matches Ok(back) && back is None),
        },
{
    if let Ok(Some(back)) = res {
        if let Some(did) = *did {
            assert(back@ =~= did@);
        }
    }
}

/// An optional text is read as a DID exactly if dig-identity parses it, and is refused as none
/// otherwise; no text is no DID.
pub proof fn optional_did_texts_are_read_exactly(
    raw: Option<&str>,
    res: core::result::Result<Option<Did>, CodecError>,
)
    requires
        call_ensures(opt_did_str::deserialize, (raw,), res),
    ensures
        match raw {
            None => res matches Ok(did) && did is None,
            Some(raw) => match parsed_did(raw@) {
                Some((text, launcher_id)) => {
                    &&& res matches Ok(Some(did))
                    &&& did@.text == text
                    &&& did@.launcher_id == launcher_id
                },
                None => res matches Err(error) && error == CodecError::NotADid,
            },
        },
{
}

/// An id is written as two lowercase hex digits for each byte, and is read back as it was.
pub proof fn hex_texts_are_read_back(
    id: &Bytes32,
    text: String,
    raw: &str,
    res: core::result::Result<Bytes32, CodecError>,
)
    requires
        id@.len() == 32,
        call_ensures(hex_bytes32::serialize, (id,), text),
        raw@ == text@,
        call_ensures(hex_bytes32::deserialize, (raw,), res),
    ensures
        text@.len() == 64,
        forall|i: int|
            0 <= i < 32 ==> {
                &&& #[trigger] lowercase_digit(text@[2 * i], id@[i] as int / 16)
                &&& lowercase_digit(text@[2 * i + 1], id@[i] as int % 16)
            },
        res matches Ok(back) && back@ == id@,
{
    hex_bytes32::hex_round_trip(id@);
    let digits = encode_utf8(text@);
    match res {
        Ok(back) => {
            hex_bytes32::hex_decoding_is_determined(digits, Ok(back@), Ok(id@));
        },
        Err(CodecError::Hex(error)) => {
            hex_bytes32::hex_decoding_is_determined(digits, Err(error), Ok(id@));
        },
        Err(CodecError::WrongLength) => {
            hex_bytes32::hex_decoding_is_determined(
                digits,
                Ok(hex_bytes32::hex_bytes(digits)),
                Ok(id@),
            );
        },
        Err(CodecError::NotADid) => {},
    }
}

/// A character is the lowercase hex digit of a number.
pub open spec fn lowercase_digit(digit: char, n: int) -> bool {
    if n < 10 {
        digit as int == '0' as int + n
    } else {
        digit as int == 'a' as int + n - 10
    }
}

/// The value of a byte that is a hex digit, of either case.
pub open spec fn digit_value(byte: u8) -> int {
    if byte <= '9' as int {
        byte - '0' as int
    } else if byte <= 'F' as int {
        byte - 'A' as int + 10
    } else {
        byte - 'a' as int + 10
    }
}

/// A byte is a hex digit of either case.
pub open spec fn is_digit(byte: u8) -> bool {
    ||| '0' as int <= byte <= '9' as int
    ||| 'a' as int <= byte <= 'f' as int
    ||| 'A' as int <= byte <= 'F' as int
}

/// A text is read as an id exactly if it is 64 hex digits, of either case, and then as the 32 bytes
/// that they spell. An odd number of bytes is refused first, a byte that is no hex digit next, with
/// the first such byte and its place, and another number of digits at last.
pub proof fn hex_texts_are_read_exactly(raw: &str, res: core::result::Result<Bytes32, CodecError>)
    requires
        call_ensures(hex_bytes32::deserialize, (raw,), res),
    ensures
        ({
            let digits = encode_utf8(raw@);
            match res {
                Ok(id) => {
                    &&& digits.len() == 64
                    &&& id@.len() == 32
                    &&& forall|i: int| 0 <= i < 64 ==> is_digit(#[trigger] digits[i])
                    &&& forall|i: int|
                        0 <= i < 32 ==> #[trigger] id@[i] == digit_value(digits[2 * i]) * 16
                            + digit_value(digits[2 * i + 1])
                },
                Err(CodecError::Hex(HexError::OddLength)) => digits.len() % 2 == 1,
                Err(CodecError::Hex(HexError::InvalidHexCharacter { c, index })) => {
                    &&& digits.len() % 2 == 0
                    &&& index < digits.len()
                    &&& !is_digit(digits[index as int])
                    &&& c as int == digits[index as int]
                    &&& forall|i: int| 0 <= i < index ==> is_digit(#[trigger] digits[i])
                },
                Err(CodecError::WrongLength) => {
                    &&& digits.len() % 2 == 0
                    &&& digits.len() != 64
                    &&& forall|i: int| 0 <= i < digits.len() ==> is_digit(#[trigger] digits[i])
                },
                _ => false,
            }
        }),
{
    let digits = encode_utf8(raw@);
    assert forall|byte: u8| is_digit(byte) implies #[trigger] hex_bytes32::hex_value(byte) == Some(
        digit_value(byte),
    ) by {}
    match res {
        Ok(id) => {
            assert forall|i: int| 0 <= i < 64 implies is_digit(#[trigger] digits[i]) by {
                assert(hex_bytes32::hex_value(digits[i]) is Some);
            }
            assert forall|i: int| 0 <= i < 32 implies #[trigger] id@[i] == digit_value(
                digits[2 * i],
            ) * 16 + digit_value(digits[2 * i + 1]) by {
                assert(is_digit(digits[2 * i]) && is_digit(digits[2 * i + 1]));
                assert(id@[i] == hex_bytes32::hex_bytes(digits)[i]);
            }
        },
        Err(CodecError::Hex(HexError::InvalidHexCharacter { c, index })) => {
            assert forall|i: int| 0 <= i < index implies is_digit(#[trigger] digits[i]) by {
                assert(hex_bytes32::hex_value(digits[i]) is Some);
            }
        },
        Err(CodecError::WrongLength) => {
            assert forall|i: int| 0 <= i < digits.len() implies is_digit(#[trigger] digits[i]) by {
                assert(hex_bytes32::hex_value(digits[i]) is Some);
            }
        },
        _ => {},
    }
}

} // verus!
