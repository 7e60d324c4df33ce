//! The readable text forms of identifiers, as persisted state spells them: a `did:chia:` string for
//! a DID and a lowercase hex string for a 32-byte id.

use vstd::prelude::*;

pub mod did_str;
pub mod hex_bytes32;
pub mod opt_did_str;

verus! {

/// Why a text is not the hex form of some bytes.
#[derive(Debug, Clone, Copy, PartialEq, Eq, Structural)]
pub enum HexError {
    /// A character that is not a hex digit, with its position.
    InvalidHexCharacter { c: char, index: usize },
    /// An odd number of digits.
    OddLength,
    /// A number of digits that does not fit a container of fixed size.
    InvalidStringLength,
}

/// Why a text form was not accepted.
#[derive(Debug, Clone, Copy, PartialEq, Eq, Structural)]
pub enum CodecError {
    /// Not a valid `did:chia:` string.
    NotADid,
    /// Not a hex string.
    Hex(HexError),
    /// A hex string of another length than 32 bytes.
    WrongLength,
}

} // verus!
