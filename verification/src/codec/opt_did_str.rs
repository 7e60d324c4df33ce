//! An optional DID as an optional `did:chia:` string.

use vstd::prelude::*;

use super::{did_str, CodecError};
use crate::identity::Did;

verus! {

/// The `did:chia:` string of a DID, if there is one.
pub fn serialize(did: &Option<Did>) -> (res: Option<String>)
    ensures
        match did {
            Some(did) => res matches Some(text) && text@ == did@.text && did@.valid(),
            None => res is None,
        },
{
    match did {
        Some(did) => Some(did_str::serialize(did)),
        None => None,
    }
}

/// Parse an optional DID, rejecting a value that is present but malformed.
pub fn deserialize(raw: Option<&str>) -> (res: core::result::Result<Option<Did>, CodecError>)
    ensures
        match raw {
            None => res matches Ok(did) && did is None,
            Some(text) => match crate::identity::parsed_did(text@) {
                Some((canonical, launcher_id)) => {
                    &&& res matches Ok(Some(did))
                    &&& did@.text == canonical
                    &&& did@.launcher_id == launcher_id
                    &&& did@.valid()
                },
                None => res matches Err(error) && error == CodecError::NotADid,
            },
        },
{
    match raw {
        None => Ok(None),
        Some(text) => match did_str::deserialize(text) {
            Ok(did) => Ok(Some(did)),
            Err(error) => Err(error),
        },
    }
}

} // verus!
