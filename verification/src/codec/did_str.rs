//! A DID as its `did:chia:` string.

use vstd::prelude::*;

use super::CodecError;
use crate::identity::Did;

verus! {

/// The `did:chia:` string of a DID.
pub fn serialize(did: &Did) -> (res: String)
    ensures
        res@ == did@.text,
        did@.valid(),
{
    did.as_str().to_owned()
}

/// Parse a DID from its `did:chia:` string, rejecting anything malformed.
pub fn deserialize(raw: &str) -> (res: core::result::Result<Did, CodecError>)
    ensures
        match res {
            Ok(did) => {
                &&& crate::identity::parsed_did(raw@) == Some((did@.text, did@.launcher_id))
                &&& did@.valid()
            },
            Err(error) => {
                &&& error == CodecError::NotADid
                &&& crate::identity::parsed_did(raw@) is None
            },
        },
{
    match Did::parse(raw) {
        Some(did) => Ok(did),
        None => Err(CodecError::NotADid),
    }
}

/// The text of a DID is read back as that DID.
pub proof fn did_text_round_trip(did: crate::identity::DidView)
    requires
        did.valid(),
    ensures
        crate::identity::parsed_did(did.text) == Some((did.text, did.launcher_id)),
{
}

} // verus!
