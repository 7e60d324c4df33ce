//! What encoding and decoding do, stated of the calls of them: byte by byte, with the reason for
//! every refusal, and with what one call gives back of the other.

use vstd::prelude::*;
use vstd::utf8::*;

use crate::error::{ErrorView, Result};
use crate::identity::{parsed_did, Bytes32, Did};
use crate::wire::{MessageView, SealedEnvelope, SealedOffer, SocialMessage, StoreCoords};

verus! {

/// Coordinates are encoded in 134 bytes: the number 68 in two, the 68 characters of the DID in one
/// each, the 32 bytes of the launcher id, and those of the committed root.
pub proof fn coords_are_laid_out(coords: &StoreCoords, bytes: Vec<u8>)
    requires
        call_ensures(StoreCoords::to_canonical_bytes, (coords,), bytes),
        coords@.did.text.len() == 68,
        is_ascii_chars(coords@.did.text),
        coords@.launcher_id.len() == 32,
        coords@.committed_root.len() == 32,
    ensures
        bytes@.len() == 134,
        bytes@[0] == 0,
        bytes@[1] == 68,
        forall|i: int| 0 <= i < 68 ==> #[trigger] bytes@[2 + i] == coords@.did.text[i] as u8,
        bytes@.subrange(70, 102) == coords@.launcher_id,
        bytes@.subrange(102, 134) == coords@.committed_root,
{
    is_ascii_chars_encode_utf8(coords@.did.text);
    let did = encode_utf8(coords@.did.text);
    assert(did.len() == 68);
    assert(bytes@.subrange(70, 102) =~= coords@.launcher_id);
    assert(bytes@.subrange(102, 134) =~= coords@.committed_root);
    assert forall|i: int| 0 <= i < 68 implies #[trigger] bytes@[2 + i]
        == coords@.did.text[i] as u8 by {
        assert(bytes@[2 + i] == did[i]);
    }
}

/// Coordinates that were encoded are decoded again as they were, if they are of the DID's own
/// store; otherwise they are refused for that.
pub proof fn coords_are_read_back(
    coords: &StoreCoords,
    bytes: Vec<u8>,
    buffer: &[u8],
    res: Result<StoreCoords>,
)
    requires
        call_ensures(StoreCoords::to_canonical_bytes, (coords,), bytes),
        buffer@ == bytes@,
        call_ensures(StoreCoords::from_canonical_bytes, (buffer,), res),
        coords@.did.text.len() == 68,
        is_ascii_chars(coords@.did.text),
        parsed_did(coords@.did.text) == Some((coords@.did.text, coords@.did.launcher_id)),
        coords@.did.launcher_id.len() == 32,
        coords@.launcher_id.len() == 32,
        coords@.committed_root.len() == 32,
    ensures
        if coords@.launcher_id == coords@.did.launcher_id {
            res matches Ok(back) && back@ == coords@
        } else {
            res matches Err(error) && error@ == ErrorView::Invariant(
                "store launcher_id does not match the DID's launcher id"@,
            )
        },
{
    if coords@.launcher_id == coords@.did.launcher_id {
        crate::wire::coords_round_trip(coords@);
    } else {
        crate::wire::unpaired_coords_are_refused(coords@);
    }
}

/// A buffer is decoded as coordinates exactly if it spells some: a length in two bytes, as many
/// bytes of UTF-8 that parse as a DID, the DID's own launcher id, a root of 32 bytes, and no more.
/// Of the faults of any other buffer the first, from left to right, is the reason for its refusal.
pub proof fn coords_are_decoded_exactly(buffer: &[u8], res: Result<StoreCoords>)
    requires
        call_ensures(StoreCoords::from_canonical_bytes, (buffer,), res),
    ensures
        ({
            let n = buffer@[0] * 256 + buffer@[1];
            let did = buffer@.subrange(2, 2 + n);
            let len = buffer@.len();
            if len < 2 {
                res matches Err(e) && e@ == ErrorView::Wire(
                    "truncated: missing did length prefix"@,
                )
            } else if len < 2 + n {
                res matches Err(e) && e@ == ErrorView::Wire(
                    "truncated: did shorter than its length prefix"@,
                )
            } else if !valid_utf8(did) {
                res matches Err(e) && e@ == ErrorView::Wire("did is not valid utf-8"@)
            } else {
                match parsed_did(decode_utf8(did)) {
                    None => res matches Err(e) && e@ == ErrorView::Wire(
                        "not a valid did:chia: string"@,
                    ),
                    Some((text, launcher_id)) => if len < 34 + n {
                        res matches Err(e) && e@ == ErrorView::Wire(
                            "truncated: missing launcher id"@,
                        )
                    } else if len < 66 + n {
                        res matches Err(e) && e@ == ErrorView::Wire(
                            "truncated: missing committed root"@,
                        )
                    } else if len > 66 + n {
                        res matches Err(e) && e@ == ErrorView::Wire(
                            "trailing bytes after committed root"@,
                        )
                    } else if buffer@.subrange(2 + n, 34 + n) != launcher_id {
                        res matches Err(e) && e@ == ErrorView::Invariant(
                            "store launcher_id does not match the DID's launcher id"@,
                        )
                    } else {
                        &&& res matches Ok(coords)
                        &&& coords@.did.text == text
                        &&& coords@.did.launcher_id == launcher_id
                        &&& coords@.launcher_id == launcher_id
                        &&& coords@.committed_root == buffer@.subrange(34 + n, 66 + n)
                    },
                }
            }
        }),
{
}

/// Coordinates built from a DID are of the DID's own store, with the root as given, and are valid.
pub proof fn coords_of_a_did_are_its_own(
    did: Did,
    root: Bytes32,
    coords: StoreCoords,
    res: Result<()>,
)
    requires
        call_ensures(StoreCoords::from_did, (did, root), coords),
        call_ensures(StoreCoords::validate, (&coords,), res),
    ensures
        coords@.did == did@,
        coords@.launcher_id == did@.launcher_id,
        coords@.committed_root == root@,
        res is Ok,
{
}

/// Coordinates are valid exactly if the two launcher ids agree.
pub proof fn coords_are_validated_exactly(coords: &StoreCoords, res: Result<()>)
    requires
        call_ensures(StoreCoords::validate, (coords,), res),
    ensures
        res is Ok <==> coords@.launcher_id == coords@.did.launcher_id,
        res matches Err(error) ==> error@ == ErrorView::Invariant(
            "store launcher_id does not match the DID's launcher id"@,
        ),
{
}

/// The offer that a message carries, if it does.
pub open spec fn carried(message: MessageView) -> Option<Seq<u8>> {
    match message {
        MessageView::Request(offer) => Some(offer),
        MessageView::Accept(offer) => Some(offer),
        _ => None,
    }
}

/// The kind of a message, as its tag.
pub open spec fn tag(message: MessageView) -> u8 {
    match message {
        MessageView::Request(_) => 0,
        MessageView::Accept(_) => 1,
        MessageView::Deny => 2,
        MessageView::Revoke => 3,
    }
}

/// A message is encoded as its tag and, if it carries an offer, the offer's length in four bytes,
/// most significant first, and the offer.
pub proof fn message_is_laid_out(message: &SocialMessage, bytes: Vec<u8>)
    requires
        call_ensures(SocialMessage::to_canonical_bytes, (message,), bytes),
    ensures
        bytes@.len() > 0,
        bytes@[0] == tag(message@),
        match carried(message@) {
            None => bytes@.len() == 1,
            Some(offer) => {
                &&& bytes@.len() == 5 + offer.len()
                &&& bytes@.skip(5) == offer
                &&& offer.len() < 0x1_0000_0000 ==> bytes@[1] * 0x100_0000 + bytes@[2] * 0x1_0000
                    + bytes@[3] * 0x100 + bytes@[4] == offer.len()
            },
        },
{
    if let Some(offer) = carried(message@) {
        assert(bytes@.skip(5) =~= offer);
        if offer.len() < 0x1_0000_0000 {
            crate::bytes::be32_round_trip(offer.len());
            let prefix = crate::bytes::be32(offer.len());
            assert(bytes@[1] == prefix[0] && bytes@[2] == prefix[1] && bytes@[3] == prefix[2]
                && bytes@[4] == prefix[3]);
        }
    }
}

/// A message that was encoded is decoded again as it was, if its offer is shorter than four
/// gigabytes.
pub proof fn message_is_read_back(
    message: &SocialMessage,
    bytes: Vec<u8>,
    buffer: &[u8],
    res: Result<SocialMessage>,
)
    requires
        call_ensures(SocialMessage::to_canonical_bytes, (message,), bytes),
        buffer@ == bytes@,
        call_ensures(SocialMessage::from_canonical_bytes, (buffer,), res),
        carried(message@) matches Some(offer) ==> offer.len() < 0x1_0000_0000,
    ensures
        res matches Ok(back) && back@ == message@,
{
    crate::wire::message_round_trip(message@);
}

/// A buffer is decoded as a message exactly if it is the tag of a denial or of a revocation alone,
/// or the tag of a request or of an acceptance, a length in four bytes, and as many bytes. Of the
/// faults of any other buffer the first, from left to right, is the reason for its refusal.
pub proof fn message_is_decoded_exactly(buffer: &[u8], res: Result<SocialMessage>)
    requires
        call_ensures(SocialMessage::from_canonical_bytes, (buffer,), res),
    ensures
        ({
            let len = buffer@.len();
            let n = buffer@[1] * 0x100_0000 + buffer@[2] * 0x1_0000 + buffer@[3] * 0x100
                + buffer@[4];
            if len == 0 {
                res matches Err(e) && e@ == ErrorView::Wire("empty message buffer"@)
            } else if buffer@[0] > 3 {
                res matches Err(e) && e@ == ErrorView::Wire("unknown message kind tag"@)
            } else if buffer@[0] >= 2 {
                if len > 1 {
                    res matches Err(e) && e@ == ErrorView::Wire(
                        "trailing bytes after bodyless message"@,
                    )
                } else {
                    &&& res matches Ok(message)
                    &&& message@ == if buffer@[0] == 2 {
                        MessageView::Deny
                    } else {
                        MessageView::Revoke
                    }
                }
            } else if len < 5 {
                res matches Err(e) && e@ == ErrorView::Wire(
                    "truncated: missing offer length prefix"@,
                )
            } else if len < 5 + n {
                res matches Err(e) && e@ == ErrorView::Wire(
                    "truncated: offer shorter than its length prefix"@,
                )
            } else if len > 5 + n {
                res matches Err(e) && e@ == ErrorView::Wire("trailing bytes after offer"@)
            } else {
                &&& res matches Ok(message)
                &&& message@ == if buffer@[0] == 0 {
                    MessageView::Request(buffer@.skip(5))
                } else {
                    MessageView::Accept(buffer@.skip(5))
                }
            }
        }),
{
    let rest = buffer@.skip(1);
    if buffer@.len() >= 5 && buffer@[0] <= 1 {
        assert(rest[0] == buffer@[1] && rest[1] == buffer@[2] && rest[2] == buffer@[3] && rest[3]
            == buffer@[4]);
        assert(rest.subrange(4, rest.len() as int) =~= buffer@.skip(5));
    }
}

/// A sealed offer holds the ciphertext that it is made of.
pub proof fn offer_holds_its_ciphertext(ciphertext: Vec<u8>, offer: SealedOffer)
    requires
        call_ensures(SealedOffer::new, (ciphertext,), offer),
    ensures
        offer.ciphertext@ == ciphertext@,
{
}

/// A copy of what is exchanged is the same.
pub proof fn copies_are_the_same(
    coords: &StoreCoords,
    coords_copy: StoreCoords,
    message: &SocialMessage,
    message_copy: SocialMessage,
    envelope: &SealedEnvelope,
    envelope_copy: SealedEnvelope,
    offer: &SealedOffer,
    offer_copy: SealedOffer,
)
    requires
        call_ensures(<StoreCoords as Clone>::clone, (coords,), coords_copy),
        call_ensures(<SocialMessage as Clone>::clone, (message,), message_copy),
        call_ensures(<SealedEnvelope as Clone>::clone, (envelope,), envelope_copy),
        call_ensures(<SealedOffer as Clone>::clone, (offer,), offer_copy),
    ensures
        coords_copy@ == coords@,
        message_copy@ == message@,
        envelope_copy@ == envelope@,
        offer_copy.ciphertext@ == offer.ciphertext@,
{
}

} // verus!
