//! The types that peers exchange to build a connection.
//!
//! What crosses the wire is a store coordinate, not a profile: a peer ships [`StoreCoords`], the
//! DID, launcher id and committed root that locate its profile store, and the receiver resolves and
//! verifies the profile itself. Every offer is sealed to its recipient before it reaches a
//! transport, so the messages here carry opaque ciphertext.
//!
//! The canonical byte forms are stated as mathematical functions: [`CoordsView::bytes`] and
//! [`MessageView::bytes`] for encoding, [`decoded_coords`] and [`decoded_message`] for decoding.

use vstd::prelude::*;
use vstd::slice::*;
use vstd::utf8::*;

use crate::bytes;
use crate::error::{Error, ErrorView, Result};
use crate::identity::{Bytes32, Did, DidView};

verus! {

/// The on-chain coordinates that locate a peer's profile store.
///
/// This is the plaintext of an offer. `launcher_id` must equal the DID's own launcher id;
/// [`StoreCoords::validate`] enforces that, so that a coordinate cannot point a DID at a foreign
/// store.
#[derive(Debug, PartialEq, Eq)]
pub struct StoreCoords {
    /// The peer's decentralized identifier.
    pub did: Did,
    /// The DID singleton's launcher id.
    pub launcher_id: Bytes32,
    /// The committed profile-store root that the offerer vouches for.
    pub committed_root: Bytes32,
}

/// [`StoreCoords`] as a mathematical value.
#[verifier::ext_equal]
pub struct CoordsView {
    pub did: DidView,
    pub launcher_id: Seq<u8>,
    pub committed_root: Seq<u8>,
}

impl View for StoreCoords {
    type V = CoordsView;

    open spec fn view(&self) -> CoordsView {
        CoordsView {
            did: self.did@,
            launcher_id: self.launcher_id@,
            committed_root: self.committed_root@,
        }
    }
}

impl CoordsView {
    /// The store belongs to the DID: the two launcher ids agree.
    pub open spec fn paired(self) -> bool {
        self.launcher_id == self.did.launcher_id
    }

    /// The ids have the sizes that chain ids have, and the DID is one that parses.
    pub open spec fn valid(self) -> bool {
        &&& self.did.valid()
        &&& self.launcher_id.len() == 32
        &&& self.committed_root.len() == 32
    }

    /// The canonical wire form: the DID's length in two bytes, the DID in UTF-8, the launcher id,
    /// the committed root.
    pub open spec fn bytes(self) -> Seq<u8> {
        let did = encode_utf8(self.did.text);
        bytes::be16(did.len()) + did + self.launcher_id + self.committed_root
    }

    /// What [`StoreCoords::validate`] answers.
    pub open spec fn validated(self) -> core::result::Result<(), ErrorView> {
        if self.paired() {
            Ok(())
        } else {
            Err(
                ErrorView::Invariant(
                    "store launcher_id does not match the DID's launcher id"@,
                ),
            )
        }
    }
}

/// The coordinates that a canonical buffer spells, or the first fault found in it from left to
/// right.
pub open spec fn decoded_coords(buffer: Seq<u8>) -> core::result::Result<CoordsView, ErrorView> {
    let did_end = 2 + bytes::read_be16(buffer);
    let did = buffer.subrange(2, did_end);
    if buffer.len() < 2 {
        Err(ErrorView::Wire("truncated: missing did length prefix"@))
    } else if buffer.len() < did_end {
        Err(ErrorView::Wire("truncated: did shorter than its length prefix"@))
    } else if !valid_utf8(did) {
        Err(ErrorView::Wire("did is not valid utf-8"@))
    } else {
        match crate::identity::parsed_did(decode_utf8(did)) {
            None => Err(ErrorView::Wire("not a valid did:chia: string"@)),
            Some((text, launcher_id)) => {
                if buffer.len() < did_end + 32 {
                    Err(ErrorView::Wire("truncated: missing launcher id"@))
                } else if buffer.len() < did_end + 64 {
                    Err(ErrorView::Wire("truncated: missing committed root"@))
                } else if buffer.len() > did_end + 64 {
                    Err(ErrorView::Wire("trailing bytes after committed root"@))
                } else {
                    let coords = CoordsView {
                        did: DidView { text, launcher_id },
                        launcher_id: buffer.subrange(did_end, did_end + 32),
                        committed_root: buffer.subrange(did_end + 32, did_end + 64),
                    };
                    match coords.validated() {
                        Ok(_) => Ok(coords),
                        Err(error) => Err(error),
                    }
                }
            },
        }
    }
}

impl Clone for StoreCoords {
    fn clone(&self) -> (res: StoreCoords)
        ensures
            res == *self,
    {
        StoreCoords {
            did: self.did.clone(),
            launcher_id: self.launcher_id,
            committed_root: self.committed_root,
        }
    }
}

impl StoreCoords {
    /// Build coordinates from a DID and a committed root, deriving the launcher id from the DID so
    /// that the two cannot disagree.
    pub fn from_did(did: Did, committed_root: Bytes32) -> (res: StoreCoords)
        ensures
            res@ == (CoordsView {
                did: did@,
                launcher_id: did@.launcher_id,
                committed_root: committed_root@,
            }),
            res@.paired(),
    {
        let launcher_id = did.launcher_id();
        StoreCoords { did, launcher_id, committed_root }
    }

    /// Check that `launcher_id` matches the DID's own launcher id.
    pub fn validate(&self) -> (res: Result<()>)
        ensures
            crate::error::outcome(res) == self@.validated(),
    {
        if self.launcher_id == self.did.launcher_id() {
            Ok(())
        } else {
            Err(Error::Invariant("store launcher_id does not match the DID's launcher id"))
        }
    }

    /// Encode to the canonical wire form, see [`CoordsView::bytes`].
    pub fn to_canonical_bytes(&self) -> (res: Vec<u8>)
        ensures
            res@ == self@.bytes(),
    {
        let did = self.did.as_str().as_bytes();
        let mut out: Vec<u8> = Vec::new();
        bytes::push_be16(&mut out, did.len());
        bytes::push_all(&mut out, did);
        bytes::push_all(&mut out, self.launcher_id.to_bytes().as_slice());
        bytes::push_all(&mut out, self.committed_root.to_bytes().as_slice());
        assert(out@ =~= self@.bytes());
        out
    }

    /// Decode from the canonical wire form, see [`decoded_coords`].
    pub fn from_canonical_bytes(buffer: &[u8]) -> (res: Result<StoreCoords>)
        ensures
            crate::error::outcome(res) == decoded_coords(buffer@),
    {
        let len: usize = buffer.len();
        if len < 2 {
            return Err(Error::Wire("truncated: missing did length prefix"));
        }
        let did_len: usize = buffer[0] as usize * 256 + buffer[1] as usize;
        if len - 2 < did_len {
            return Err(Error::Wire("truncated: did shorter than its length prefix"));
        }
        let did_end: usize = 2 + did_len;
        let did_text = match bytes::utf8_text(slice_subrange(buffer, 2, did_end)) {
            Some(text) => text,
            None => return Err(Error::Wire("did is not valid utf-8")),
        };
        let did = match Did::parse(did_text) {
            Some(did) => did,
            None => return Err(Error::Wire("not a valid did:chia: string")),
        };
        let rest: usize = len - did_end;
        if rest < 32 {
            return Err(Error::Wire("truncated: missing launcher id"));
        }
        if rest < 64 {
            return Err(Error::Wire("truncated: missing committed root"));
        }
        if rest > 64 {
            return Err(Error::Wire("trailing bytes after committed root"));
        }
        let coords = StoreCoords {
            did,
            launcher_id: Bytes32::new(bytes::field32(buffer, did_end)),
            committed_root: Bytes32::new(bytes::field32(buffer, did_end + 32)),
        };
        match coords.validate() {
            Ok(_) => Ok(coords),
            Err(error) => Err(error),
        }
    }
}

/// A [`StoreCoords`] sealed to the recipient's identity key. The core holds only the ciphertext.
#[derive(Debug, PartialEq, Eq)]
pub struct SealedOffer {
    /// The opaque sealed bytes.
    pub ciphertext: Vec<u8>,
}

impl SealedOffer {
    /// Wrap already-sealed ciphertext.
    pub fn new(ciphertext: Vec<u8>) -> (res: SealedOffer)
        ensures
            res.ciphertext == ciphertext,
    {
        SealedOffer { ciphertext }
    }
}

impl Clone for SealedOffer {
    fn clone(&self) -> (res: SealedOffer)
        ensures
            res.ciphertext@ == self.ciphertext@,
    {
        SealedOffer { ciphertext: slice_to_vec(self.ciphertext.as_slice()) }
    }
}

/// A connection request: the requestor presents their own offer first.
#[derive(Debug, PartialEq, Eq)]
pub struct ConnectRequest {
    /// The requestor's own profile offer, sealed to the recipient.
    pub requestor_offer: SealedOffer,
}

impl Clone for ConnectRequest {
    fn clone(&self) -> (res: ConnectRequest)
        ensures
            res.requestor_offer.ciphertext@ == self.requestor_offer.ciphertext@,
    {
        ConnectRequest { requestor_offer: self.requestor_offer.clone() }
    }
}

/// A connection acceptance: the recipient selected a profile and offers it back.
#[derive(Debug, PartialEq, Eq)]
pub struct ConnectAccept {
    /// The recipient's chosen profile offer, sealed to the requestor.
    pub recipient_offer: SealedOffer,
}

impl Clone for ConnectAccept {
    fn clone(&self) -> (res: ConnectAccept)
        ensures
            res.recipient_offer.ciphertext@ == self.recipient_offer.ciphertext@,
    {
        ConnectAccept { recipient_offer: self.recipient_offer.clone() }
    }
}

/// A connection denial. It carries no offer: consent was withheld.
#[derive(Debug, Clone, Copy, PartialEq, Eq, Structural)]
pub struct ConnectDeny;

impl Default for ConnectDeny {
    fn default() -> (res: ConnectDeny)
        ensures
            res == ConnectDeny,
    {
        ConnectDeny
    }
}

/// A revocation: either side ends a live connection.
#[derive(Debug, Clone, Copy, PartialEq, Eq, Structural)]
pub struct Revoke;

impl Default for Revoke {
    fn default() -> (res: Revoke)
        ensures
            res == Revoke,
    {
        Revoke
    }
}

/// Everything that a peer may send over a connection channel.
#[derive(Debug, PartialEq, Eq)]
pub enum SocialMessage {
    /// A new connection request.
    Request(ConnectRequest),
    /// Acceptance of a request.
    Accept(ConnectAccept),
    /// Denial of a request.
    Deny(ConnectDeny),
    /// Revocation of a live connection.
    Revoke(Revoke),
}

/// A [`SocialMessage`] as a mathematical value: its kind, with the offer's ciphertext.
#[verifier::ext_equal]
pub enum MessageView {
    Request(Seq<u8>),
    Accept(Seq<u8>),
    Deny,
    Revoke,
}

impl View for SocialMessage {
    type V = MessageView;

    open spec fn view(&self) -> MessageView {
        match *self {
            SocialMessage::Request(request) => MessageView::Request(
                request.requestor_offer.ciphertext@,
            ),
            SocialMessage::Accept(accept) => MessageView::Accept(
                accept.recipient_offer.ciphertext@,
            ),
            SocialMessage::Deny(_) => MessageView::Deny,
            SocialMessage::Revoke(_) => MessageView::Revoke,
        }
    }
}

impl Clone for SocialMessage {
    fn clone(&self) -> (res: SocialMessage)
        ensures
            res@ == self@,
    {
        match self {
            SocialMessage::Request(request) => SocialMessage::Request(request.clone()),
            SocialMessage::Accept(accept) => SocialMessage::Accept(accept.clone()),
            SocialMessage::Deny(_) => SocialMessage::Deny(ConnectDeny),
            SocialMessage::Revoke(_) => SocialMessage::Revoke(Revoke),
        }
    }
}

/// The kind tag of a request on the wire.
const TAG_REQUEST: u8 = 0;

/// The kind tag of an acceptance on the wire.
const TAG_ACCEPT: u8 = 1;

/// The kind tag of a denial on the wire.
const TAG_DENY: u8 = 2;

/// The kind tag of a revocation on the wire.
const TAG_REVOKE: u8 = 3;

impl MessageView {
    /// The canonical wire form: a kind tag in one byte and, where the message carries an offer, the
    /// ciphertext's length in four bytes and the ciphertext. (Of a longer length the four low bytes
    /// are written.)
    pub open spec fn bytes(self) -> Seq<u8> {
        match self {
            MessageView::Request(offer) => seq![0u8] + bytes::be32(offer.len()) + offer,
            MessageView::Accept(offer) => seq![1u8] + bytes::be32(offer.len()) + offer,
            MessageView::Deny => seq![2u8],
            MessageView::Revoke => seq![3u8],
        }
    }

    /// The offer, if there is one, is short enough for its four-byte length.
    pub open spec fn encodable(self) -> bool {
        match self {
            MessageView::Request(offer) => offer.len() < 4294967296,
            MessageView::Accept(offer) => offer.len() < 4294967296,
            _ => true,
        }
    }
}

/// The ciphertext that a length-prefixed buffer spells, or the first fault in it.
pub open spec fn decoded_offer(buffer: Seq<u8>) -> core::result::Result<Seq<u8>, ErrorView> {
    let end = 4 + bytes::read_be32(buffer);
    if buffer.len() < 4 {
        Err(ErrorView::Wire("truncated: missing offer length prefix"@))
    } else if buffer.len() < end {
        Err(ErrorView::Wire("truncated: offer shorter than its length prefix"@))
    } else if buffer.len() > end {
        Err(ErrorView::Wire("trailing bytes after offer"@))
    } else {
        Ok(buffer.subrange(4, end))
    }
}

/// The message that a canonical buffer spells, or the first fault in it.
pub open spec fn decoded_message(buffer: Seq<u8>) -> core::result::Result<MessageView, ErrorView> {
    if buffer.len() == 0 {
        Err(ErrorView::Wire("empty message buffer"@))
    } else if buffer[0] == 0 {
        match decoded_offer(buffer.skip(1)) {
            Ok(offer) => Ok(MessageView::Request(offer)),
            Err(error) => Err(error),
        }
    } else if buffer[0] == 1 {
        match decoded_offer(buffer.skip(1)) {
            Ok(offer) => Ok(MessageView::Accept(offer)),
            Err(error) => Err(error),
        }
    } else if buffer[0] > 3 {
        Err(ErrorView::Wire("unknown message kind tag"@))
    } else if buffer.len() > 1 {
        Err(ErrorView::Wire("trailing bytes after bodyless message"@))
    } else if buffer[0] == 2 {
        Ok(MessageView::Deny)
    } else {
        Ok(MessageView::Revoke)
    }
}

/// The wire form of a message that carries an offer.
fn with_offer(kind: u8, offer: &SealedOffer) -> (res: Vec<u8>)
    ensures
        res@ == seq![kind] + bytes::be32(offer.ciphertext@.len()) + offer.ciphertext@,
{
    let mut out: Vec<u8> = Vec::new();
    out.push(kind);
    bytes::push_be32(&mut out, offer.ciphertext.len());
    bytes::push_all(&mut out, offer.ciphertext.as_slice());
    assert(out@ =~= seq![kind] + bytes::be32(offer.ciphertext@.len()) + offer.ciphertext@);
    out
}

/// Read a length-prefixed offer that must fill the buffer.
fn read_offer(rest: &[u8]) -> (res: Result<SealedOffer>)
    ensures
        match decoded_offer(rest@) {
            Ok(offer) => res matches Ok(sealed) && sealed.ciphertext@ == offer,
            Err(error) => res matches Err(e) && e@ == error,
        },
{
    let len: usize = rest.len();
    if len < 4 {
        return Err(Error::Wire("truncated: missing offer length prefix"));
    }
    let announced: u32 = rest[0] as u32 * 16777216 + rest[1] as u32 * 65536 + rest[2] as u32 * 256
        + rest[3] as u32;
    let present: usize = len - 4;
    if present < announced as usize {
        return Err(Error::Wire("truncated: offer shorter than its length prefix"));
    }
    if present > announced as usize {
        return Err(Error::Wire("trailing bytes after offer"));
    }
    Ok(SealedOffer::new(slice_to_vec(slice_subrange(rest, 4, len))))
}

impl SocialMessage {
    /// Encode to the canonical wire form, see [`MessageView::bytes`].
    pub fn to_canonical_bytes(&self) -> (res: Vec<u8>)
        ensures
            res@ == self@.bytes(),
    {
        match self {
            SocialMessage::Request(request) => with_offer(TAG_REQUEST, &request.requestor_offer),
            SocialMessage::Accept(accept) => with_offer(TAG_ACCEPT, &accept.recipient_offer),
            SocialMessage::Deny(_) => vec![TAG_DENY],
            SocialMessage::Revoke(_) => vec![TAG_REVOKE],
        }
    }

    /// Decode from the canonical wire form, see [`decoded_message`].
    pub fn from_canonical_bytes(buffer: &[u8]) -> (res: Result<SocialMessage>)
        ensures
            crate::error::outcome(res) == decoded_message(buffer@),
    {
        let len: usize = buffer.len();
        if len == 0 {
            return Err(Error::Wire("empty message buffer"));
        }
        let kind: u8 = buffer[0];
        let rest = slice_subrange(buffer, 1, len);
        assert(rest@ =~= buffer@.skip(1));
        if kind == TAG_REQUEST {
            match read_offer(rest) {
                Ok(requestor_offer) => Ok(
                    SocialMessage::Request(ConnectRequest { requestor_offer }),
                ),
                Err(error) => Err(error),
            }
        } else if kind == TAG_ACCEPT {
            match read_offer(rest) {
                Ok(recipient_offer) => Ok(SocialMessage::Accept(ConnectAccept { recipient_offer })),
                Err(error) => Err(error),
            }
        } else if kind == TAG_DENY && rest.is_empty() {
            Ok(SocialMessage::Deny(ConnectDeny))
        } else if kind == TAG_REVOKE && rest.is_empty() {
            Ok(SocialMessage::Revoke(Revoke))
        } else if kind == TAG_DENY || kind == TAG_REVOKE {
            Err(Error::Wire("trailing bytes after bodyless message"))
        } else {
            Err(Error::Wire("unknown message kind tag"))
        }
    }
}

/// A [`SocialMessage`] addressed for delivery over the peer channel.
///
/// `sender` is the declared sender: opening an offer checks it against the key that sealed it.
#[derive(Debug, PartialEq, Eq)]
pub struct SealedEnvelope {
    /// The declared sender DID.
    pub sender: Did,
    /// The intended recipient DID.
    pub recipient: Did,
    /// The canonical bytes of the [`SocialMessage`]; its offers are individually sealed.
    pub payload: Vec<u8>,
}

/// A [`SealedEnvelope`] as a mathematical value.
#[verifier::ext_equal]
pub struct EnvelopeView {
    pub sender: DidView,
    pub recipient: DidView,
    pub payload: Seq<u8>,
}

impl View for SealedEnvelope {
    type V = EnvelopeView;

    open spec fn view(&self) -> EnvelopeView {
        EnvelopeView {
            sender: self.sender@,
            recipient: self.recipient@,
            payload: self.payload@,
        }
    }
}

impl Clone for SealedEnvelope {
    fn clone(&self) -> (res: SealedEnvelope)
        ensures
            res@ == self@,
    {
        SealedEnvelope {
            sender: self.sender.clone(),
            recipient: self.recipient.clone(),
            payload: slice_to_vec(self.payload.as_slice()),
        }
    }
}

/// Decoding gives back the coordinates that were encoded.
pub proof fn coords_round_trip(coords: CoordsView)
    requires
        coords.valid(),
        coords.paired(),
    ensures
        decoded_coords(coords.bytes()) == Ok::<CoordsView, ErrorView>(coords),
{
    coords_fields_are_read_back(coords);
}

/// Decoding an encoding finds the fields that were written, and then validates them.
proof fn coords_fields_are_read_back(coords: CoordsView)
    requires
        coords.valid(),
    ensures
        decoded_coords(coords.bytes()) == (match coords.validated() {
            Ok(_) => Ok::<CoordsView, ErrorView>(coords),
            Err(error) => Err(error),
        }),
{
    let did = encode_utf8(coords.did.text);
    let did_end: int = 2 + did.len() as int;
    let buffer = coords.bytes();
    is_ascii_chars_encode_utf8(coords.did.text);
    encode_utf8_valid_utf8(coords.did.text);
    encode_utf8_decode_utf8(coords.did.text);
    bytes::be16_round_trip(did.len());
    assert(bytes::read_be16(buffer) == did.len());
    assert(buffer.subrange(2, did_end) =~= did);
    assert(buffer.subrange(did_end, did_end + 32) =~= coords.launcher_id);
    assert(buffer.subrange(did_end + 32, did_end + 64) =~= coords.committed_root);
}

/// Coordinates whose launcher id is not their DID's own do not survive the wire: their encoding is
/// refused.
pub proof fn unpaired_coords_are_refused(coords: CoordsView)
    requires
        coords.valid(),
        !coords.paired(),
    ensures
        decoded_coords(coords.bytes()) == Err::<CoordsView, ErrorView>(
            ErrorView::Invariant("store launcher_id does not match the DID's launcher id"@),
        ),
{
    coords_fields_are_read_back(coords);
}

/// Coordinates that come off the wire are paired with their DID.
pub proof fn decoded_coords_are_paired(buffer: Seq<u8>)
    requires
        decoded_coords(buffer) is Ok,
    ensures
        decoded_coords(buffer)->Ok_0.paired(),
{
}

/// The encoding is canonical: a buffer that decodes is the encoding of what it decodes to, given
/// that its DID is spelled without surrounding whitespace.
pub proof fn coords_encoding_is_canonical(buffer: Seq<u8>, coords: CoordsView)
    requires
        decoded_coords(buffer) == Ok::<CoordsView, ErrorView>(coords),
        coords.did.text == decode_utf8(buffer.subrange(2, 2 + bytes::read_be16(buffer))),
    ensures
        coords.bytes() == buffer,
{
    let did_end = 2 + bytes::read_be16(buffer);
    let did = buffer.subrange(2, did_end);
    decode_utf8_encode_utf8(did);
    assert(encode_utf8(coords.did.text) == did);
    bytes::be16_is_canonical(buffer);
    assert(coords.bytes() =~= buffer);
}

/// Decoding gives back the message that was encoded.
pub proof fn message_round_trip(message: MessageView)
    requires
        message.encodable(),
    ensures
        decoded_message(message.bytes()) == Ok::<MessageView, ErrorView>(message),
{
    let buffer = message.bytes();
    match message {
        MessageView::Request(offer) => offer_round_trip(buffer, offer),
        MessageView::Accept(offer) => offer_round_trip(buffer, offer),
        _ => {},
    }
}

/// The part of [`message_round_trip`] behind the kind tag.
proof fn offer_round_trip(buffer: Seq<u8>, offer: Seq<u8>)
    requires
        offer.len() < 4294967296,
        buffer.len() > 0,
        buffer == seq![buffer[0]] + bytes::be32(offer.len()) + offer,
    ensures
        decoded_offer(buffer.skip(1)) == Ok::<Seq<u8>, ErrorView>(offer),
{
    bytes::be32_round_trip(offer.len());
    assert(buffer.skip(1) =~= bytes::be32(offer.len()) + offer);
    assert(bytes::read_be32(buffer.skip(1)) == offer.len());
    assert(buffer.skip(1).subrange(4, 4 + offer.len() as int) =~= offer);
}

/// The encoding is canonical: a buffer that decodes is the encoding of the message it decodes to,
/// and of no other.
pub proof fn message_encoding_is_canonical(buffer: Seq<u8>, message: MessageView)
    requires
        decoded_message(buffer) == Ok::<MessageView, ErrorView>(message),
    ensures
        message.encodable(),
        message.bytes() == buffer,
{
    let rest = buffer.skip(1);
    if buffer[0] <= 1 {
        bytes::be32_is_canonical(rest);
        assert(buffer =~= seq![buffer[0]] + rest.take(4) + rest.skip(4));
    } else {
        assert(buffer =~= seq![buffer[0]]);
    }
}

/// A message that is cut short is refused, wherever it is cut, for what is missing: the kind tag, the
/// length of the offer, or the rest of the offer.
pub proof fn truncated_message_is_refused(message: MessageView, n: int)
    requires
        message.encodable(),
        0 <= n < message.bytes().len(),
    ensures
        decoded_message(message.bytes().take(n)) == Err::<MessageView, ErrorView>(
            if n == 0 {
                ErrorView::Wire("empty message buffer"@)
            } else if n < 5 {
                ErrorView::Wire("truncated: missing offer length prefix"@)
            } else {
                ErrorView::Wire("truncated: offer shorter than its length prefix"@)
            },
        ),
{
    let buffer = message.bytes();
    let cut = buffer.take(n);
    if n > 0 && buffer[0] <= 1 {
        let offer = match message {
            MessageView::Request(offer) => offer,
            MessageView::Accept(offer) => offer,
            _ => Seq::empty(),
        };
        bytes::be32_round_trip(offer.len());
        if n >= 5 {
            let (rest, prefix) = (cut.skip(1), bytes::be32(offer.len()));
            assert(rest[0] == prefix[0] && rest[1] == prefix[1] && rest[2] == prefix[2] && rest[3]
                == prefix[3]);
            assert(bytes::read_be32(rest) == offer.len());
        }
    }
}

/// A message with bytes left over behind it is refused for them.
pub proof fn extended_message_is_refused(message: MessageView, extra: Seq<u8>)
    requires
        message.encodable(),
        extra.len() > 0,
    ensures
        decoded_message(message.bytes() + extra) == Err::<MessageView, ErrorView>(
            match message {
                MessageView::Request(_) | MessageView::Accept(_) => ErrorView::Wire(
                    "trailing bytes after offer"@,
                ),
                _ => ErrorView::Wire("trailing bytes after bodyless message"@),
            },
        ),
{
    let buffer = message.bytes() + extra;
    if buffer[0] <= 1 {
        let offer = match message {
            MessageView::Request(offer) => offer,
            MessageView::Accept(offer) => offer,
            _ => Seq::empty(),
        };
        bytes::be32_round_trip(offer.len());
        let (rest, prefix) = (buffer.skip(1), bytes::be32(offer.len()));
        assert(rest[0] == prefix[0] && rest[1] == prefix[1] && rest[2] == prefix[2] && rest[3]
            == prefix[3]);
        assert(bytes::read_be32(rest) == offer.len());
    }
}

/// The front of a buffer that begins like an encoding of coordinates is read as the DID.
proof fn coords_did_is_read_back(coords: CoordsView, buffer: Seq<u8>)
    requires
        coords.valid(),
        buffer.len() >= 2,
        forall|i: int|
            0 <= i < buffer.len() && i < coords.bytes().len() ==> #[trigger] buffer[i]
                == coords.bytes()[i],
    ensures
        bytes::read_be16(buffer) == encode_utf8(coords.did.text).len(),
        ({
            let did_end = 2 + encode_utf8(coords.did.text).len() as int;
            buffer.len() >= did_end ==> {
                &&& valid_utf8(buffer.subrange(2, did_end))
                &&& decode_utf8(buffer.subrange(2, did_end)) == coords.did.text
            }
        }),
{
    let did = encode_utf8(coords.did.text);
    let did_end = 2 + did.len() as int;
    is_ascii_chars_encode_utf8(coords.did.text);
    encode_utf8_valid_utf8(coords.did.text);
    encode_utf8_decode_utf8(coords.did.text);
    bytes::be16_round_trip(did.len());
    let prefix = bytes::be16(did.len());
    assert(coords.bytes()[0] == prefix[0] && coords.bytes()[1] == prefix[1]);
    assert(buffer[0] == prefix[0] && buffer[1] == prefix[1]);
    if buffer.len() >= did_end {
        assert(buffer.subrange(2, did_end) =~= did) by {
            assert forall|i: int| 0 <= i < did.len() implies buffer.subrange(2, did_end)[i]
                == did[i] by {
                assert(buffer[i + 2] == coords.bytes()[i + 2]);
            }
        }
    }
}

/// Coordinates that are cut short are refused, wherever they are cut, for what is missing: the length
/// of the DID, the rest of the DID, the launcher id, or the committed root.
pub proof fn truncated_coords_are_refused(coords: CoordsView, n: int)
    requires
        coords.valid(),
        0 <= n < coords.bytes().len(),
    ensures
        ({
            let did_end = 2 + encode_utf8(coords.did.text).len();
            decoded_coords(coords.bytes().take(n)) == Err::<CoordsView, ErrorView>(
                if n < 2 {
                    ErrorView::Wire("truncated: missing did length prefix"@)
                } else if n < did_end {
                    ErrorView::Wire("truncated: did shorter than its length prefix"@)
                } else if n < did_end + 32 {
                    ErrorView::Wire("truncated: missing launcher id"@)
                } else {
                    ErrorView::Wire("truncated: missing committed root"@)
                },
            )
        }),
{
    is_ascii_chars_encode_utf8(coords.did.text);
    if n >= 2 {
        coords_did_is_read_back(coords, coords.bytes().take(n));
    }
}

/// Coordinates with bytes left over behind them are refused for them.
pub proof fn extended_coords_are_refused(coords: CoordsView, extra: Seq<u8>)
    requires
        coords.valid(),
        extra.len() > 0,
    ensures
        decoded_coords(coords.bytes() + extra) == Err::<CoordsView, ErrorView>(
            ErrorView::Wire("trailing bytes after committed root"@),
        ),
{
    is_ascii_chars_encode_utf8(coords.did.text);
    coords_did_is_read_back(coords, coords.bytes() + extra);
}

} // verus!
