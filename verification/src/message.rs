//! dig-message's envelopes as plain values, and its seal, open and codec functions on them.
//!
//! Everything in this module that is not a plain type is a call into the `dig_message` crate, whose
//! cryptography is not proved here. What the rest of the library relies on is written down with each
//! function.

use dig_identity::bls::SecretKey;
use dig_message::{DigMessageEnvelope, InteractionShape, SealParams, SealedPayload};
use vstd::prelude::*;

use crate::seams::OpenedView;

verus! {

/// A stream header of a dig-message envelope.
#[derive(Debug, Clone, Copy, PartialEq, Eq, Structural)]
pub struct StreamHeader {
    pub frame: u8,
    pub seq: u64,
    pub window: u32,
}

/// A sealed dig-message envelope: the cleartext header and the sealed region.
#[derive(Debug, PartialEq, Eq)]
pub struct MessageEnvelope {
    pub version: u8,
    pub message_type: u32,
    pub flags: u8,
    pub correlation_id: [u8; 32],
    pub sender: [u8; 32],
    pub recipient: [u8; 32],
    pub sender_epoch: u32,
    pub stream: Option<StreamHeader>,
    pub kem_enc: [u8; 48],
    pub ciphertext: Vec<u8>,
}

/// A [`MessageEnvelope`] as a mathematical value.
#[verifier::ext_equal]
pub struct MessageEnvelopeView {
    pub version: u8,
    pub message_type: u32,
    pub flags: u8,
    pub correlation_id: Seq<u8>,
    pub sender: Seq<u8>,
    pub recipient: Seq<u8>,
    pub sender_epoch: u32,
    pub stream: Option<StreamHeader>,
    pub kem_enc: Seq<u8>,
    pub ciphertext: Seq<u8>,
}

impl View for MessageEnvelope {
    type V = MessageEnvelopeView;

    open spec fn view(&self) -> MessageEnvelopeView {
        MessageEnvelopeView {
            version: self.version,
            message_type: self.message_type,
            flags: self.flags,
            correlation_id: self.correlation_id@,
            sender: self.sender@,
            recipient: self.recipient@,
            sender_epoch: self.sender_epoch,
            stream: self.stream,
            kem_enc: self.kem_enc@,
            ciphertext: self.ciphertext@,
        }
    }
}

/// What a sender supplies to seal one message, besides the payload.
#[verifier::ext_equal]
pub struct SealRequest {
    /// The sender's identity secret key.
    pub sender_secret: Seq<u8>,
    /// The sender's launcher id.
    pub sender: Seq<u8>,
    /// The sender's key epoch.
    pub sender_epoch: u32,
    /// The recipient's launcher id.
    pub recipient: Seq<u8>,
    /// The recipient's compressed G1 identity key.
    pub recipient_key: Seq<u8>,
    /// The message type.
    pub message_type: u32,
    /// The interaction shape: 0 for a one-shot message, 1 for a request, 2 for a response.
    pub shape: u8,
    /// The correlation id.
    pub correlation_id: Seq<u8>,
    /// The sender's anti-replay counter.
    pub counter: u64,
    /// The sender's wall clock in Unix milliseconds.
    pub timestamp_ms: u64,
    /// When the message expires, in Unix milliseconds; 0 for never.
    pub expires_at: u64,
}

/// The interaction shape of a message that belongs to no exchange.
pub const SHAPE_ONE_SHOT: u8 = 0;

/// The interaction shape of a stream frame, the only one that has a stream header.
pub const SHAPE_STREAM_FRAME: u8 = 3;

/// The flag of a sealed message, which stands above the shape in an envelope's flags.
pub const FLAG_SEALED: u8 = 4;

/// The largest payload, in bytes, that dig-message decompresses.
pub const MAX_PAYLOAD: usize = 67108864;

/// How far, in milliseconds, a message's timestamp may lie from the receiver's clock.
pub const FRESHNESS_MS: u64 = 300000;

/// How far behind the highest counter of its sender a message may come and still be let through.
pub const REPLAY_WINDOW: u64 = 1024;

/// How many senders, told apart by launcher id and key epoch, a replay guard remembers at once.
pub const MAX_SENDERS: u32 = 100000;

/// A message of one sender, by the sender's launcher id, key epoch and counter.
pub type MessageId = (Seq<u8>, u32, u64);

/// Declares `dig_message::ReplayGuard`.
#[verifier::external_type_specification]
#[verifier::external_body]
pub struct ExReplayGuard(dig_message::ReplayGuard);

/// The messages that a replay guard turns away, whenever they are said to be sent: those that it
/// admitted, and those that are too old for its window.
pub uninterp spec fn seen_messages(guard: dig_message::ReplayGuard) -> Set<MessageId>;

/// The number of senders that a replay guard remembers, which is what
/// `dig_message::ReplayGuard::tracked_senders` returns.
pub uninterp spec fn known_senders(guard: dig_message::ReplayGuard) -> nat;

/// A replay guard as a mathematical value.
#[verifier::ext_equal]
pub struct GuardView {
    /// The messages that are turned away.
    pub seen: Set<MessageId>,
    /// The number of senders that are remembered.
    pub senders: nat,
}

/// What a replay guard is as a mathematical value.
pub open spec fn guard_view(guard: dig_message::ReplayGuard) -> GuardView {
    GuardView { seen: seen_messages(guard), senders: known_senders(guard) }
}

/// The messages that are turned away once a message was let through: that message itself, and those
/// of its sender that are too far behind it.
pub open spec fn turned_away_after(id: MessageId) -> Set<MessageId> {
    Set::new(
        |other: MessageId|
            other == id || (other.0 == id.0 && other.1 == id.1 && other.2 + REPLAY_WINDOW <= id.2),
    )
}

/// Whatever was seen and no longer is was sent by `victim`.
pub open spec fn forgets_only(
    seen: Set<MessageId>,
    seen_after: Set<MessageId>,
    victim: (Seq<u8>, u32),
) -> bool {
    forall|id: MessageId| #[trigger]
        seen.contains(id) && !seen_after.contains(id) ==> (id.0, id.1) == victim
}

impl GuardView {
    /// Some message of this sender was seen.
    pub open spec fn knows_sender(self, sender: Seq<u8>, sender_epoch: u32) -> bool {
        exists|id: MessageId| #[trigger]
            self.seen.contains(id) && id.0 == sender && id.1 == sender_epoch
    }

    /// A message of this sender can be taken in without forgetting another sender.
    pub open spec fn has_room_for(self, sender: Seq<u8>, sender_epoch: u32) -> bool {
        self.knows_sender(sender, sender_epoch) || self.senders < MAX_SENDERS
    }

    /// The guard let the message `id` through, and took it in.
    ///
    /// The message is turned away from now on. On a 64-bit machine the rest is exact too: what was
    /// turned away still is, unless the table was full and one sender was forgotten for a new one,
    /// and nothing is turned away beside that but what comes with the message.
    pub open spec fn admits(self, after: GuardView, id: MessageId) -> bool {
        &&& after.seen.contains(id)
        &&& after.senders == if self.knows_sender(id.0, id.1) || self.senders >= MAX_SENDERS {
            self.senders
        } else {
            self.senders + 1
        }
        &&& usize::BITS == 64 ==> {
            &&& turned_away_after(id).subset_of(after.seen)
            &&& after.seen.subset_of(self.seen.union(turned_away_after(id)))
            &&& self.has_room_for(id.0, id.1) ==> self.seen.subset_of(after.seen)
            &&& exists|victim: (Seq<u8>, u32)| #[trigger]
                forgets_only(self.seen, after.seen, victim)
        }
    }

    /// The guard let this envelope's message through, and every guard that has seen that message
    /// turns the envelope away.
    pub open spec fn spends(
        self,
        after: GuardView,
        secret: Seq<u8>,
        envelope: MessageEnvelopeView,
        sender_key: Option<Seq<u8>>,
    ) -> bool {
        exists|id: MessageId|
            {
                &&& id.0 == envelope.sender
                &&& id.1 == envelope.sender_epoch
                &&& self.admits(after, id)
                &&& #[trigger] spent(secret, envelope, sender_key, id)
            }
    }
}

/// What `dig_message::encode_envelope` makes of an envelope: its bytes, or the text of the error.
pub uninterp spec fn encoded_envelope(
    envelope: MessageEnvelopeView,
) -> core::result::Result<Seq<u8>, Seq<char>>;

/// What `dig_message::decode_envelope` makes of a buffer: the envelope, or the text of the error.
pub uninterp spec fn decoded_envelope(
    buffer: Seq<u8>,
) -> core::result::Result<MessageEnvelopeView, Seq<char>>;

/// What `dig_message::open_message` makes of an envelope, given the recipient's secret key, the
/// sender's public key (`None` if it could not be resolved), the messages that the replay guard
/// turns away, and the receiver's clock: the authenticated sender and the plaintext, or the text of
/// the error.
pub uninterp spec fn opened_message(
    secret: Seq<u8>,
    envelope: MessageEnvelopeView,
    sender_key: Option<Seq<u8>>,
    seen: Set<MessageId>,
    now_ms: u64,
) -> core::result::Result<OpenedView, Seq<char>>;

/// The message's timestamp is within the freshness window of the receiver's clock.
pub open spec fn fresh(timestamp_ms: u64, now_ms: u64) -> bool {
    timestamp_ms - FRESHNESS_MS <= now_ms <= timestamp_ms + FRESHNESS_MS
}

/// The envelope carries the request's header, and for whoever holds the recipient's secret key and
/// is served the sender's public key it opens to the payload, provided that the message is fresh,
/// never expires, was not seen before, and is not over the size limit. If the message is not fresh
/// or was seen before, it is refused.
pub open spec fn sealed_as(
    envelope: MessageEnvelopeView,
    request: SealRequest,
    payload: Seq<u8>,
) -> bool {
    &&& envelope.version == 1
    &&& envelope.message_type == request.message_type
    &&& envelope.flags == request.shape + FLAG_SEALED
    &&& envelope.correlation_id == request.correlation_id
    &&& envelope.sender == request.sender
    &&& envelope.recipient == request.recipient
    &&& envelope.sender_epoch == request.sender_epoch
    &&& envelope.stream is None
    &&& forall|secret: Seq<u8>, seen: Set<MessageId>, now_ms: u64|
        {
            &&& crate::identity::bls_public_key(secret) == Some(request.recipient_key)
            &&& fresh(request.timestamp_ms, now_ms)
            &&& request.expires_at == 0
            &&& !seen.contains((request.sender, request.sender_epoch, request.counter))
            &&& payload.len() <= MAX_PAYLOAD
        } ==> #[trigger] opened_message(
            secret,
            envelope,
            crate::identity::bls_public_key(request.sender_secret),
            seen,
            now_ms,
        ) == Ok::<OpenedView, Seq<char>>(OpenedView { sender: request.sender, plaintext: payload })
    &&& forall|secret: Seq<u8>, seen: Set<MessageId>, now_ms: u64|
        {
            &&& crate::identity::bls_public_key(secret) == Some(request.recipient_key)
            &&& !fresh(request.timestamp_ms, now_ms) || seen.contains(
                (request.sender, request.sender_epoch, request.counter),
            )
        } ==> #[trigger] opened_message(
            secret,
            envelope,
            crate::identity::bls_public_key(request.sender_secret),
            seen,
            now_ms,
        ) is Err
}

/// Whoever has seen the message `id` turns this envelope away, at any time.
pub open spec fn spent(
    secret: Seq<u8>,
    envelope: MessageEnvelopeView,
    sender_key: Option<Seq<u8>>,
    id: MessageId,
) -> bool {
    forall|seen: Set<MessageId>, later: u64|
        seen.contains(id) ==> #[trigger] opened_message(
            secret,
            envelope,
            sender_key,
            seen,
            later,
        ) is Err
}

/// An optional key as a mathematical value.
pub open spec fn key_option(key: Option<[u8; 48]>) -> Option<Seq<u8>> {
    match key {
        Some(key) => Some(key@),
        None => None,
    }
}

/// Specifies `dig_message::ReplayGuard::new`: a new guard turns no message away and remembers no
/// sender.
pub assume_specification[ dig_message::ReplayGuard::new ]() -> (guard: dig_message::ReplayGuard)
    ensures
        seen_messages(guard) == Set::<MessageId>::empty(),
        known_senders(guard) == 0,
;

/// Calls `dig_message::seal_message`, which draws a fresh ephemeral key, for a message of a shape
/// that has no stream header.
///
/// Trusted: the header of the envelope is the request's, and the recipient can open it, see
/// [`sealed_as`]. Nothing is said of whether sealing succeeds, which also depends on the machine's
/// randomness, nor of the ciphertext.
#[verifier::external_body]
pub(crate) fn seal_message(
    sender_secret: &[u8; 32],
    sender: [u8; 32],
    sender_epoch: u32,
    recipient: [u8; 32],
    recipient_pub: &[u8; 48],
    message_type: u32,
    shape: u8,
    correlation_id: [u8; 32],
    counter: u64,
    timestamp_ms: u64,
    expires_at: u64,
    payload: &[u8],
) -> (res: core::result::Result<MessageEnvelope, String>)
    requires
        crate::identity::bls_public_key(sender_secret@) is Some,
        shape < SHAPE_STREAM_FRAME,
    ensures
        res matches Ok(envelope) ==> sealed_as(
            envelope@,
            SealRequest {
                sender_secret: sender_secret@,
                sender: sender@,
                sender_epoch,
                recipient: recipient@,
                recipient_key: recipient_pub@,
                message_type,
                shape,
                correlation_id: correlation_id@,
                counter,
                timestamp_ms,
                expires_at,
            },
            payload@,
        ),
{
    let DigMessageEnvelope {
        version, message_type, flags, correlation_id, sender, recipient, sender_epoch, stream, sealed
    } = dig_message::seal_message(&SealParams {
        sender_sk: &SecretKey::from_bytes(sender_secret).unwrap(), sender: sender.into(),
        sender_epoch, recipient: recipient.into(), recipient_pub, message_type,
        shape: InteractionShape::from_flags(shape).unwrap(),
        correlation_id: correlation_id.into(), stream: None, counter, timestamp_ms, expires_at,
        payload,
    }).map_err(|error| error.to_string())?;
    Ok(MessageEnvelope {
        version, message_type, flags, correlation_id: correlation_id.to_bytes(),
        sender: sender.to_bytes(), recipient: recipient.to_bytes(), sender_epoch,
        stream: stream.map(|s| StreamHeader { frame: s.frame, seq: s.seq, window: s.window }),
        kem_enc: sealed.kem_enc.to_bytes(), ciphertext: sealed.ciphertext,
    })
}

/// A sealed envelope, or the text of the error, as a mathematical value.
pub open spec fn sealed_view(
    res: core::result::Result<MessageEnvelope, String>,
) -> core::result::Result<MessageEnvelopeView, Seq<char>> {
    match res {
        Ok(envelope) => Ok(envelope@),
        Err(detail) => Err(detail@),
    }
}

/// dig-message gave this answer to this request and payload: [`seal_message`] was called with them and
/// returned it.
pub closed spec fn answered(
    request: SealRequest,
    payload: Seq<u8>,
    answer: core::result::Result<MessageEnvelopeView, Seq<char>>,
) -> bool {
    exists|
        sender_secret: &[u8; 32],
        sender: [u8; 32],
        recipient: [u8; 32],
        recipient_pub: &[u8; 48],
        correlation_id: [u8; 32],
        bytes: &[u8],
        res: core::result::Result<MessageEnvelope, String>,
    |
        {
            &&& request.sender_secret == sender_secret@
            &&& request.sender == sender@
            &&& request.recipient == recipient@
            &&& request.recipient_key == recipient_pub@
            &&& request.correlation_id == correlation_id@
            &&& payload == bytes@
            &&& answer == sealed_view(res)
            &&& #[trigger] call_ensures(
                seal_message,
                (
                    sender_secret,
                    sender,
                    request.sender_epoch,
                    recipient,
                    recipient_pub,
                    request.message_type,
                    request.shape,
                    correlation_id,
                    request.counter,
                    request.timestamp_ms,
                    request.expires_at,
                    bytes,
                ),
                res,
            )
        }
}

/// What [`seal_message`] returned is what dig-message answered.
pub(crate) proof fn returned_is_answered(
    sender_secret: &[u8; 32],
    sender: [u8; 32],
    sender_epoch: u32,
    recipient: [u8; 32],
    recipient_pub: &[u8; 48],
    message_type: u32,
    shape: u8,
    correlation_id: [u8; 32],
    counter: u64,
    timestamp_ms: u64,
    expires_at: u64,
    payload: &[u8],
    res: core::result::Result<MessageEnvelope, String>,
)
    requires
        call_ensures(
            seal_message,
            (
                sender_secret,
                sender,
                sender_epoch,
                recipient,
                recipient_pub,
                message_type,
                shape,
                correlation_id,
                counter,
                timestamp_ms,
                expires_at,
                payload,
            ),
            res,
        ),
    ensures
        answered(
            SealRequest {
                sender_secret: sender_secret@,
                sender: sender@,
                sender_epoch,
                recipient: recipient@,
                recipient_key: recipient_pub@,
                message_type,
                shape,
                correlation_id: correlation_id@,
                counter,
                timestamp_ms,
                expires_at,
            },
            payload@,
            sealed_view(res),
        ),
{
    let request = SealRequest {
        sender_secret: sender_secret@,
        sender: sender@,
        sender_epoch,
        recipient: recipient@,
        recipient_key: recipient_pub@,
        message_type,
        shape,
        correlation_id: correlation_id@,
        counter,
        timestamp_ms,
        expires_at,
    };
    assert(call_ensures(
        seal_message,
        (
            sender_secret,
            sender,
            request.sender_epoch,
            recipient,
            recipient_pub,
            request.message_type,
            request.shape,
            correlation_id,
            request.counter,
            request.timestamp_ms,
            request.expires_at,
            payload,
        ),
        res,
    ));
}

/// No answer is made up: for each, [`seal_message`] was called, with just what the request says, and
/// returned it.
proof fn answers_are_dig_messages_own(
    request: SealRequest,
    payload: Seq<u8>,
    answer: core::result::Result<MessageEnvelopeView, Seq<char>>,
)
    requires
        answered(request, payload, answer),
    ensures
        exists|
            sender_secret: &[u8; 32],
            sender: [u8; 32],
            recipient: [u8; 32],
            recipient_pub: &[u8; 48],
            correlation_id: [u8; 32],
            bytes: &[u8],
            res: core::result::Result<MessageEnvelope, String>,
        |
            {
                &&& sender_secret@ == request.sender_secret
                &&& sender@ == request.sender
                &&& recipient@ == request.recipient
                &&& recipient_pub@ == request.recipient_key
                &&& correlation_id@ == request.correlation_id
                &&& bytes@ == payload
                &&& match (res, answer) {
                    (Ok(envelope), Ok(view)) => envelope@ == view,
                    (Err(detail), Err(text)) => detail@ == text,
                    _ => false,
                }
                &&& #[trigger] call_ensures(
                    seal_message,
                    (
                        sender_secret,
                        sender,
                        request.sender_epoch,
                        recipient,
                        recipient_pub,
                        request.message_type,
                        request.shape,
                        correlation_id,
                        request.counter,
                        request.timestamp_ms,
                        request.expires_at,
                        bytes,
                    ),
                    res,
                )
            },
{
}

/// Calls `dig_message::decode_envelope`.
///
/// Trusted: the result is a function of the bytes alone.
#[verifier::external_body]
pub(crate) fn decode_envelope(buffer: &[u8]) -> (res: core::result::Result<MessageEnvelope, String>)
    ensures
        match res {
            Ok(envelope) => decoded_envelope(buffer@) == Ok::<_, Seq<char>>(envelope@),
            Err(error) => decoded_envelope(buffer@) == Err::<MessageEnvelopeView, _>(error@),
        },
{
    let e = dig_message::decode_envelope(buffer).map_err(|e| e.to_string())?;
    Ok(MessageEnvelope {
        version: e.version, message_type: e.message_type, flags: e.flags,
        correlation_id: e.correlation_id.to_bytes(), sender: e.sender.to_bytes(),
        recipient: e.recipient.to_bytes(), sender_epoch: e.sender_epoch,
        stream: e.stream.map(|s| StreamHeader { frame: s.frame, seq: s.seq, window: s.window }),
        kem_enc: e.sealed.kem_enc.to_bytes(), ciphertext: e.sealed.ciphertext,
    })
}

/// Calls `dig_message::encode_envelope`.
///
/// Trusted: the result is a function of the envelope alone, and an envelope of the current version
/// is decoded again from its bytes.
#[verifier::external_body]
pub(crate) fn encode_envelope(envelope: &MessageEnvelope) -> (res: core::result::Result<
    Vec<u8>,
    String,
>)
    ensures
        match res {
            Ok(bytes) => {
                &&& encoded_envelope(envelope@) == Ok::<_, Seq<char>>(bytes@)
                &&& envelope@.version <= 1 ==> decoded_envelope(bytes@) == Ok::<_, Seq<char>>(
                    envelope@,
                )
            },
            Err(error) => encoded_envelope(envelope@) == Err::<Seq<u8>, _>(error@),
        },
{
    let e = envelope;
    dig_message::encode_envelope(&DigMessageEnvelope {
        version: e.version, message_type: e.message_type, flags: e.flags,
        correlation_id: e.correlation_id.into(), sender: e.sender.into(),
        recipient: e.recipient.into(), sender_epoch: e.sender_epoch,
        stream: e.stream.map(|s| dig_message::StreamHeader { frame: s.frame, seq: s.seq, window: s.window }),
        sealed: SealedPayload {
            kem_enc: e.kem_enc.into(), ciphertext: e.ciphertext.clone(),
        },
    }).map_err(|error| error.to_string())
}

/// Calls `dig_message::open_message`, with a resolver that serves the given key.
///
/// Trusted: the result is a function of the secret key, the envelope, the sender's key, the
/// messages that the guard turns away, and the clock. The sender is the one in the header. With an
/// envelope that is opened the guard takes its message in, see [`GuardView::spends`]; with one that
/// is refused it either does the same (the message turned out to be malformed after that) or is left
/// as it is. Without a sender key nothing is opened, and the guard is left as it is. Not said is
/// which sender is forgotten when the table is full, and what else a guard turns away on a machine
/// whose words are shorter than the counters.
#[verifier::external_body]
pub(crate) fn open_message(
    secret: &[u8; 32],
    envelope: &MessageEnvelope,
    sender_key: Option<[u8; 48]>,
    guard: &mut dig_message::ReplayGuard,
    now_ms: u64,
) -> (res: core::result::Result<([u8; 32], Vec<u8>), String>)
    requires
        crate::identity::bls_public_key(secret@) is Some,
    ensures
        ({
            let key = key_option(sender_key);
            let (before, after) = (guard_view(*old(guard)), guard_view(*final(guard)));
            let opened = opened_message(secret@, envelope@, key, before.seen, now_ms);
            &&& match res {
                Ok((sender, plaintext)) => {
                    &&& opened == Ok::<_, Seq<char>>(
                        OpenedView { sender: sender@, plaintext: plaintext@ },
                    )
                    &&& sender@ == envelope@.sender
                    &&& sender_key is Some
                    &&& before.spends(after, secret@, envelope@, key)
                },
                Err(error) => {
                    &&& opened == Err::<OpenedView, _>(error@)
                    &&& after == before || (sender_key is Some && before.spends(
                        after,
                        secret@,
                        envelope@,
                        key,
                    ))
                },
            }
        }),
{
    let key = SecretKey::from_bytes(secret).unwrap();
    let e = envelope;
    let outside = DigMessageEnvelope {
        version: e.version, message_type: e.message_type, flags: e.flags,
        correlation_id: e.correlation_id.into(), sender: e.sender.into(),
        recipient: e.recipient.into(), sender_epoch: e.sender_epoch,
        stream: e.stream.map(|s| dig_message::StreamHeader { frame: s.frame, seq: s.seq, window: s.window }),
        sealed: SealedPayload {
            kem_enc: e.kem_enc.into(), ciphertext: e.ciphertext.clone(),
        },
    };
    dig_message::open_message(&key, &outside, |_, _| sender_key, guard, now_ms)
        .map(|m| (m.sender.to_bytes(), m.payload)).map_err(|error| error.to_string())
}

} // verus!
