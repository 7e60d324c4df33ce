//! The real [`EnvelopeSealer`]: dig-message's seal and open over BLS identity keys.
//!
//! [`DigMessageSealer`] turns a plaintext offer into a message that only the recipient's identity
//! key opens and that provably came from our identity. One BLS12-381 key pair does both jobs: its G2
//! signature authenticates the sender, and its G1 Diffie-Hellman term seals to the recipient.
//!
//! Sealing and opening both need to turn a DID into its published G1 key, and both need a clock.
//! Those are two small seams of their own:
//!
//! - [`KeyResolver`]: a DID to its 48-byte G1 identity key. [`ChainKeyResolver`] is the chain-backed
//!   resolver.
//! - [`Clock`]: wall-clock milliseconds. [`SystemClock`] is the production clock.
//!
//! Each has a history, as the [seams](crate::seams) have: every lookup and every reading is added to
//! it. What a seal or an open did is stated over what was in fact looked up and read.

use vstd::prelude::*;

use crate::error::{Error, ErrorView, Result};
use crate::identity::{Bytes32, Did, DidView, SecretKey};
use crate::message::{
    self, GuardView, MessageEnvelope, MessageEnvelopeView, MessageId, SealRequest,
};
use crate::seams::{EnvelopeSealer, OpenedEnvelope, OpenedView, Reply, SeamCall};

verus! {

/// The dig-message type band of the social graph, which sits after the IPC band.
pub const SOCIAL_GRAPH_BAND: u32 = 0x0000_0700;

/// The message type of a sealed connection offer.
pub const MSG_TYPE_CONNECTION_OFFER: u32 = SOCIAL_GRAPH_BAND;

/// Resolves a DID to its chain-authenticated 48-byte compressed G1 identity key.
///
/// The seal (recipient key) and the open (sender key) both consume it.
pub trait KeyResolver {
    /// The lookups made so far. An implementation that is to be verified gives its own; no lookup can
    /// be added to the default, which is one fixed value.
    open spec fn lookups(&self) -> Seq<Lookup> {
        arbitrary()
    }

    /// Resolve `did` to its identity key, or fail if the DID publishes none.
    fn resolve_g1(&mut self, did: &Did) -> (res: Result<[u8; 48]>)
        ensures
            final(self).lookups() == old(self).lookups().push(
                (Lookup { did: did@, reply: crate::error::outcome(res) }),
            ),
    ;
}

/// One lookup of a DID's key.
#[verifier::ext_equal]
pub struct Lookup {
    /// The DID that was looked up.
    pub did: DidView,
    /// The key, or the failure.
    pub reply: Reply<Seq<u8>>,
}

/// The production resolver's data: a source of chain state to resolve keys from.
///
/// The application asks the chain source for a DID's key and hands the answer to
/// [`ChainKeyResolver::resolved`].
pub struct ChainKeyResolver<S> {
    source: S,
}

impl<S> ChainKeyResolver<S> {
    /// Build a resolver over a chain source.
    pub fn new(source: S) -> (res: ChainKeyResolver<S>)
        ensures
            *res.chain() == source,
    {
        ChainKeyResolver { source }
    }

    /// The chain source.
    pub closed spec fn chain(&self) -> &S {
        &self.source
    }

    /// The chain source.
    pub fn source(&self) -> (res: &S)
        ensures
            res == self.chain(),
    {
        &self.source
    }

    /// A resolution from what the chain lookup answered: the key, or a seam failure that carries
    /// the text of the lookup's error.
    pub fn resolved(reply: core::result::Result<[u8; 48], String>) -> (res: Result<[u8; 48]>)
        ensures
            match reply {
                Ok(key) => res == Ok::<[u8; 48], Error>(key),
                Err(detail) => res matches Err(error) && error@ == ErrorView::Seam(
                    "resolve BLS G1 identity key: "@ + detail@,
                ),
            },
    {
        match reply {
            Ok(key) => Ok(key),
            Err(detail) => {
                let mut text = "resolve BLS G1 identity key: ".to_owned();
                text.append(detail.as_str());
                Err(Error::Seam(text))
            },
        }
    }
}

/// A source of wall-clock time in Unix milliseconds.
pub trait Clock {
    /// The readings made so far. An implementation that is to be verified gives its own; no reading
    /// can be added to the default, which is one fixed value.
    open spec fn readings(&self) -> Seq<u64> {
        arbitrary()
    }

    /// The current wall-clock time in Unix milliseconds.
    fn now_ms(&mut self) -> (res: u64)
        ensures
            final(self).readings() == old(self).readings().push(res),
    ;
}

/// The production [`Clock`]: the system wall clock.
#[derive(Clone, Copy)]
pub struct SystemClock {
    readings: Ghost<Seq<u64>>,
}

impl Default for SystemClock {
    /// The system clock, not read yet.
    fn default() -> (res: SystemClock)
        ensures
            res.readings() == Seq::<u64>::empty(),
    {
        SystemClock { readings: Ghost(Seq::empty()) }
    }
}

/// Declares `std::time::SystemTime`.
#[verifier::external_type_specification]
#[verifier::external_body]
pub struct ExSystemTime(std::time::SystemTime);

/// Calls `std::time::SystemTime::now`. Nothing is claimed of the time it reads.
#[verifier::external_body]
fn system_time() -> std::time::SystemTime {
    std::time::SystemTime::now()
}

/// Calls `std::time::SystemTime::duration_since` with the Unix epoch. Nothing is claimed of the
/// duration; `None` stands for a time before the epoch.
#[verifier::external_body]
fn since_epoch(time: &std::time::SystemTime) -> Option<std::time::Duration> {
    time.duration_since(std::time::UNIX_EPOCH).ok()
}

/// Calls `std::time::Duration::as_millis`. Nothing is claimed of the number.
#[verifier::external_body]
fn whole_millis(duration: &std::time::Duration) -> u128 {
    duration.as_millis()
}

/// The clock reading for a time since the Unix epoch: its low 64 bits, and 0 for a time before it.
pub fn unix_ms(since_epoch_ms: Option<u128>) -> (res: u64)
    ensures
        res == (match since_epoch_ms {
            Some(ms) => ms % 0x1_0000_0000_0000_0000,
            None => 0,
        }),
{
    match since_epoch_ms {
        Some(ms) => (ms % 0x1_0000_0000_0000_0000) as u64,
        None => 0,
    }
}

/// The reading is the low 64 bits of the milliseconds that the standard library gave for a duration.
spec fn counts_millis(duration: std::time::Duration, now_ms: u64) -> bool {
    exists|ms: u128| #[trigger]
        call_ensures(whole_millis, (&duration,), ms) && now_ms == ms % 0x1_0000_0000_0000_0000
}

/// The system clock read so: the standard library was asked for the time and for how long that is
/// after the Unix epoch, and the reading is the milliseconds that it gave, or 0 before the epoch.
pub closed spec fn system_reading(now_ms: u64) -> bool {
    exists|time: std::time::SystemTime, since: Option<std::time::Duration>|
        {
            &&& #[trigger] call_ensures(system_time, (), time)
            &&& #[trigger] call_ensures(since_epoch, (&time,), since)
            &&& match since {
                Some(duration) => counts_millis(duration, now_ms),
                None => now_ms == 0,
            }
        }
}

impl Clock for SystemClock {
    closed spec fn readings(&self) -> Seq<u64> {
        self.readings@
    }

    fn now_ms(&mut self) -> (res: u64)
        ensures
            system_reading(res),
    {
        let time = system_time();
        let since = since_epoch(&time);
        let now_ms: u64 = match &since {
            Some(duration) => {
                let ms: u128 = whole_millis(duration);
                let now_ms: u64 = unix_ms(Some(ms));
                assert(counts_millis(*duration, now_ms));
                now_ms
            },
            None => unix_ms(None),
        };
        assert(system_reading(now_ms));
        self.readings = Ghost(self.readings@.push(now_ms));
        now_ms
    }
}

/// No reading is made up: for each, the standard library was asked for the time, for how long that is
/// after the epoch, and for the milliseconds in that.
proof fn readings_are_the_systems_own(now_ms: u64)
    requires
        system_reading(now_ms),
    ensures
        exists|time: std::time::SystemTime, since: Option<std::time::Duration>|
            {
                &&& #[trigger] call_ensures(system_time, (), time)
                &&& #[trigger] call_ensures(since_epoch, (&time,), since)
                &&& match since {
                    Some(duration) => exists|ms: u128| #[trigger]
                        call_ensures(whole_millis, (&duration,), ms) && now_ms == ms
                            % 0x1_0000_0000_0000_0000,
                    None => now_ms == 0,
                }
            },
{
}

/// The dig-message-backed [`EnvelopeSealer`].
///
/// Holds our identity secret key (to sign and seal outbound offers), our launcher id and key epoch,
/// a [`KeyResolver`], a [`Clock`], and the anti-replay state: the outbound counter and the inbound
/// guard. The secret key that opens an offer is lent per call and not stored.
pub struct DigMessageSealer<R, C = SystemClock> {
    sender_sk: SecretKey,
    sender_launcher: Bytes32,
    sender_epoch: u32,
    resolver: R,
    clock: C,
    counter: u64,
    replay_guard: dig_message::ReplayGuard,
    calls: Ghost<Seq<SeamCall>>,
}

/// A [`DigMessageSealer`] as a mathematical value.
#[verifier::ext_equal]
pub struct SealerView {
    /// Our identity secret key.
    pub sender_secret: Seq<u8>,
    /// Our launcher id.
    pub sender: Seq<u8>,
    /// Our key epoch.
    pub sender_epoch: u32,
    /// The counter of the next outbound message.
    pub counter: u64,
    /// The inbound guard: the messages that are turned away, and how many senders are remembered.
    pub guard: GuardView,
    /// The lookups made with the resolver.
    pub lookups: Seq<Lookup>,
    /// The readings of the clock.
    pub readings: Seq<u64>,
    /// The seals and opens that the sealer was asked for.
    pub calls: Seq<SeamCall>,
}

impl<R: KeyResolver, C: Clock> View for DigMessageSealer<R, C> {
    type V = SealerView;

    closed spec fn view(&self) -> SealerView {
        SealerView {
            sender_secret: self.sender_sk@,
            sender: self.sender_launcher@,
            sender_epoch: self.sender_epoch,
            counter: self.counter,
            guard: message::guard_view(self.replay_guard),
            lookups: self.resolver.lookups(),
            readings: self.clock.readings(),
            calls: self.calls@,
        }
    }
}

/// A failure in dig-message, by the text of its error.
pub open spec fn message_failure(detail: Seq<char>) -> ErrorView {
    ErrorView::Seam("dig-message seal/open: "@ + detail)
}

/// Adapt a dig-message failure into a seam failure.
fn message_error(detail: &str) -> (res: Error)
    ensures
        res@ == message_failure(detail@),
{
    let mut text = "dig-message seal/open: ".to_owned();
    text.append(detail);
    Error::Seam(text)
}

/// The wire bytes of a message that was sealed, or the failure.
pub fn finish_seal(sealed: core::result::Result<MessageEnvelope, String>) -> (res: Result<Vec<u8>>)
    ensures
        crate::error::outcome(res) == (match sealed {
            Ok(envelope) => match message::encoded_envelope(envelope@) {
                Ok(wire) => Ok::<Seq<u8>, ErrorView>(wire),
                Err(detail) => Err(message_failure(detail)),
            },
            Err(detail) => Err(message_failure(detail@)),
        }),
        match (sealed, res) {
            (Ok(envelope), Ok(wire)) => envelope@.version <= 1 ==> message::decoded_envelope(wire@)
                == Ok::<_, Seq<char>>(envelope@),
            _ => true,
        },
{
    match sealed {
        Ok(envelope) => match message::encode_envelope(&envelope) {
            Ok(wire) => Ok(wire),
            Err(detail) => Err(message_error(detail.as_str())),
        },
        Err(detail) => Err(message_error(detail.as_str())),
    }
}

/// The DID, in its canonical spelling, of a launcher id.
pub open spec fn canonical_did(launcher_id: Seq<u8>) -> DidView {
    DidView {
        text: crate::identity::bech32m_address(launcher_id, "did:chia:"@)->0,
        launcher_id,
    }
}

impl SealerView {
    /// The counter after this one. (After the last of the 64-bit counters it starts anew.)
    pub open spec fn next_counter(self) -> u64 {
        if self.counter == u64::MAX {
            0
        } else {
            (self.counter + 1) as u64
        }
    }

    /// What is handed to dig-message to seal an offer to a recipient with a given key.
    pub open spec fn request(
        self,
        recipient: DidView,
        recipient_key: Seq<u8>,
        now_ms: u64,
    ) -> SealRequest {
        SealRequest {
            sender_secret: self.sender_secret,
            sender: self.sender,
            sender_epoch: self.sender_epoch,
            recipient: recipient.launcher_id,
            recipient_key,
            message_type: MSG_TYPE_CONNECTION_OFFER,
            shape: message::SHAPE_ONE_SHOT,
            correlation_id: Seq::new(32, |i: int| 0u8),
            counter: self.counter,
            timestamp_ms: now_ms,
            expires_at: 0,
        }
    }

    /// One seal: the recipient's key is looked up, and with it the offer is handed to dig-message
    /// under the next counter and the clock's time. A failed lookup is passed on; then the clock is
    /// not read and the counter is not spent.
    pub open spec fn seals(
        self,
        after: SealerView,
        recipient: DidView,
        plaintext: Seq<u8>,
        reply: Reply<Seq<u8>>,
    ) -> bool {
        let resolved = after.lookups.last().reply;
        let asked = SealerView {
            lookups: self.lookups.push(Lookup { did: recipient, reply: resolved }),
            calls: self.calls.push(SeamCall::Seal { recipient, plaintext, reply }),
            ..self
        };
        match resolved {
            Err(error) => after == asked && reply == Err::<Seq<u8>, _>(error),
            Ok(key) => {
                let now_ms = after.readings.last();
                &&& after == (SealerView {
                    counter: self.next_counter(),
                    readings: self.readings.push(now_ms),
                    ..asked
                })
                &&& finishes(self.request(recipient, key, now_ms), plaintext, reply)
                &&& match reply {
                    Err(error) => exists|detail: Seq<char>|
                        error == #[trigger] message_failure(detail),
                    Ok(wire) => self.sealed(recipient, key, now_ms, plaintext, wire),
                }
            },
        }
    }

    /// The wire bytes of an offer that was sealed under a key at a time.
    pub open spec fn sealed(
        self,
        recipient: DidView,
        key: Seq<u8>,
        now_ms: u64,
        plaintext: Seq<u8>,
        wire: Seq<u8>,
    ) -> bool {
        &&& message::decoded_envelope(wire) matches Ok(envelope)
        &&& message::encoded_envelope(envelope) == Ok::<_, Seq<char>>(wire)
        &&& message::sealed_as(envelope, self.request(recipient, key, now_ms), plaintext)
    }

    /// One open: the envelope is decoded, the clock is read, the key of the sender in the header is
    /// looked up, and all are handed to dig-message. An envelope that cannot be decoded is refused
    /// before that.
    pub open spec fn opens(
        self,
        after: SealerView,
        our_secret: Seq<u8>,
        ciphertext: Seq<u8>,
        reply: Reply<OpenedView>,
    ) -> bool {
        let asked = SealerView {
            calls: self.calls.push(SeamCall::Open { our_secret, ciphertext, reply }),
            ..self
        };
        match message::decoded_envelope(ciphertext) {
            Err(detail) => after == asked && reply == Err::<OpenedView, _>(message_failure(detail)),
            Ok(envelope) => {
                let resolved = after.lookups.last().reply;
                let now_ms = after.readings.last();
                &&& after == (SealerView {
                    guard: after.guard,
                    lookups: self.lookups.push(
                        Lookup { did: canonical_did(envelope.sender), reply: resolved },
                    ),
                    readings: self.readings.push(now_ms),
                    ..asked
                })
                &&& open_step(
                    self.guard,
                    after.guard,
                    our_secret,
                    envelope,
                    resolved.ok(),
                    now_ms,
                    reply,
                )
            },
        }
    }
}

/// One attempt to open an envelope with a given sender key at a given time, by the guard before and
/// after.
///
/// On success the sender is the one in the header, and the guard has taken the message in. On a
/// refusal the guard has done the same or is as it was.
pub open spec fn open_step(
    guard: GuardView,
    guard_after: GuardView,
    our_secret: Seq<u8>,
    envelope: MessageEnvelopeView,
    sender_key: Option<Seq<u8>>,
    now_ms: u64,
    reply: Reply<OpenedView>,
) -> bool {
    &&& reply == (match message::opened_message(
        our_secret,
        envelope,
        sender_key,
        guard.seen,
        now_ms,
    ) {
        Ok(opened) => Ok::<OpenedView, ErrorView>(opened),
        Err(detail) => Err(message_failure(detail)),
    })
    &&& match reply {
        Ok(opened) => {
            &&& opened.sender == envelope.sender
            &&& sender_key is Some
            &&& guard.spends(guard_after, our_secret, envelope, sender_key)
        },
        Err(_) => guard_after == guard || (sender_key is Some && guard.spends(
            guard_after,
            our_secret,
            envelope,
            sender_key,
        )),
    }
}

/// The reply is what comes of dig-message's own answer to this request and plaintext.
pub open spec fn finishes(
    request: SealRequest,
    plaintext: Seq<u8>,
    reply: Reply<Seq<u8>>,
) -> bool {
    exists|answer: core::result::Result<MessageEnvelopeView, Seq<char>>|
        {
            &&& #[trigger] message::answered(request, plaintext, answer)
            &&& reply == (match answer {
                Ok(envelope) => match message::encoded_envelope(envelope) {
                    Ok(wire) => Ok::<Seq<u8>, ErrorView>(wire),
                    Err(detail) => Err(message_failure(detail)),
                },
                Err(detail) => Err(message_failure(detail)),
            })
        }
}

/// Some sealer may answer a seal so.
pub open spec fn may_seal(recipient: DidView, plaintext: Seq<u8>, reply: Reply<Seq<u8>>) -> bool {
    exists|before: SealerView, after: SealerView| #[trigger]
        before.seals(after, recipient, plaintext, reply)
}

/// Some sealer may answer an open so.
pub open spec fn may_open(
    our_secret: Seq<u8>,
    ciphertext: Seq<u8>,
    reply: Reply<OpenedView>,
) -> bool {
    exists|before: SealerView, after: SealerView| #[trigger]
        before.opens(after, our_secret, ciphertext, reply)
}

impl<R: KeyResolver> DigMessageSealer<R, SystemClock> {
    /// Build a sealer for our identity, using the system clock.
    ///
    /// `sender_sk` is our identity secret key, `sender_did` our DID, and `sender_epoch` tells key
    /// rotations apart.
    pub fn new(sender_sk: SecretKey, sender_did: &Did, sender_epoch: u32, resolver: R) -> (res:
        DigMessageSealer<R, SystemClock>)
        ensures
            res@ == (SealerView {
                sender_secret: sender_sk@,
                sender: sender_did@.launcher_id,
                sender_epoch,
                counter: 0,
                guard: GuardView { seen: Set::empty(), senders: 0 },
                lookups: resolver.lookups(),
                readings: Seq::empty(),
                calls: Seq::empty(),
            }),
    {
        let clock = SystemClock::default();
        DigMessageSealer::with_clock(sender_sk, sender_did, sender_epoch, resolver, clock)
    }
}

impl<R: KeyResolver, C: Clock> DigMessageSealer<R, C> {
    /// Build a sealer with an explicit clock.
    pub fn with_clock(
        sender_sk: SecretKey,
        sender_did: &Did,
        sender_epoch: u32,
        resolver: R,
        clock: C,
    ) -> (res: DigMessageSealer<R, C>)
        ensures
            res@ == (SealerView {
                sender_secret: sender_sk@,
                sender: sender_did@.launcher_id,
                sender_epoch,
                counter: 0,
                guard: GuardView { seen: Set::empty(), senders: 0 },
                lookups: resolver.lookups(),
                readings: clock.readings(),
                calls: Seq::empty(),
            }),
    {
        DigMessageSealer {
            sender_sk,
            sender_launcher: sender_did.launcher_id(),
            sender_epoch,
            resolver,
            clock,
            counter: 0,
            replay_guard: dig_message::ReplayGuard::new(),
            calls: Ghost(Seq::empty()),
        }
    }

    /// The counter of the next outbound message.
    fn next_counter(&mut self) -> (res: u64)
        ensures
            res == old(self)@.counter,
            final(self)@ == (SealerView { counter: old(self)@.next_counter(), ..old(self)@ }),
    {
        let value: u64 = self.counter;
        self.counter = value.wrapping_add(1);
        value
    }

    /// Look up the key of an envelope's sender, by way of the canonical DID of its launcher id; any
    /// failure is `None`.
    fn resolve_sender_g1(&mut self, launcher: &Bytes32) -> (res: Option<[u8; 48]>)
        ensures
            ({
                let lookup = final(self)@.lookups.last();
                &&& final(self)@ == (SealerView {
                    lookups: old(self)@.lookups.push(lookup),
                    ..old(self)@
                })
                &&& lookup.did == canonical_did(launcher@)
                &&& message::key_option(res) == lookup.reply.ok()
            }),
    {
        let did = Did::of_launcher(launcher)?;
        assert(did@ =~= canonical_did(launcher@));
        match self.resolver.resolve_g1(&did) {
            Ok(key) => Some(key),
            Err(_) => None,
        }
    }

    /// Look up the recipient's key, and seal and encode an offer under it.
    fn seal_to(&mut self, recipient: &Did, plaintext: &[u8]) -> (res: Result<Vec<u8>>)
        ensures
            final(self)@.calls == old(self)@.calls,
            ({
                let reply = crate::error::outcome(res);
                let call = SeamCall::Seal { recipient: recipient@, plaintext: plaintext@, reply };
                let after = SealerView { calls: old(self)@.calls.push(call), ..final(self)@ };
                old(self)@.seals(after, recipient@, plaintext@, reply)
            }),
    {
        let recipient_key = match self.resolver.resolve_g1(recipient) {
            Ok(key) => key,
            Err(error) => return Err(error),
        };
        let counter: u64 = self.next_counter();
        let now_ms: u64 = self.clock.now_ms();
        let correlation_id: [u8; 32] = [0u8; 32];
        assert(correlation_id@ =~= Seq::new(32, |i: int| 0u8));
        let secret = self.sender_sk.to_bytes();
        let sender = self.sender_launcher.to_bytes();
        let to = recipient.launcher_id().to_bytes();
        let sealed = message::seal_message(
            &secret,
            sender,
            self.sender_epoch,
            to,
            &recipient_key,
            MSG_TYPE_CONNECTION_OFFER,
            message::SHAPE_ONE_SHOT,
            correlation_id,
            counter,
            now_ms,
            0,
            plaintext,
        );
        proof {
            message::returned_is_answered(
                &secret,
                sender,
                self.sender_epoch,
                to,
                &recipient_key,
                MSG_TYPE_CONNECTION_OFFER,
                message::SHAPE_ONE_SHOT,
                correlation_id,
                counter,
                now_ms,
                0,
                plaintext,
                sealed,
            );
            let request = old(self)@.request(recipient@, recipient_key@, now_ms);
            assert(message::answered(request, plaintext@, message::sealed_view(sealed)));
        }
        assert(sealed matches Ok(envelope) ==> message::sealed_as(
            envelope@,
            old(self)@.request(recipient@, recipient_key@, now_ms),
            plaintext@,
        ));
        finish_seal(sealed)
    }

    /// Decode an envelope, look up its sender's key, and open it.
    fn open_from(&mut self, our_secret: &SecretKey, ciphertext: &[u8]) -> (res: Result<
        OpenedEnvelope,
    >)
        ensures
            final(self)@.calls == old(self)@.calls,
            ({
                let reply = crate::error::outcome(res);
                let call = SeamCall::Open {
                    our_secret: our_secret@,
                    ciphertext: ciphertext@,
                    reply,
                };
                let after = SealerView { calls: old(self)@.calls.push(call), ..final(self)@ };
                old(self)@.opens(after, our_secret@, ciphertext@, reply)
            }),
    {
        let envelope = match message::decode_envelope(ciphertext) {
            Ok(envelope) => envelope,
            Err(detail) => return Err(message_error(detail.as_str())),
        };
        let now_ms: u64 = self.clock.now_ms();
        let sender_key = self.resolve_sender_g1(&Bytes32::new(envelope.sender));
        let opened = message::open_message(
            &our_secret.to_bytes(),
            &envelope,
            sender_key,
            &mut self.replay_guard,
            now_ms,
        );
        let res = match opened {
            Ok((sender, plaintext)) => Ok(
                OpenedEnvelope { sender: Bytes32::new(sender), plaintext },
            ),
            Err(detail) => Err(message_error(detail.as_str())),
        };
        assert(open_step(
            old(self)@.guard,
            self@.guard,
            our_secret@,
            envelope@,
            message::key_option(sender_key),
            now_ms,
            crate::error::outcome(res),
        ));
        res
    }
}

impl<R: KeyResolver, C: Clock> EnvelopeSealer for DigMessageSealer<R, C> {
    open spec fn history(&self) -> Seq<SeamCall> {
        self@.calls
    }

    open spec fn answers(call: SeamCall) -> bool {
        match call {
            SeamCall::Seal { recipient, plaintext, reply } => may_seal(recipient, plaintext, reply),
            SeamCall::Open { our_secret, ciphertext, reply } => may_open(
                our_secret,
                ciphertext,
                reply,
            ),
            _ => false,
        }
    }

    fn seal(&mut self, recipient: &Did, plaintext: &[u8]) -> (res: Result<Vec<u8>>)
        ensures
            old(self)@.seals(final(self)@, recipient@, plaintext@, crate::error::outcome(res)),
    {
        let res = self.seal_to(recipient, plaintext);
        let ghost call = SeamCall::Seal {
            recipient: recipient@,
            plaintext: plaintext@,
            reply: crate::error::outcome(res),
        };
        self.calls = Ghost(self.calls@.push(call));
        assert(old(self)@.seals(self@, recipient@, plaintext@, crate::error::outcome(res)));
        res
    }

    fn open(&mut self, our_secret: &SecretKey, ciphertext: &[u8]) -> (res: Result<OpenedEnvelope>)
        ensures
            old(self)@.opens(final(self)@, our_secret@, ciphertext@, crate::error::outcome(res)),
    {
        let res = self.open_from(our_secret, ciphertext);
        let ghost call = SeamCall::Open {
            our_secret: our_secret@,
            ciphertext: ciphertext@,
            reply: crate::error::outcome(res),
        };
        self.calls = Ghost(self.calls@.push(call));
        assert(old(self)@.opens(self@, our_secret@, ciphertext@, crate::error::outcome(res)));
        res
    }
}

/// What one sealer sealed, another opens: the recipient's secret key recovers the plaintext and the
/// sender, provided that the two lookups gave the keys that belong to the two secret keys, that the
/// two clock readings lie within the freshness window of each other, that the message was not seen
/// before, and that the plaintext is within the size limit.
pub proof fn sealed_offer_opens_for_its_recipient(
    sender: SealerView,
    sender_after: SealerView,
    recipient: DidView,
    plaintext: Seq<u8>,
    wire: Seq<u8>,
    opener: SealerView,
    opener_after: SealerView,
    our_secret: Seq<u8>,
    reply: Reply<OpenedView>,
)
    requires
        sender.seals(sender_after, recipient, plaintext, Ok(wire)),
        opener.opens(opener_after, our_secret, wire, reply),
        sender_after.lookups.last().reply.ok() == crate::identity::bls_public_key(our_secret),
        opener_after.lookups.last().reply.ok() == crate::identity::bls_public_key(
            sender.sender_secret,
        ),
        message::fresh(sender_after.readings.last(), opener_after.readings.last()),
        !opener.guard.seen.contains((sender.sender, sender.sender_epoch, sender.counter)),
        plaintext.len() <= message::MAX_PAYLOAD,
    ensures
        reply == Ok::<OpenedView, ErrorView>(OpenedView { sender: sender.sender, plaintext }),
{
}

/// A recipient whose key cannot be looked up is not sealed to: the failure is passed on, the
/// resolver was asked once, for that recipient, the clock was not read, and the counter is not
/// spent.
pub proof fn unresolved_recipient_is_not_sealed_to(
    before: SealerView,
    after: SealerView,
    recipient: DidView,
    plaintext: Seq<u8>,
    reply: Reply<Seq<u8>>,
    error: ErrorView,
)
    requires
        before.seals(after, recipient, plaintext, reply),
        after.lookups.last().reply == Err::<Seq<u8>, ErrorView>(error),
    ensures
        reply == Err::<Seq<u8>, ErrorView>(error),
        after.lookups == before.lookups.push(Lookup { did: recipient, reply: Err(error) }),
        after.readings == before.readings,
        after.counter == before.counter,
        after.guard == before.guard,
{
}

/// What opening reports of the sender is authenticated: the envelope names that sender, the resolver
/// was asked for that sender's DID and gave a key, and with that key the message opened. An offer
/// whose sender's key cannot be looked up is not opened.
pub proof fn opened_sender_is_authenticated(
    before: SealerView,
    after: SealerView,
    our_secret: Seq<u8>,
    wire: Seq<u8>,
    opened: OpenedView,
)
    requires
        before.opens(after, our_secret, wire, Ok(opened)),
    ensures
        message::decoded_envelope(wire) matches Ok(envelope) && {
            &&& envelope.sender == opened.sender
            &&& after.lookups.last().did == canonical_did(opened.sender)
            &&& after.lookups.last().reply matches Ok(key)
            &&& message::opened_message(
                our_secret,
                envelope,
                Some(key),
                before.guard.seen,
                after.readings.last(),
            ) == Ok::<OpenedView, Seq<char>>(opened)
        },
{
}

/// An offer that is read too long after it was sealed, or too long before, is refused: for the
/// recipient's secret key and the sender's own key, whatever was seen before.
pub proof fn stale_offer_is_refused(
    sender: SealerView,
    sender_after: SealerView,
    recipient: DidView,
    plaintext: Seq<u8>,
    wire: Seq<u8>,
    opener: SealerView,
    opener_after: SealerView,
    our_secret: Seq<u8>,
    reply: Reply<OpenedView>,
)
    requires
        sender.seals(sender_after, recipient, plaintext, Ok(wire)),
        opener.opens(opener_after, our_secret, wire, reply),
        sender_after.lookups.last().reply.ok() == crate::identity::bls_public_key(our_secret),
        opener_after.lookups.last().reply.ok() == crate::identity::bls_public_key(
            sender.sender_secret,
        ),
        !message::fresh(sender_after.readings.last(), opener_after.readings.last()),
    ensures
        reply is Err,
{
}

impl SealerView {
    /// One call takes the sealer to `after`: the seal or the open that `after` has as its last call.
    pub open spec fn steps_to(self, after: SealerView) -> bool {
        match after.calls.last() {
            SeamCall::Seal { recipient, plaintext, reply } => self.seals(
                after,
                recipient,
                plaintext,
                reply,
            ),
            SeamCall::Open { our_secret, ciphertext, reply } => self.opens(
                after,
                our_secret,
                ciphertext,
                reply,
            ),
            _ => false,
        }
    }

    /// In the call that takes the sealer to `after`, the guard need not forget a sender: it is no
    /// open of an envelope, or there is room for the envelope's sender.
    pub open spec fn has_room_until(self, after: SealerView) -> bool {
        match after.calls.last() {
            SeamCall::Open { ciphertext, .. } => match message::decoded_envelope(ciphertext) {
                Ok(envelope) => self.guard.has_room_for(envelope.sender, envelope.sender_epoch),
                Err(_) => true,
            },
            _ => true,
        }
    }
}

/// A sealer at work: its values one after another, with one seal or open between each and the next.
pub open spec fn at_work(values: Seq<SealerView>) -> bool {
    &&& values.len() > 0
    &&& forall|i: int|
        0 <= i < values.len() - 1 ==> (#[trigger] values[i]).steps_to(values[i + 1])
}

/// There was room for every envelope's sender.
pub open spec fn with_room(values: Seq<SealerView>) -> bool {
    forall|i: int|
        0 <= i < values.len() - 1 ==> (#[trigger] values[i]).has_room_until(values[i + 1])
}

/// Through any seals and opens, what was seen stays seen, provided that there was room for every
/// envelope's sender. (On a 64-bit machine.)
pub proof fn seen_messages_stay_seen(values: Seq<SealerView>)
    requires
        at_work(values),
        with_room(values),
        usize::BITS == 64,
    ensures
        values[0].guard.seen.subset_of(values.last().guard.seen),
    decreases values.len(),
{
    if values.len() > 1 {
        let earlier = values.drop_last();
        let n = values.len() as int;
        assert(values[n - 2].steps_to(values[n - 1]) && values[n - 2].has_room_until(values[n - 1]));
        assert(values[n - 2] == earlier.last());
        assert forall|i: int| 0 <= i < earlier.len() - 1 implies {
            &&& (#[trigger] earlier[i]).steps_to(earlier[i + 1])
            &&& earlier[i].has_room_until(earlier[i + 1])
        } by {
            assert(values[i].steps_to(values[i + 1]) && values[i].has_room_until(values[i + 1]));
        }
        seen_messages_stay_seen(earlier);
    }
}

/// The number of senders that are remembered never falls, and grows by no more than one with each
/// seal or open.
pub proof fn senders_grow_by_at_most_one(values: Seq<SealerView>)
    requires
        at_work(values),
    ensures
        values[0].guard.senders <= values.last().guard.senders <= values[0].guard.senders
            + values.len() - 1,
    decreases values.len(),
{
    if values.len() > 1 {
        let earlier = values.drop_last();
        let n = values.len() as int;
        assert(values[n - 2].steps_to(values[n - 1]));
        assert(values[n - 2] == earlier.last());
        assert forall|i: int| 0 <= i < earlier.len() - 1 implies (#[trigger] earlier[i]).steps_to(
            earlier[i + 1],
        ) by {
            assert(values[i].steps_to(values[i + 1]));
        }
        senders_grow_by_at_most_one(earlier);
    }
}

/// There is room for at least as many seals and opens as the guard has places left.
pub proof fn there_is_room_at_first(values: Seq<SealerView>)
    requires
        at_work(values),
        values[0].guard.senders + values.len() <= message::MAX_SENDERS + 1,
    ensures
        with_room(values),
{
    assert forall|i: int| 0 <= i < values.len() - 1 implies (#[trigger] values[i]).has_room_until(
        values[i + 1],
    ) by {
        let earlier = values.take(i + 1);
        assert forall|j: int| 0 <= j < earlier.len() - 1 implies (#[trigger] earlier[j]).steps_to(
            earlier[j + 1],
        ) by {
            assert(values[j].steps_to(values[j + 1]));
        }
        senders_grow_by_at_most_one(earlier);
    }
}

/// An offer that was opened is not opened a second time: after any further seals and opens, with
/// room for every envelope's sender, the sealer refuses it if it looks up the same key for its
/// sender, whatever its clock reads. (On a 64-bit machine.)
pub proof fn opened_offer_is_refused_when_replayed(
    before: SealerView,
    our_secret: Seq<u8>,
    wire: Seq<u8>,
    opened: OpenedView,
    values: Seq<SealerView>,
    after: SealerView,
    reply: Reply<OpenedView>,
)
    requires
        at_work(values),
        before.opens(values[0], our_secret, wire, Ok(opened)),
        with_room(values),
        usize::BITS == 64,
        values.last().opens(after, our_secret, wire, reply),
        after.lookups.last().reply == values[0].lookups.last().reply,
    ensures
        reply is Err,
{
    let envelope = message::decoded_envelope(wire)->Ok_0;
    let sender_key = values[0].lookups.last().reply.ok();
    let id = choose|id: MessageId|
        {
            &&& id.0 == envelope.sender
            &&& id.1 == envelope.sender_epoch
            &&& before.guard.admits(values[0].guard, id)
            &&& #[trigger] message::spent(our_secret, envelope, sender_key, id)
        };
    seen_messages_stay_seen(values);
    assert(values.last().guard.seen.contains(id));
}

/// An offer that was opened is refused by the next open of it, on any machine and however many
/// senders are remembered.
pub proof fn opened_offer_is_refused_at_once(
    before: SealerView,
    between: SealerView,
    after: SealerView,
    our_secret: Seq<u8>,
    wire: Seq<u8>,
    opened: OpenedView,
    reply: Reply<OpenedView>,
)
    requires
        before.opens(between, our_secret, wire, Ok(opened)),
        between.opens(after, our_secret, wire, reply),
        after.lookups.last().reply == between.lookups.last().reply,
    ensures
        reply is Err,
{
}

/// Opening an offer turns away that offer and what is too far behind it, and nothing else: any other
/// message that could still be opened before can be opened after. (On a 64-bit machine.)
pub proof fn opening_an_offer_turns_no_other_away(
    sender: SealerView,
    sender_after: SealerView,
    recipient: DidView,
    plaintext: Seq<u8>,
    wire: Seq<u8>,
    opener: SealerView,
    opener_after: SealerView,
    our_secret: Seq<u8>,
    opened: OpenedView,
    other: MessageId,
)
    requires
        usize::BITS == 64,
        sender.seals(sender_after, recipient, plaintext, Ok(wire)),
        opener.opens(opener_after, our_secret, wire, Ok(opened)),
        sender_after.lookups.last().reply.ok() == crate::identity::bls_public_key(our_secret),
        opener_after.lookups.last().reply.ok() == crate::identity::bls_public_key(
            sender.sender_secret,
        ),
        plaintext.len() <= message::MAX_PAYLOAD,
        !opener.guard.seen.contains(other),
        !message::turned_away_after(
            (sender.sender, sender.sender_epoch, sender.counter),
        ).contains(other),
    ensures
        !opener_after.guard.seen.contains(other),
{
    let envelope = message::decoded_envelope(wire)->Ok_0;
    let sender_key = opener_after.lookups.last().reply.ok();
    let sent: MessageId = (sender.sender, sender.sender_epoch, sender.counter);
    let id = choose|id: MessageId|
        {
            &&& id.0 == envelope.sender
            &&& id.1 == envelope.sender_epoch
            &&& opener.guard.admits(opener_after.guard, id)
            &&& #[trigger] message::spent(our_secret, envelope, sender_key, id)
        };
    // A guard that has seen nothing but `id` turns the envelope away, so it is the message's own.
    let seen = Set::<MessageId>::empty().insert(id);
    let now_ms = sender_after.readings.last();
    assert(message::opened_message(our_secret, envelope, sender_key, seen, now_ms) is Err);
    assert(id == sent);
}

/// Outbound counters are strictly increasing, up to the last one there is.
pub proof fn outbound_counters_increase(
    before: SealerView,
    after: SealerView,
    recipient: DidView,
    plaintext: Seq<u8>,
    reply: Reply<Seq<u8>>,
)
    requires
        before.seals(after, recipient, plaintext, reply),
        before.counter < u64::MAX,
    ensures
        before.counter <= after.counter,
        reply is Ok ==> before.counter < after.counter,
{
}

} // verus!
