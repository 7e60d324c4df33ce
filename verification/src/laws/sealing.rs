//! What the [dig-message-backed sealer](crate::sealer) does, stated of the calls of it: over its
//! keys, counter and guard, over what its resolver and clock answered, and over what dig-message
//! answered.

use vstd::prelude::*;

use crate::error::{ErrorView, Result};
use crate::identity::{bech32m_address, bls_public_key, Did, SecretKey};
use crate::message::{
    answered, decoded_envelope, encoded_envelope, opened_message, MessageEnvelope,
    MessageEnvelopeView, MessageId, SealRequest,
};
use crate::sealer::{
    finish_seal, unix_ms, ChainKeyResolver, Clock, DigMessageSealer, KeyResolver, SystemClock,
};
use crate::seams::{EnvelopeSealer, OpenedEnvelope, OpenedView, SeamCall};

verus! {

/// A failure of dig-message as the sealer reports it.
pub open spec fn reported(detail: Seq<char>) -> ErrorView {
    ErrorView::Seam("dig-message seal/open: "@ + detail)
}

/// What a sealer's reply must be for an answer of dig-message: the bytes of an envelope that was
/// sealed, if it can be encoded, and otherwise the failure.
pub open spec fn finished(
    answer: core::result::Result<MessageEnvelopeView, Seq<char>>,
) -> core::result::Result<Seq<u8>, ErrorView> {
    match answer {
        Ok(envelope) => match encoded_envelope(envelope) {
            Ok(wire) => Ok(wire),
            Err(detail) => Err(reported(detail)),
        },
        Err(detail) => Err(reported(detail)),
    }
}

/// The reply is what comes of an answer that dig-message gave to this request and plaintext.
pub open spec fn passes_on(
    request: SealRequest,
    plaintext: Seq<u8>,
    reply: core::result::Result<Seq<u8>, ErrorView>,
) -> bool {
    exists|answer: core::result::Result<MessageEnvelopeView, Seq<char>>| #[trigger]
        answered(request, plaintext, answer) && reply == finished(answer)
}

/// A seal fails only where something that it relies on failed. The recipient's key is looked up,
/// once, and a failure of that is the reply. Otherwise the clock is read, once, the counter is
/// spent, and the reply is what comes of dig-message's own answer: to just this plaintext, from
/// our identity to the recipient under the key that was looked up, with the counter, at the time
/// that was read, as an offer that never expires.
pub proof fn seal_passes_on_the_answer<R: KeyResolver, C: Clock>(
    sealer: &mut DigMessageSealer<R, C>,
    recipient: &Did,
    plaintext: &[u8],
    res: Result<Vec<u8>>,
)
    requires
        call_ensures(
            <DigMessageSealer<R, C> as EnvelopeSealer>::seal,
            (sealer, recipient, plaintext),
            res,
        ),
    ensures
        ({
            let (before, after) = (old(sealer)@, final(sealer)@);
            let lookup = after.lookups.last();
            &&& after.lookups == before.lookups.push(lookup)
            &&& lookup.did == recipient@
            &&& after.sender_secret == before.sender_secret
            &&& after.sender == before.sender
            &&& after.sender_epoch == before.sender_epoch
            &&& after.guard == before.guard
            &&& after.calls == before.calls.push(
                (SeamCall::Seal {
                    recipient: recipient@,
                    plaintext: plaintext@,
                    reply: crate::error::outcome(res),
                }),
            )
            &&& match lookup.reply {
                Err(error) => {
                    &&& crate::error::outcome(res) == Err::<Seq<u8>, _>(error)
                    &&& after.counter == before.counter
                    &&& after.readings == before.readings
                },
                Ok(key) => {
                    let now_ms = after.readings.last();
                    &&& after.readings == before.readings.push(now_ms)
                    &&& after.counter == (if before.counter == u64::MAX {
                        0
                    } else {
                        before.counter + 1
                    })
                    &&& passes_on(
                        SealRequest {
                            sender_secret: before.sender_secret,
                            sender: before.sender,
                            sender_epoch: before.sender_epoch,
                            recipient: recipient@.launcher_id,
                            recipient_key: key,
                            message_type: 0x0000_0700,
                            shape: 0,
                            correlation_id: Seq::new(32, |i: int| 0u8),
                            counter: before.counter,
                            timestamp_ms: now_ms,
                            expires_at: 0,
                        },
                        plaintext@,
                        crate::error::outcome(res),
                    )
                },
            }
        }),
{
    let (before, after) = (old(sealer)@, final(sealer)@);
    if let Ok(key) = after.lookups.last().reply {
        let request = before.request(recipient@, key, after.readings.last());
        assert(request == (SealRequest {
            sender_secret: before.sender_secret,
            sender: before.sender,
            sender_epoch: before.sender_epoch,
            recipient: recipient@.launcher_id,
            recipient_key: key,
            message_type: 0x0000_0700,
            shape: 0,
            correlation_id: Seq::new(32, |i: int| 0u8),
            counter: before.counter,
            timestamp_ms: after.readings.last(),
            expires_at: 0,
        }));
    }
}

/// Two seals of one sealer, one after the other, are never asked for under one counter.
pub proof fn successive_seals_spend_two_counters<R: KeyResolver, C: Clock>(
    sealer: &mut DigMessageSealer<R, C>,
    recipient: &Did,
    plaintext: &[u8],
    res: Result<Vec<u8>>,
)
    requires
        call_ensures(
            <DigMessageSealer<R, C> as EnvelopeSealer>::seal,
            (sealer, recipient, plaintext),
            res,
        ),
        res is Ok,
    ensures
        final(sealer)@.counter != old(sealer)@.counter,
        old(sealer)@.counter < u64::MAX ==> final(sealer)@.counter == old(sealer)@.counter + 1,
{
}

/// An open is what dig-message makes of the envelope. Bytes that are no envelope are refused
/// before anything is done. Otherwise the clock is read, once, the key of the sender in the header
/// is looked up, once, by the DID of its launcher id, and the reply is what dig-message makes of
/// the envelope, with our secret key, that key, the messages seen before, and that time.
pub proof fn open_is_dig_messages<R: KeyResolver, C: Clock>(
    sealer: &mut DigMessageSealer<R, C>,
    our_secret: &SecretKey,
    ciphertext: &[u8],
    res: Result<OpenedEnvelope>,
)
    requires
        call_ensures(
            <DigMessageSealer<R, C> as EnvelopeSealer>::open,
            (sealer, our_secret, ciphertext),
            res,
        ),
    ensures
        ({
            let (before, after) = (old(sealer)@, final(sealer)@);
            &&& after.sender_secret == before.sender_secret
            &&& after.sender == before.sender
            &&& after.sender_epoch == before.sender_epoch
            &&& after.counter == before.counter
            &&& after.calls == before.calls.push(
                (SeamCall::Open {
                    our_secret: our_secret@,
                    ciphertext: ciphertext@,
                    reply: crate::error::outcome(res),
                }),
            )
            &&& match decoded_envelope(ciphertext@) {
                Err(detail) => {
                    &&& crate::error::outcome(res) == Err::<OpenedView, _>(reported(detail))
                    &&& after.lookups == before.lookups
                    &&& after.readings == before.readings
                    &&& after.guard == before.guard
                },
                Ok(envelope) => {
                    let lookup = after.lookups.last();
                    let now_ms = after.readings.last();
                    &&& after.lookups == before.lookups.push(lookup)
                    &&& lookup.did.launcher_id == envelope.sender
                    &&& lookup.did.text == bech32m_address(envelope.sender, "did:chia:"@)->0
                    &&& after.readings == before.readings.push(now_ms)
                    &&& crate::error::outcome(res) == (match opened_message(
                        our_secret@,
                        envelope,
                        match lookup.reply {
                            Ok(key) => Some(key),
                            Err(_) => None,
                        },
                        before.guard.seen,
                        now_ms,
                    ) {
                        Ok(opened) => Ok::<OpenedView, ErrorView>(opened),
                        Err(detail) => Err(reported(detail)),
                    })
                    &&& res matches Ok(opened) ==> opened.sender@ == envelope.sender
                        && lookup.reply is Ok
                },
            }
        }),
{
}

/// What one sealer sealed, another opens, and it recovers the plaintext and the sender: provided
/// that the lookups gave the keys that belong to the two secret keys, that the two readings are no
/// more than five minutes apart, that the message was not seen before, and that the plaintext is
/// no longer than 64 MiB.
pub proof fn sealed_is_opened<R: KeyResolver, C: Clock, R2: KeyResolver, C2: Clock>(
    here: &mut DigMessageSealer<R, C>,
    recipient: &Did,
    plaintext: &[u8],
    wire: Result<Vec<u8>>,
    there: &mut DigMessageSealer<R2, C2>,
    our_secret: &SecretKey,
    ciphertext: &[u8],
    res: Result<OpenedEnvelope>,
)
    requires
        call_ensures(
            <DigMessageSealer<R, C> as EnvelopeSealer>::seal,
            (here, recipient, plaintext),
            wire,
        ),
        wire matches Ok(bytes) && bytes@ == ciphertext@,
        call_ensures(
            <DigMessageSealer<R2, C2> as EnvelopeSealer>::open,
            (there, our_secret, ciphertext),
            res,
        ),
        final(here)@.lookups.last().reply.ok() == bls_public_key(our_secret@),
        final(there)@.lookups.last().reply.ok() == bls_public_key(old(here)@.sender_secret),
        final(here)@.readings.last() - 300000 <= final(there)@.readings.last(),
        final(there)@.readings.last() <= final(here)@.readings.last() + 300000,
        !old(there)@.guard.seen.contains(
            (old(here)@.sender, old(here)@.sender_epoch, old(here)@.counter),
        ),
        plaintext@.len() <= 67108864,
    ensures
        res matches Ok(opened) && opened.plaintext@ == plaintext@ && opened.sender@
            == old(here)@.sender,
{
    crate::sealer::sealed_offer_opens_for_its_recipient(
        old(here)@,
        final(here)@,
        recipient@,
        plaintext@,
        ciphertext@,
        old(there)@,
        final(there)@,
        our_secret@,
        crate::error::outcome(res),
    );
}

/// An offer that is read more than five minutes before or after its sealing is refused.
pub proof fn sealed_goes_stale<R: KeyResolver, C: Clock, R2: KeyResolver, C2: Clock>(
    here: &mut DigMessageSealer<R, C>,
    recipient: &Did,
    plaintext: &[u8],
    wire: Result<Vec<u8>>,
    there: &mut DigMessageSealer<R2, C2>,
    our_secret: &SecretKey,
    ciphertext: &[u8],
    res: Result<OpenedEnvelope>,
)
    requires
        call_ensures(
            <DigMessageSealer<R, C> as EnvelopeSealer>::seal,
            (here, recipient, plaintext),
            wire,
        ),
        wire matches Ok(bytes) && bytes@ == ciphertext@,
        call_ensures(
            <DigMessageSealer<R2, C2> as EnvelopeSealer>::open,
            (there, our_secret, ciphertext),
            res,
        ),
        final(here)@.lookups.last().reply.ok() == bls_public_key(our_secret@),
        final(there)@.lookups.last().reply.ok() == bls_public_key(old(here)@.sender_secret),
        ({
            ||| final(here)@.readings.last() - 300000 > final(there)@.readings.last()
            ||| final(there)@.readings.last() > final(here)@.readings.last() + 300000
        }),
    ensures
        res is Err,
{
    crate::sealer::stale_offer_is_refused(
        old(here)@,
        final(here)@,
        recipient@,
        plaintext@,
        ciphertext@,
        old(there)@,
        final(there)@,
        our_secret@,
        crate::error::outcome(res),
    );
}

/// An envelope that was opened is refused the second time, by the same key for its sender.
pub proof fn opened_is_refused_again<R: KeyResolver, C: Clock>(
    sealer: &mut DigMessageSealer<R, C>,
    our_secret: &SecretKey,
    ciphertext: &[u8],
    first: Result<OpenedEnvelope>,
    later: &mut DigMessageSealer<R, C>,
    second: Result<OpenedEnvelope>,
)
    requires
        call_ensures(
            <DigMessageSealer<R, C> as EnvelopeSealer>::open,
            (sealer, our_secret, ciphertext),
            first,
        ),
        first is Ok,
        old(later)@ == final(sealer)@,
        call_ensures(
            <DigMessageSealer<R, C> as EnvelopeSealer>::open,
            (later, our_secret, ciphertext),
            second,
        ),
        final(later)@.lookups.last().reply == final(sealer)@.lookups.last().reply,
    ensures
        second is Err,
{
    crate::sealer::opened_offer_is_refused_at_once(
        old(sealer)@,
        final(sealer)@,
        final(later)@,
        our_secret@,
        ciphertext@,
        crate::error::outcome(first)->Ok_0,
        crate::error::outcome(second),
    );
}

/// A new sealer is for the identity that it is built with: it has spent no counter, seen no message
/// and been asked nothing.
pub proof fn new_sealer_is_fresh<R: KeyResolver, C: Clock>(
    secret: SecretKey,
    did: &Did,
    epoch: u32,
    resolver: R,
    clock: C,
    sealer: DigMessageSealer<R, C>,
)
    requires
        call_ensures(
            DigMessageSealer::<R, C>::with_clock,
            (secret, did, epoch, resolver, clock),
            sealer,
        ),
    ensures
        sealer@.sender_secret == secret@,
        sealer@.sender == did@.launcher_id,
        sealer@.sender_epoch == epoch,
        sealer@.counter == 0,
        sealer@.guard.seen == Set::<MessageId>::empty(),
        sealer@.guard.senders == 0,
        sealer@.lookups == resolver.lookups(),
        sealer@.readings == clock.readings(),
        sealer@.calls == Seq::<SeamCall>::empty(),
{
}

/// So is one that uses the system clock, which it has not read yet.
pub proof fn new_sealer_has_not_read_the_clock<R: KeyResolver>(
    secret: SecretKey,
    did: &Did,
    epoch: u32,
    resolver: R,
    sealer: DigMessageSealer<R, SystemClock>,
)
    requires
        call_ensures(
            DigMessageSealer::<R, SystemClock>::new,
            (secret, did, epoch, resolver),
            sealer,
        ),
    ensures
        sealer@.sender_secret == secret@,
        sealer@.sender == did@.launcher_id,
        sealer@.sender_epoch == epoch,
        sealer@.counter == 0,
        sealer@.guard.seen == Set::<MessageId>::empty(),
        sealer@.guard.senders == 0,
        sealer@.lookups == resolver.lookups(),
        sealer@.readings == Seq::<u64>::empty(),
        sealer@.calls == Seq::<SeamCall>::empty(),
{
}

/// An envelope that dig-message sealed becomes its wire bytes, if it can be encoded; they decode to
/// that envelope again if it is of the current version. A failure is passed on with its text.
pub proof fn sealed_envelope_is_returned(
    sealed: core::result::Result<MessageEnvelope, String>,
    res: Result<Vec<u8>>,
)
    requires
        call_ensures(finish_seal, (sealed,), res),
    ensures
        match sealed {
            Ok(envelope) => match encoded_envelope(envelope@) {
                Ok(wire) => {
                    &&& res matches Ok(bytes)
                    &&& bytes@ == wire
                    &&& envelope@.version <= 1 ==> decoded_envelope(bytes@) == Ok::<_, Seq<char>>(
                        envelope@,
                    )
                },
                Err(detail) => res matches Err(error) && error@ == reported(detail),
            },
            Err(detail) => res matches Err(error) && error@ == reported(detail@),
        },
{
}

/// A key that the chain lookup found is handed on, and its failure is passed on with its text.
pub proof fn lookup_is_handed_on<S>(
    reply: core::result::Result<[u8; 48], String>,
    res: Result<[u8; 48]>,
)
    requires
        call_ensures(ChainKeyResolver::<S>::resolved, (reply,), res),
    ensures
        match reply {
            Ok(key) => res matches Ok(found) && found == key,
            Err(detail) => res matches Err(error) && error@ == ErrorView::Seam(
                "resolve BLS G1 identity key: "@ + detail@,
            ),
        },
{
}

/// A resolver is over the source that it is built with.
pub proof fn resolver_keeps_its_source<S>(source: S, resolver: ChainKeyResolver<S>, found: &S)
    requires
        call_ensures(ChainKeyResolver::<S>::new, (source,), resolver),
        call_ensures(ChainKeyResolver::<S>::source, (&resolver,), found),
    ensures
        *found == source,
{
}

/// A clock reading is the number of milliseconds since the epoch as long as 64 bits hold it, and
/// zero before the epoch.
pub proof fn reading_is_milliseconds(since_epoch: Option<u128>, res: u64)
    requires
        call_ensures(unix_ms, (since_epoch,), res),
    ensures
        match since_epoch {
            Some(ms) => (ms <= u64::MAX ==> res == ms) && (ms - res) % 0x1_0000_0000_0000_0000 == 0,
            None => res == 0,
        },
{
}

/// A reading of the system clock is the system's own, and is added to what the clock has read.
pub proof fn system_clock_is_read(clock: &mut SystemClock, res: u64)
    requires
        call_ensures(<SystemClock as Clock>::now_ms, (clock,), res),
    ensures
        crate::sealer::system_reading(res),
        final(clock).readings() == old(clock).readings().push(res),
{
}

/// What an open does to the guard. Without a key for the sender it does nothing. With one it does
/// nothing, if it fails, or takes in one message of the sender's. On a 64-bit machine, if there is
/// room for the sender, what was turned away still is, and what is turned away anew is that
/// message and what is 1024 or more behind it, and nothing else. And no more than one sender comes
/// to be remembered.
pub proof fn open_takes_in_one_message<R: KeyResolver, C: Clock>(
    sealer: &mut DigMessageSealer<R, C>,
    our_secret: &SecretKey,
    ciphertext: &[u8],
    res: Result<OpenedEnvelope>,
    envelope: MessageEnvelopeView,
)
    requires
        call_ensures(
            <DigMessageSealer<R, C> as EnvelopeSealer>::open,
            (sealer, our_secret, ciphertext),
            res,
        ),
        decoded_envelope(ciphertext@) == Ok::<_, Seq<char>>(envelope),
    ensures
        ({
            let (before, after) = (old(sealer)@.guard, final(sealer)@.guard);
            &&& before.senders <= after.senders <= before.senders + 1
            &&& final(sealer)@.lookups.last().reply is Err ==> res is Err && after == before
            &&& (res is Err && after == before) || exists|id: MessageId|
                {
                    &&& id.0 == envelope.sender
                    &&& id.1 == envelope.sender_epoch
                    &&& #[trigger] after.seen.contains(id)
                    &&& usize::BITS == 64 ==> forall|other: MessageId| #[trigger]
                        after.seen.contains(other) ==> before.seen.contains(other) || other == id
                            || (other.0 == id.0 && other.1 == id.1 && other.2 + 1024 <= id.2)
                }
            &&& usize::BITS == 64 && (before.senders < 100000 || exists|id: MessageId| #[trigger]
                before.seen.contains(id) && id.0 == envelope.sender && id.1
                    == envelope.sender_epoch) ==> before.seen.subset_of(after.seen)
        }),
{
    let (before, after) = (old(sealer)@.guard, final(sealer)@.guard);
    let sender_key = final(sealer)@.lookups.last().reply.ok();
    if after != before || res is Ok {
        let id = choose|id: MessageId|
            {
                &&& id.0 == envelope.sender
                &&& id.1 == envelope.sender_epoch
                &&& before.admits(after, id)
                &&& #[trigger] crate::message::spent(our_secret@, envelope, sender_key, id)
            };
        assert(before.admits(after, id));
        assert(after.seen.contains(id));
        if usize::BITS == 64 {
            assert forall|other: MessageId| #[trigger] after.seen.contains(other) implies {
                ||| before.seen.contains(other)
                ||| other == id
                ||| (other.0 == id.0 && other.1 == id.1 && other.2 + 1024 <= id.2)
            } by {
                assert(before.seen.union(crate::message::turned_away_after(id)).contains(other));
            }
        }
    }
}

} // verus!
