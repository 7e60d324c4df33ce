//! What the [manager](crate::manager) does with a message, stated of the calls that handle one; and
//! what becomes, at the other end, of what an operation sends.

use vstd::prelude::*;

use super::operations::{
    failure, following_is_a_true_record, news, refused, reported, true_record, unhindered,
};
use crate::error::{ErrorView, Result};
use crate::graph::ConnectionView;
use crate::identity::{Did, DidView, SecretKey};
use crate::manager::SocialGraphManager;
use crate::seams::{
    EnvelopeSealer, OpenedView, Persistence, SeamCall, StoreSubscriber, Transport,
};
use crate::state::{ConnectionEvent, ConnectionState};
use crate::wire::{CoordsView, MessageView, SealedEnvelope, StoreCoords};

verus! {

/// The coordinates in an offer that was opened, if they can be trusted: the declared sender sealed
/// it, it spells coordinates, and they are of that sender's own store.
pub open spec fn trusted(call: SeamCall, sender: DidView) -> Option<CoordsView> {
    match call {
        SeamCall::Open { reply: Ok(opened), .. } => match crate::wire::decoded_coords(
            opened.plaintext,
        ) {
            Ok(coords) => if opened.sender == sender.launcher_id && coords.did.launcher_id
                == sender.launcher_id {
                Some(coords)
            } else {
                None
            },
            Err(_) => None,
        },
        _ => None,
    }
}

/// A message that does not decode is refused with the reason, before anything is done.
pub proof fn malformed_message_is_refused<
    T: Transport,
    S: EnvelopeSealer,
    Sub: StoreSubscriber,
    P: Persistence,
>(
    manager: &mut SocialGraphManager<T, S, Sub, P>,
    our_secret: &SecretKey,
    envelope: &SealedEnvelope,
    error: ErrorView,
    res: Result<()>,
)
    requires
        call_ensures(
            SocialGraphManager::<T, S, Sub, P>::handle_incoming,
            (manager, our_secret, envelope),
            res,
        ),
        crate::wire::decoded_message(envelope@.payload) == Err::<MessageView, ErrorView>(
            error,
        ),
    ensures
        refused(old(manager)@, final(manager)@, res, error),
        true_record(old(manager)@, final(manager)@),
{
    let (before, after) = (old(manager)@, final(manager)@);
    let calls = news(before, after);
    following_is_a_true_record(before, after);
    assert(after =~= before);
}

/// A message that carries an offer is handled by opening just that offer, first and once.
pub proof fn offer_is_opened_first<
    T: Transport,
    S: EnvelopeSealer,
    Sub: StoreSubscriber,
    P: Persistence,
>(
    manager: &mut SocialGraphManager<T, S, Sub, P>,
    our_secret: &SecretKey,
    envelope: &SealedEnvelope,
    offer: Seq<u8>,
    res: Result<()>,
)
    requires
        call_ensures(
            SocialGraphManager::<T, S, Sub, P>::handle_incoming,
            (manager, our_secret, envelope),
            res,
        ),
        ({
            ||| crate::wire::decoded_message(envelope@.payload) == Ok::<
                MessageView,
                ErrorView,
            >(MessageView::Request(offer))
            ||| crate::wire::decoded_message(envelope@.payload) == Ok::<
                MessageView,
                ErrorView,
            >(MessageView::Accept(offer))
        }),
    ensures
        ({
            let (before, after) = (old(manager)@, final(manager)@);
            let calls = news(before, after);
            let sender = envelope@.sender;
            &&& calls.len() > 0
            &&& calls[0] matches SeamCall::Open { our_secret: secret, ciphertext, .. }
            &&& secret == our_secret@
            &&& ciphertext == offer
            &&& forall|i: int| 0 < i < calls.len() ==> !(#[trigger] calls[i] is Open)
        }),
        true_record(old(manager)@, final(manager)@),
{
    let (before, after) = (old(manager)@, final(manager)@);
    let calls = news(before, after);
    following_is_a_true_record(before, after);
}

/// An offer that cannot be opened, or that cannot be trusted, is refused, and nothing changes. It
/// is not to be trusted if someone other than the declared sender sealed it, if it does not spell
/// coordinates, or if they are of a store that is not the sealer's own; of these, the first is the
/// reason.
pub proof fn untrusted_offer_is_refused<
    T: Transport,
    S: EnvelopeSealer,
    Sub: StoreSubscriber,
    P: Persistence,
>(
    manager: &mut SocialGraphManager<T, S, Sub, P>,
    our_secret: &SecretKey,
    envelope: &SealedEnvelope,
    offer: Seq<u8>,
    res: Result<()>,
)
    requires
        call_ensures(
            SocialGraphManager::<T, S, Sub, P>::handle_incoming,
            (manager, our_secret, envelope),
            res,
        ),
        ({
            ||| crate::wire::decoded_message(envelope@.payload) == Ok::<
                MessageView,
                ErrorView,
            >(MessageView::Request(offer))
            ||| crate::wire::decoded_message(envelope@.payload) == Ok::<
                MessageView,
                ErrorView,
            >(MessageView::Accept(offer))
        }),
        trusted(news(old(manager)@, final(manager)@)[0], envelope@.sender) is None,
    ensures
        final(manager)@.graph == old(manager)@.graph,
        ({
            let (before, after) = (old(manager)@, final(manager)@);
            let calls = news(before, after);
            let sender = envelope@.sender;
            &&& calls.len() == 1
            &&& res matches Err(e)
            &&& match calls[0]->Open_reply {
                Err(error) => e@ == reported(calls[0], error),
                Ok(opened) => if opened.sender != sender.launcher_id {
                    e@ == ErrorView::Invariant(
                        "sealed sender does not match the envelope's declared sender DID"@,
                    )
                } else {
                    match crate::wire::decoded_coords(opened.plaintext) {
                        Err(error) => e@ == error,
                        Ok(_) => e@ == ErrorView::Invariant(
                            "offered store DID does not match the authenticated sealer"@,
                        ),
                    }
                },
            }
        }),
        true_record(old(manager)@, final(manager)@),
{
    let (before, after) = (old(manager)@, final(manager)@);
    let calls = news(before, after);
    following_is_a_true_record(before, after);
}

/// A request from a peer that is not known yet, with an offer that can be trusted, puts the peer
/// on record as awaiting consent, with the offered store, whoever else is known. The graph is
/// persisted so, and what that answers is the result.
pub proof fn trusted_request_awaits_consent<
    T: Transport,
    S: EnvelopeSealer,
    Sub: StoreSubscriber,
    P: Persistence,
>(
    manager: &mut SocialGraphManager<T, S, Sub, P>,
    our_secret: &SecretKey,
    envelope: &SealedEnvelope,
    offer: Seq<u8>,
    store: CoordsView,
    res: Result<()>,
)
    requires
        call_ensures(
            SocialGraphManager::<T, S, Sub, P>::handle_incoming,
            (manager, our_secret, envelope),
            res,
        ),
        crate::wire::decoded_message(envelope@.payload) == Ok::<MessageView, ErrorView>(
            MessageView::Request(offer),
        ),
        trusted(news(old(manager)@, final(manager)@)[0], envelope@.sender) == Some(store),
        !old(manager)@.graph.contains_key(envelope@.sender.text),
    ensures
        ({
            let (before, after) = (old(manager)@, final(manager)@);
            let calls = news(before, after);
            let sender = envelope@.sender;
            &&& calls.len() == 2
            &&& calls[1] == (SeamCall::Store {
                graph: after.graph,
                reply: crate::error::outcome(res),
            })
            &&& after.graph == before.graph.insert(
                sender.text,
                ConnectionView {
                    peer: sender,
                    state: ConnectionState::AwaitingRecipientSelect,
                    presented_local_did: None,
                    our_offer: None,
                    their_store: Some(store),
                },
            )
        }),
        true_record(old(manager)@, final(manager)@),
{
    let (before, after) = (old(manager)@, final(manager)@);
    let calls = news(before, after);
    following_is_a_true_record(before, after);
}

/// A request from a peer that is already known is refused, and nothing changes.
pub proof fn request_from_a_known_peer_is_refused<
    T: Transport,
    S: EnvelopeSealer,
    Sub: StoreSubscriber,
    P: Persistence,
>(
    manager: &mut SocialGraphManager<T, S, Sub, P>,
    our_secret: &SecretKey,
    envelope: &SealedEnvelope,
    offer: Seq<u8>,
    store: CoordsView,
    res: Result<()>,
)
    requires
        call_ensures(
            SocialGraphManager::<T, S, Sub, P>::handle_incoming,
            (manager, our_secret, envelope),
            res,
        ),
        crate::wire::decoded_message(envelope@.payload) == Ok::<MessageView, ErrorView>(
            MessageView::Request(offer),
        ),
        trusted(news(old(manager)@, final(manager)@)[0], envelope@.sender) == Some(store),
        old(manager)@.graph.contains_key(envelope@.sender.text),
    ensures
        final(manager)@.graph == old(manager)@.graph,
        news(old(manager)@, final(manager)@).len() == 1,
        res matches Err(e) && e@ == ErrorView::Invariant(
            "a connection to this peer already exists"@,
        ),
        true_record(old(manager)@, final(manager)@),
{
    let (before, after) = (old(manager)@, final(manager)@);
    let calls = news(before, after);
    following_is_a_true_record(before, after);
}

/// An acceptance of a request that was delivered, with an offer that can be trusted, subscribes to
/// the offered store. If that succeeds the connection is live with that store on record, and
/// otherwise as it was, the graph is persisted so, and what that answers is the result. If it
/// fails nothing changes.
pub proof fn trusted_acceptance_connects<
    T: Transport,
    S: EnvelopeSealer,
    Sub: StoreSubscriber,
    P: Persistence,
>(
    manager: &mut SocialGraphManager<T, S, Sub, P>,
    our_secret: &SecretKey,
    envelope: &SealedEnvelope,
    offer: Seq<u8>,
    store: CoordsView,
    res: Result<()>,
)
    requires
        call_ensures(
            SocialGraphManager::<T, S, Sub, P>::handle_incoming,
            (manager, our_secret, envelope),
            res,
        ),
        crate::wire::decoded_message(envelope@.payload) == Ok::<MessageView, ErrorView>(
            MessageView::Accept(offer),
        ),
        trusted(news(old(manager)@, final(manager)@)[0], envelope@.sender) == Some(store),
        old(manager)@.graph.contains_key(envelope@.sender.text),
        old(manager)@.graph[envelope@.sender.text].state == ConnectionState::RequestorOffered,
    ensures
        ({
            let (before, after) = (old(manager)@, final(manager)@);
            let calls = news(before, after);
            let sender = envelope@.sender;
            &&& calls.len() >= 2
            &&& calls[1] matches SeamCall::Subscribe { coords, reply }
            &&& coords == store
            &&& match reply {
                Ok(_) => {
                    &&& calls.len() == 3
                    &&& calls[2] == (SeamCall::Store {
                        graph: after.graph,
                        reply: crate::error::outcome(res),
                    })
                    &&& after.graph == before.graph.insert(
                        sender.text,
                        ConnectionView {
                            state: ConnectionState::Connected,
                            their_store: Some(store),
                            ..before.graph[sender.text]
                        },
                    )
                },
                Err(error) => {
                    &&& calls.len() == 2
                    &&& after.graph == before.graph
                    &&& res matches Err(e)
                    &&& e@ == reported(calls[1], error)
                },
            }
        }),
        true_record(old(manager)@, final(manager)@),
{
    let (before, after) = (old(manager)@, final(manager)@);
    let calls = news(before, after);
    following_is_a_true_record(before, after);
}

/// An acceptance of anything but a request that was delivered is refused: nothing changes, and
/// nothing but the offer's opening happens at the seams.
pub proof fn acceptance_out_of_place_is_refused<
    T: Transport,
    S: EnvelopeSealer,
    Sub: StoreSubscriber,
    P: Persistence,
>(
    manager: &mut SocialGraphManager<T, S, Sub, P>,
    our_secret: &SecretKey,
    envelope: &SealedEnvelope,
    offer: Seq<u8>,
    store: CoordsView,
    res: Result<()>,
)
    requires
        call_ensures(
            SocialGraphManager::<T, S, Sub, P>::handle_incoming,
            (manager, our_secret, envelope),
            res,
        ),
        crate::wire::decoded_message(envelope@.payload) == Ok::<MessageView, ErrorView>(
            MessageView::Accept(offer),
        ),
        trusted(news(old(manager)@, final(manager)@)[0], envelope@.sender) == Some(store),
        !old(manager)@.graph.contains_key(envelope@.sender.text)
            || old(manager)@.graph[envelope@.sender.text].state
            != ConnectionState::RequestorOffered,
    ensures
        final(manager)@.graph == old(manager)@.graph,
        ({
            let (before, after) = (old(manager)@, final(manager)@);
            let calls = news(before, after);
            let sender = envelope@.sender;
            &&& calls.len() == 1
            &&& res matches Err(e)
            &&& e@ == if before.graph.contains_key(sender.text) {
                ErrorView::IllegalTransition {
                    state: before.graph[sender.text].state,
                    event: ConnectionEvent::AcceptReceived,
                }
            } else {
                ErrorView::Invariant("no connection tracked for this peer"@)
            }
        }),
        true_record(old(manager)@, final(manager)@),
{
    let (before, after) = (old(manager)@, final(manager)@);
    let calls = news(before, after);
    following_is_a_true_record(before, after);
}

/// A denial from a peer whose answer is awaited, or whose request awaits consent, declines the
/// connection, which is otherwise as it was. The one call is that the graph is persisted so, and
/// what that answers is the result.
pub proof fn inbound_denial_is_recorded<
    T: Transport,
    S: EnvelopeSealer,
    Sub: StoreSubscriber,
    P: Persistence,
>(
    manager: &mut SocialGraphManager<T, S, Sub, P>,
    our_secret: &SecretKey,
    envelope: &SealedEnvelope,
    res: Result<()>,
)
    requires
        call_ensures(
            SocialGraphManager::<T, S, Sub, P>::handle_incoming,
            (manager, our_secret, envelope),
            res,
        ),
        crate::wire::decoded_message(envelope@.payload) == Ok::<MessageView, ErrorView>(
            MessageView::Deny,
        ),
        old(manager)@.graph.contains_key(envelope@.sender.text),
        ({
            ||| old(manager)@.graph[envelope@.sender.text].state
                == ConnectionState::AwaitingRecipientSelect
            ||| old(manager)@.graph[envelope@.sender.text].state
                == ConnectionState::RequestorOffered
        }),
    ensures
        ({
            let (before, after) = (old(manager)@, final(manager)@);
            let calls = news(before, after);
            let sender = envelope@.sender;
            &&& calls == seq![
                (SeamCall::Store { graph: after.graph, reply: crate::error::outcome(res) }),
            ]
            &&& after.graph == before.graph.insert(
                sender.text,
                ConnectionView { state: ConnectionState::Denied, ..before.graph[sender.text] },
            )
        }),
        true_record(old(manager)@, final(manager)@),
{
    let (before, after) = (old(manager)@, final(manager)@);
    let calls = news(before, after);
    following_is_a_true_record(before, after);
}

/// A denial that does not fit the connection, or from a peer that is not known, is refused before
/// anything is done.
pub proof fn inbound_denial_out_of_place_is_refused<
    T: Transport,
    S: EnvelopeSealer,
    Sub: StoreSubscriber,
    P: Persistence,
>(
    manager: &mut SocialGraphManager<T, S, Sub, P>,
    our_secret: &SecretKey,
    envelope: &SealedEnvelope,
    res: Result<()>,
)
    requires
        call_ensures(
            SocialGraphManager::<T, S, Sub, P>::handle_incoming,
            (manager, our_secret, envelope),
            res,
        ),
        crate::wire::decoded_message(envelope@.payload) == Ok::<MessageView, ErrorView>(
            MessageView::Deny,
        ),
        !old(manager)@.graph.contains_key(envelope@.sender.text) || (
        old(manager)@.graph[envelope@.sender.text].state
            != ConnectionState::AwaitingRecipientSelect
            && old(manager)@.graph[envelope@.sender.text].state
            != ConnectionState::RequestorOffered),
    ensures
        refused(
            old(manager)@,
            final(manager)@,
            res,
            if old(manager)@.graph.contains_key(envelope@.sender.text) {
                ErrorView::IllegalTransition {
                    state: old(manager)@.graph[envelope@.sender.text].state,
                    event: ConnectionEvent::Denied,
                }
            } else {
                ErrorView::Invariant("no connection tracked for this peer"@)
            },
        ),
        true_record(old(manager)@, final(manager)@),
{
    let (before, after) = (old(manager)@, final(manager)@);
    let calls = news(before, after);
    following_is_a_true_record(before, after);
    assert(after =~= before);
}

/// A revocation from a connected peer takes effect, whoever else is known: the connection is
/// revoked in any case. The peer's store, if there was one, is unsubscribed, and if that succeeds
/// it is forgotten, the graph is persisted so, and what that answers is the result.
pub proof fn inbound_revocation_takes_effect<
    T: Transport,
    S: EnvelopeSealer,
    Sub: StoreSubscriber,
    P: Persistence,
>(
    manager: &mut SocialGraphManager<T, S, Sub, P>,
    our_secret: &SecretKey,
    envelope: &SealedEnvelope,
    res: Result<()>,
)
    requires
        call_ensures(
            SocialGraphManager::<T, S, Sub, P>::handle_incoming,
            (manager, our_secret, envelope),
            res,
        ),
        crate::wire::decoded_message(envelope@.payload) == Ok::<MessageView, ErrorView>(
            MessageView::Revoke,
        ),
        old(manager)@.graph.contains_key(envelope@.sender.text),
        old(manager)@.graph[envelope@.sender.text].state == ConnectionState::Connected,
    ensures
        ({
            let (before, after) = (old(manager)@, final(manager)@);
            let calls = news(before, after);
            let sender = envelope@.sender;
            let connection = before.graph[sender.text];
            let torn_down = before.graph.insert(
                sender.text,
                ConnectionView {
                    state: ConnectionState::Revoked,
                    their_store: None,
                    ..connection
                },
            );
            match connection.their_store {
                None => {
                    &&& calls == seq![
                        (SeamCall::Store {
                            graph: after.graph,
                            reply: crate::error::outcome(res),
                        }),
                    ]
                    &&& after.graph == torn_down
                },
                Some(store) => {
                    &&& calls.len() > 0
                    &&& calls[0] matches SeamCall::Unsubscribe { coords, reply }
                    &&& coords == store
                    &&& match reply {
                        Ok(_) => {
                            &&& calls.len() == 2
                            &&& calls[1] == (SeamCall::Store {
                                graph: after.graph,
                                reply: crate::error::outcome(res),
                            })
                            &&& after.graph == torn_down
                        },
                        Err(error) => {
                            &&& calls.len() == 1
                            &&& after.graph == before.graph.insert(
                                sender.text,
                                ConnectionView { state: ConnectionState::Revoked, ..connection },
                            )
                            &&& res matches Err(e)
                            &&& e@ == reported(calls[0], error)
                        },
                    }
                },
            }
        }),
        true_record(old(manager)@, final(manager)@),
{
    let (before, after) = (old(manager)@, final(manager)@);
    let calls = news(before, after);
    following_is_a_true_record(before, after);
}

/// A revocation of a connection that is not live, or from a peer that is not known, is refused
/// before anything is done.
pub proof fn inbound_revocation_out_of_place_is_refused<
    T: Transport,
    S: EnvelopeSealer,
    Sub: StoreSubscriber,
    P: Persistence,
>(
    manager: &mut SocialGraphManager<T, S, Sub, P>,
    our_secret: &SecretKey,
    envelope: &SealedEnvelope,
    res: Result<()>,
)
    requires
        call_ensures(
            SocialGraphManager::<T, S, Sub, P>::handle_incoming,
            (manager, our_secret, envelope),
            res,
        ),
        crate::wire::decoded_message(envelope@.payload) == Ok::<MessageView, ErrorView>(
            MessageView::Revoke,
        ),
        !old(manager)@.graph.contains_key(envelope@.sender.text)
            || old(manager)@.graph[envelope@.sender.text].state
            != ConnectionState::Connected,
    ensures
        refused(
            old(manager)@,
            final(manager)@,
            res,
            if old(manager)@.graph.contains_key(envelope@.sender.text) {
                ErrorView::IllegalTransition {
                    state: old(manager)@.graph[envelope@.sender.text].state,
                    event: ConnectionEvent::Revoked,
                }
            } else {
                ErrorView::Invariant("no connection tracked for this peer"@)
            },
        ),
        true_record(old(manager)@, final(manager)@),
{
    let (before, after) = (old(manager)@, final(manager)@);
    let calls = news(before, after);
    following_is_a_true_record(before, after);
    assert(after =~= before);
}

/// A revocation that is sent ends the connection at the other end: a connected peer that handles
/// what was sent has the connection revoked, and its store is unsubscribed and, if that succeeds,
/// forgotten.
pub proof fn sent_revocation_ends_the_connection<
    T: Transport,
    S: EnvelopeSealer,
    Sub: StoreSubscriber,
    P: Persistence,
    T2: Transport,
    S2: EnvelopeSealer,
    Sub2: StoreSubscriber,
    P2: Persistence,
>(
    here: &mut SocialGraphManager<T, S, Sub, P>,
    peer: &Did,
    presented: &Did,
    sent: Result<()>,
    i: int,
    there: &mut SocialGraphManager<T2, S2, Sub2, P2>,
    their_secret: &SecretKey,
    envelope: &SealedEnvelope,
    handled: Result<()>,
)
    requires
        call_ensures(
            SocialGraphManager::<T, S, Sub, P>::revoke,
            (here, peer, presented),
            sent,
        ),
        0 <= i < news(old(here)@, final(here)@).len(),
        news(old(here)@, final(here)@)[i] matches SeamCall::Send { envelope: e, .. } && e
            == envelope@,
        call_ensures(
            SocialGraphManager::<T2, S2, Sub2, P2>::handle_incoming,
            (there, their_secret, envelope),
            handled,
        ),
        old(there)@.graph.contains_key(presented@.text),
        old(there)@.graph[presented@.text].state == ConnectionState::Connected,
    ensures
        envelope@.payload == seq![3u8],
        final(there)@.graph[presented@.text].state == ConnectionState::Revoked,
        old(there)@.graph[presented@.text].their_store matches Some(store) ==> {
            let theirs = news(old(there)@, final(there)@);
            &&& theirs[0] matches SeamCall::Unsubscribe { coords, reply }
            &&& coords == store
            &&& reply is Ok ==> final(there)@.graph[presented@.text].their_store is None
        },
        unhindered(news(old(there)@, final(there)@)) ==> handled is Ok
            && final(there)@.graph[presented@.text].their_store is None,
        forall|key: Seq<char>|
            key != presented@.text && old(there)@.graph.contains_key(key) ==> {
                &&& #[trigger] final(there)@.graph.contains_key(key)
                &&& final(there)@.graph[key] == old(there)@.graph[key]
            },
{
    let calls = news(old(here)@, final(here)@);
    let theirs = news(old(there)@, final(there)@);
    crate::wire::message_round_trip(MessageView::Revoke);
    assert(theirs.len() > 0 ==> failure(theirs[0]) is None || !unhindered(theirs));
    assert(theirs.len() > 1 ==> failure(theirs[1]) is None || !unhindered(theirs));
}

/// A denial that is sent declines the request at the other end: a peer whose request was
/// delivered, and that handles what was sent, has the connection declined.
pub proof fn sent_denial_declines_the_request<
    T: Transport,
    S: EnvelopeSealer,
    Sub: StoreSubscriber,
    P: Persistence,
    T2: Transport,
    S2: EnvelopeSealer,
    Sub2: StoreSubscriber,
    P2: Persistence,
>(
    here: &mut SocialGraphManager<T, S, Sub, P>,
    peer: &Did,
    presented: &Did,
    sent: Result<()>,
    i: int,
    there: &mut SocialGraphManager<T2, S2, Sub2, P2>,
    their_secret: &SecretKey,
    envelope: &SealedEnvelope,
    handled: Result<()>,
)
    requires
        call_ensures(
            SocialGraphManager::<T, S, Sub, P>::deny,
            (here, peer, presented),
            sent,
        ),
        0 <= i < news(old(here)@, final(here)@).len(),
        news(old(here)@, final(here)@)[i] matches SeamCall::Send { envelope: e, .. } && e
            == envelope@,
        call_ensures(
            SocialGraphManager::<T2, S2, Sub2, P2>::handle_incoming,
            (there, their_secret, envelope),
            handled,
        ),
        old(there)@.graph.contains_key(presented@.text),
        old(there)@.graph[presented@.text].state == ConnectionState::RequestorOffered,
    ensures
        envelope@.payload == seq![2u8],
        final(there)@.graph == old(there)@.graph.insert(
            presented@.text,
            ConnectionView {
                state: ConnectionState::Denied,
                ..old(there)@.graph[presented@.text]
            },
        ),
        unhindered(news(old(there)@, final(there)@)) ==> handled is Ok,
{
    let calls = news(old(here)@, final(here)@);
    let theirs = news(old(there)@, final(there)@);
    crate::wire::message_round_trip(MessageView::Deny);
    assert(theirs.len() > 0 ==> failure(theirs[0]) is None || !unhindered(theirs));
}

/// A request that is sent arrives: a recipient that does not know the requestor yet, and whose
/// sealer recovers what was sealed, has the requestor on record as awaiting consent, with the
/// coordinates as they were offered.
pub proof fn sent_request_awaits_consent<
    T: Transport,
    S: EnvelopeSealer,
    Sub: StoreSubscriber,
    P: Persistence,
    T2: Transport,
    S2: EnvelopeSealer,
    Sub2: StoreSubscriber,
    P2: Persistence,
>(
    here: &mut SocialGraphManager<T, S, Sub, P>,
    peer: Did,
    presented: Did,
    coords: StoreCoords,
    sent: Result<()>,
    i: int,
    there: &mut SocialGraphManager<T2, S2, Sub2, P2>,
    their_secret: &SecretKey,
    envelope: &SealedEnvelope,
    handled: Result<()>,
)
    requires
        call_ensures(
            SocialGraphManager::<T, S, Sub, P>::request,
            (here, peer, presented, coords),
            sent,
        ),
        0 <= i < news(old(here)@, final(here)@).len(),
        news(old(here)@, final(here)@)[i] matches SeamCall::Send { envelope: e, .. } && e
            == envelope@,
        call_ensures(
            SocialGraphManager::<T2, S2, Sub2, P2>::handle_incoming,
            (there, their_secret, envelope),
            handled,
        ),
        !old(there)@.graph.contains_key(presented@.text),
        coords@.valid(),
        presented@.launcher_id == coords@.did.launcher_id,
        news(old(here)@, final(here)@)[0]->Seal_reply->Ok_0.len() < 0x1_0000_0000,
        news(old(there)@, final(there)@)[0] == (SeamCall::Open {
            our_secret: their_secret@,
            ciphertext: news(old(here)@, final(here)@)[0]->Seal_reply->Ok_0,
            reply: Ok(
                OpenedView { sender: coords@.did.launcher_id, plaintext: coords@.bytes() },
            ),
        }),
    ensures
        final(there)@.graph == old(there)@.graph.insert(
            presented@.text,
            ConnectionView {
                peer: presented@,
                state: ConnectionState::AwaitingRecipientSelect,
                presented_local_did: None,
                our_offer: None,
                their_store: Some(coords@),
            },
        ),
        unhindered(news(old(there)@, final(there)@)) ==> handled is Ok,
{
    let calls = news(old(here)@, final(here)@);
    let theirs = news(old(there)@, final(there)@);
    crate::wire::message_round_trip(MessageView::Request(calls[0]->Seal_reply->Ok_0));
    crate::wire::coords_round_trip(coords@);
    assert(theirs.len() > 1 ==> failure(theirs[1]) is None || !unhindered(theirs));
}

/// An acceptance that is sent connects the other end: a requestor whose request was delivered, and
/// whose sealer recovers what was sealed, subscribes to the coordinates as they were offered, and
/// is connected with them on record if that succeeds.
pub proof fn sent_acceptance_connects<
    T: Transport,
    S: EnvelopeSealer,
    Sub: StoreSubscriber,
    P: Persistence,
    T2: Transport,
    S2: EnvelopeSealer,
    Sub2: StoreSubscriber,
    P2: Persistence,
>(
    here: &mut SocialGraphManager<T, S, Sub, P>,
    peer: &Did,
    presented: Did,
    coords: StoreCoords,
    sent: Result<()>,
    i: int,
    there: &mut SocialGraphManager<T2, S2, Sub2, P2>,
    their_secret: &SecretKey,
    envelope: &SealedEnvelope,
    handled: Result<()>,
)
    requires
        call_ensures(
            SocialGraphManager::<T, S, Sub, P>::approve,
            (here, peer, presented, coords),
            sent,
        ),
        0 <= i < news(old(here)@, final(here)@).len(),
        news(old(here)@, final(here)@)[i] matches SeamCall::Send { envelope: e, .. } && e
            == envelope@,
        call_ensures(
            SocialGraphManager::<T2, S2, Sub2, P2>::handle_incoming,
            (there, their_secret, envelope),
            handled,
        ),
        old(there)@.graph.contains_key(presented@.text),
        old(there)@.graph[presented@.text].state == ConnectionState::RequestorOffered,
        coords@.valid(),
        presented@.launcher_id == coords@.did.launcher_id,
        news(old(here)@, final(here)@)[0]->Seal_reply->Ok_0.len() < 0x1_0000_0000,
        news(old(there)@, final(there)@)[0] == (SeamCall::Open {
            our_secret: their_secret@,
            ciphertext: news(old(here)@, final(here)@)[0]->Seal_reply->Ok_0,
            reply: Ok(
                OpenedView { sender: coords@.did.launcher_id, plaintext: coords@.bytes() },
            ),
        }),
    ensures
        ({
            let theirs = news(old(there)@, final(there)@);
            &&& theirs.len() > 1
            &&& theirs[1] matches SeamCall::Subscribe { coords: store, reply }
            &&& store == coords@
            &&& reply is Ok ==> final(there)@.graph == old(there)@.graph.insert(
                presented@.text,
                ConnectionView {
                    state: ConnectionState::Connected,
                    their_store: Some(coords@),
                    ..old(there)@.graph[presented@.text]
                },
            )
        }),
        unhindered(news(old(there)@, final(there)@)) ==> handled is Ok,
{
    let calls = news(old(here)@, final(here)@);
    let theirs = news(old(there)@, final(there)@);
    crate::wire::message_round_trip(MessageView::Accept(calls[0]->Seal_reply->Ok_0));
    crate::wire::coords_round_trip(coords@);
    assert(theirs.len() > 1 ==> failure(theirs[1]) is None || !unhindered(theirs));
    assert(theirs.len() > 2 ==> failure(theirs[2]) is None || !unhindered(theirs));
}

} // verus!
