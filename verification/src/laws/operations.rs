//! What the [manager](crate::manager)'s operations do, stated of the calls of them: for any seams,
//! over the graph before and after and over what the seams were asked and answered meanwhile.

use vstd::prelude::*;

use crate::error::{ErrorView, Result};
use crate::graph::{ConnectionView, SocialGraph};
use crate::identity::{Did, DidView, SecretKey};
use crate::manager::{check_offer, SocialGraphManager};
use crate::record::ManagerView;
use crate::seams::{
    made_on, EnvelopeSealer, OpenedEnvelope, Persistence, Seam, SeamCall, StoreSubscriber,
    Transport,
};
use crate::state::{ConnectionEvent, ConnectionState, Suspended};
use crate::wire::{CoordsView, MessageView, SealedEnvelope, StoreCoords};

verus! {

/// The calls at the seams between two moments of a manager.
pub open spec fn news(before: ManagerView, after: ManagerView) -> Seq<SeamCall> {
    after.calls.skip(before.calls.len() as int)
}

/// The failure that a seam answered a call with, if it did.
pub open spec fn failure(call: SeamCall) -> Option<ErrorView> {
    match call {
        SeamCall::Send { reply: Err(error), .. } => Some(error),
        SeamCall::IsPeerOnline { reply: Err(error), .. } => Some(error),
        SeamCall::Seal { reply: Err(error), .. } => Some(error),
        SeamCall::Open { reply: Err(error), .. } => Some(error),
        SeamCall::Subscribe { reply: Err(error), .. } => Some(error),
        SeamCall::Unsubscribe { reply: Err(error), .. } => Some(error),
        SeamCall::Load { reply: Err(error) } => Some(error),
        SeamCall::Store { reply: Err(error), .. } => Some(error),
        _ => None,
    }
}

/// No seam failed.
pub open spec fn unhindered(calls: Seq<SeamCall>) -> bool {
    forall|i: int| 0 <= i < calls.len() ==> failure(#[trigger] calls[i]) is None
}

/// A seam's failure as the operation reports it: the persistence's own error, and from any other
/// seam a seam failure, which carries the text of an error that is none yet.
pub open spec fn reported(call: SeamCall, error: ErrorView) -> ErrorView {
    match (call, error) {
        (SeamCall::Store { .. }, _) => error,
        (_, ErrorView::Seam(text)) => error,
        (_, ErrorView::Invariant(text)) => ErrorView::Seam("invariant violated: "@ + text),
        (_, ErrorView::Wire(text)) => ErrorView::Seam("malformed wire bytes: "@ + text),
        (_, ErrorView::IllegalTransition { state, event }) => ErrorView::Seam(
            "illegal transition: "@ + event.name() + " is not valid in state "@ + state.name(),
        ),
    }
}

/// The operation ended with the failure of its last call, and none failed before.
pub open spec fn ended_by_seam(calls: Seq<SeamCall>, res: Result<()>) -> bool {
    &&& calls.len() > 0
    &&& unhindered(calls.drop_last())
    &&& failure(calls.last()) matches Some(error)
    &&& res matches Err(e)
    &&& e@ == reported(calls.last(), error)
}

/// The operation was refused with this error: nothing changed, and no seam was asked.
pub open spec fn refused(
    before: ManagerView,
    after: ManagerView,
    res: Result<()>,
    error: ErrorView,
) -> bool {
    &&& after == before
    &&& res matches Err(e)
    &&& e@ == error
}

/// Each seam has heard what the manager says that it asked of it, in that order, and nothing else.
pub open spec fn true_record(before: ManagerView, after: ManagerView) -> bool {
    let calls = news(before, after);
    &&& after.transport == before.transport + calls.filter(
        |call: SeamCall| call is Send || call is IsPeerOnline,
    )
    &&& after.sealer == before.sealer + calls.filter(|call: SeamCall| call is Seal || call is Open)
    &&& after.subscriber == before.subscriber + calls.filter(
        |call: SeamCall| call is Subscribe || call is Unsubscribe,
    )
    &&& after.persistence == before.persistence + calls.filter(
        |call: SeamCall| call is Load || call is Store,
    )
}

/// The calls on a seam are those that the seam has a method for.
proof fn made_on_is_a_filter(calls: Seq<SeamCall>)
    ensures
        made_on(calls, Seam::Transport) == calls.filter(
            |call: SeamCall| call is Send || call is IsPeerOnline,
        ),
        made_on(calls, Seam::Sealer) == calls.filter(
            |call: SeamCall| call is Seal || call is Open,
        ),
        made_on(calls, Seam::Subscriber) == calls.filter(
            |call: SeamCall| call is Subscribe || call is Unsubscribe,
        ),
        made_on(calls, Seam::Persistence) == calls.filter(
            |call: SeamCall| call is Load || call is Store,
        ),
    decreases calls.len(),
{
    reveal(Seq::filter);
    if calls.len() > 0 {
        made_on_is_a_filter(calls.drop_last());
    }
}

/// A manager that follows on itself has a true record.
pub proof fn following_is_a_true_record(before: ManagerView, after: ManagerView)
    requires
        after.follows(before),
    ensures
        true_record(before, after),
{
    made_on_is_a_filter(news(before, after));
    assert(after.history(Seam::Transport) == before.history(Seam::Transport) + made_on(
        after.calls_since(before),
        Seam::Transport,
    ));
    assert(after.history(Seam::Sealer) == before.history(Seam::Sealer) + made_on(
        after.calls_since(before),
        Seam::Sealer,
    ));
    assert(after.history(Seam::Subscriber) == before.history(Seam::Subscriber) + made_on(
        after.calls_since(before),
        Seam::Subscriber,
    ));
    assert(after.history(Seam::Persistence) == before.history(Seam::Persistence) + made_on(
        after.calls_since(before),
        Seam::Persistence,
    ));
}

/// A connection that was requested of a peer, with what the local side presented and offered.
pub open spec fn outbound(
    peer: DidView,
    presented: DidView,
    offer: CoordsView,
    state: ConnectionState,
) -> ConnectionView {
    ConnectionView {
        peer,
        state,
        presented_local_did: Some(presented),
        our_offer: Some(offer),
        their_store: None,
    }
}

/// The call delivers a message from one to another: a denial or a revocation by its one byte, a
/// request or an acceptance as what is decoded again.
pub open spec fn delivers(
    call: SeamCall,
    sender: DidView,
    recipient: DidView,
    message: MessageView,
) -> bool {
    &&& call matches SeamCall::Send { envelope, .. }
    &&& envelope.sender == sender
    &&& envelope.recipient == recipient
    &&& match message {
        MessageView::Deny => envelope.payload == seq![2u8],
        MessageView::Revoke => envelope.payload == seq![3u8],
        MessageView::Request(offer) => {
            &&& envelope.payload.len() == 5 + offer.len()
            &&& envelope.payload[0] == 0
            &&& envelope.payload.skip(5) == offer
        },
        MessageView::Accept(offer) => {
            &&& envelope.payload.len() == 5 + offer.len()
            &&& envelope.payload[0] == 1
            &&& envelope.payload.skip(5) == offer
        },
    }
    &&& match message {
        MessageView::Request(offer) | MessageView::Accept(offer) => offer.len() < 0x1_0000_0000,
        _ => true,
    } ==> crate::wire::decoded_message(envelope.payload) == Ok::<MessageView, ErrorView>(message)
}

/// The wire form of a message is what delivers it.
proof fn bytes_deliver(message: MessageView)
    ensures
        match message {
            MessageView::Deny => message.bytes() == seq![2u8],
            MessageView::Revoke => message.bytes() == seq![3u8],
            MessageView::Request(offer) => {
                &&& message.bytes().len() == 5 + offer.len()
                &&& message.bytes()[0] == 0
                &&& message.bytes().skip(5) == offer
            },
            MessageView::Accept(offer) => {
                &&& message.bytes().len() == 5 + offer.len()
                &&& message.bytes()[0] == 1
                &&& message.bytes().skip(5) == offer
            },
        },
        message.encodable() ==> crate::wire::decoded_message(message.bytes()) == Ok::<
            MessageView,
            ErrorView,
        >(message),
{
    if message.encodable() {
        crate::wire::message_round_trip(message);
    }
}

/// A request succeeds when nothing stands in its way: the coordinates are of the DID's own store,
/// the peer is not known yet, and no seam fails. Whoever else is known, the peer is then on record
/// as asked, or as parked if it is offline; the local coordinates were sealed to it, and the
/// request with just that offer was delivered to it if it is online; and the graph was persisted
/// so.
pub proof fn request_succeeds<
    T: Transport,
    S: EnvelopeSealer,
    Sub: StoreSubscriber,
    P: Persistence,
>(
    manager: &mut SocialGraphManager<T, S, Sub, P>,
    peer: Did,
    presented: Did,
    coords: StoreCoords,
    res: Result<()>,
)
    requires
        call_ensures(
            SocialGraphManager::<T, S, Sub, P>::request,
            (manager, peer, presented, coords),
            res,
        ),
        coords@.launcher_id == coords@.did.launcher_id,
        !old(manager)@.graph.contains_key(peer@.text),
        unhindered(news(old(manager)@, final(manager)@)),
    ensures
        res is Ok,
        ({
            let (before, after) = (old(manager)@, final(manager)@);
            let calls = news(before, after);
            &&& calls.len() >= 3
            &&& calls[0] matches SeamCall::Seal { recipient, plaintext, reply: Ok(offer) }
            &&& recipient == peer@
            &&& plaintext == coords@.bytes()
            &&& calls[1] matches SeamCall::IsPeerOnline { peer: asked, reply: Ok(online) }
            &&& asked == peer@
            &&& calls.last() == (SeamCall::Store {
                graph: after.graph,
                reply: crate::error::outcome(res),
            })
            &&& if online {
                &&& calls.len() == 4
                &&& delivers(calls[2], presented@, peer@, MessageView::Request(offer))
                &&& after.graph == before.graph.insert(
                    peer@.text,
                    outbound(peer@, presented@, coords@, ConnectionState::RequestorOffered),
                )
            } else {
                &&& calls.len() == 3
                &&& after.graph == before.graph.insert(
                    peer@.text,
                    outbound(
                        peer@,
                        presented@,
                        coords@,
                        ConnectionState::PendingRendezvous(Suspended::Requested),
                    ),
                )
            }
        }),
        true_record(old(manager)@, final(manager)@),
{
    let (before, after) = (old(manager)@, final(manager)@);
    let calls = news(before, after);
    following_is_a_true_record(before, after);
    assert(failure(calls[0]) is None);
    bytes_deliver(MessageView::Request(calls[0]->Seal_reply->Ok_0));
    assert(failure(calls[1]) is None);
    if calls.len() > 2 {
        assert(failure(calls[2]) is None);
    }
    if calls.len() > 3 {
        assert(failure(calls[3]) is None);
    }
}

/// A request for coordinates of a store that is not the DID's own is refused before anything is
/// done.
pub proof fn unpaired_request_is_refused<
    T: Transport,
    S: EnvelopeSealer,
    Sub: StoreSubscriber,
    P: Persistence,
>(
    manager: &mut SocialGraphManager<T, S, Sub, P>,
    peer: Did,
    presented: Did,
    coords: StoreCoords,
    res: Result<()>,
)
    requires
        call_ensures(
            SocialGraphManager::<T, S, Sub, P>::request,
            (manager, peer, presented, coords),
            res,
        ),
        coords@.launcher_id != coords@.did.launcher_id,
    ensures
        refused(
            old(manager)@,
            final(manager)@,
            res,
            ErrorView::Invariant("store launcher_id does not match the DID's launcher id"@),
        ),
        true_record(old(manager)@, final(manager)@),
{
    let (before, after) = (old(manager)@, final(manager)@);
    let calls = news(before, after);
    following_is_a_true_record(before, after);
    assert(after =~= before);
}

/// A request to a peer that is already known is refused and changes nothing; only the sealer was
/// asked.
pub proof fn request_to_a_known_peer_is_refused<
    T: Transport,
    S: EnvelopeSealer,
    Sub: StoreSubscriber,
    P: Persistence,
>(
    manager: &mut SocialGraphManager<T, S, Sub, P>,
    peer: Did,
    presented: Did,
    coords: StoreCoords,
    res: Result<()>,
)
    requires
        call_ensures(
            SocialGraphManager::<T, S, Sub, P>::request,
            (manager, peer, presented, coords),
            res,
        ),
        coords@.launcher_id == coords@.did.launcher_id,
        old(manager)@.graph.contains_key(peer@.text),
    ensures
        final(manager)@.graph == old(manager)@.graph,
        ({
            let (before, after) = (old(manager)@, final(manager)@);
            let calls = news(before, after);
            &&& calls.len() == 1
            &&& calls[0] matches SeamCall::Seal { recipient, plaintext, reply }
            &&& recipient == peer@
            &&& plaintext == coords@.bytes()
            &&& res matches Err(e)
            &&& match reply {
                Ok(_) => e@ == ErrorView::Invariant("a connection to this peer already exists"@),
                Err(error) => e@ == reported(calls[0], error),
            }
        }),
        true_record(old(manager)@, final(manager)@),
{
    let (before, after) = (old(manager)@, final(manager)@);
    let calls = news(before, after);
    following_is_a_true_record(before, after);
}

/// A request that a seam fails in ends there, with that failure. If the sealer failed nothing is
/// on record; if the presence query or the delivery failed the peer is on record as not reached
/// yet; and if only the persistence failed, the graph in memory is as after a success.
pub proof fn request_ends_where_a_seam_fails<
    T: Transport,
    S: EnvelopeSealer,
    Sub: StoreSubscriber,
    P: Persistence,
>(
    manager: &mut SocialGraphManager<T, S, Sub, P>,
    peer: Did,
    presented: Did,
    coords: StoreCoords,
    res: Result<()>,
)
    requires
        call_ensures(
            SocialGraphManager::<T, S, Sub, P>::request,
            (manager, peer, presented, coords),
            res,
        ),
        coords@.launcher_id == coords@.did.launcher_id,
        !old(manager)@.graph.contains_key(peer@.text),
        !unhindered(news(old(manager)@, final(manager)@)),
    ensures
        ended_by_seam(news(old(manager)@, final(manager)@), res),
        ({
            let (before, after) = (old(manager)@, final(manager)@);
            let calls = news(before, after);
            &&& calls[0] matches SeamCall::Seal { recipient, plaintext, .. }
            &&& recipient == peer@
            &&& plaintext == coords@.bytes()
            &&& match calls.last() {
                SeamCall::Seal { .. } => calls.len() == 1 && after.graph == before.graph,
                SeamCall::IsPeerOnline { peer: asked, .. } => {
                    &&& calls.len() == 2
                    &&& asked == peer@
                    &&& after.graph == before.graph.insert(
                        peer@.text,
                        outbound(peer@, presented@, coords@, ConnectionState::Requested),
                    )
                },
                SeamCall::Send { .. } => {
                    &&& calls.len() == 3
                    &&& calls[1] == (SeamCall::IsPeerOnline { peer: peer@, reply: Ok(true) })
                    &&& delivers(
                        calls[2],
                        presented@,
                        peer@,
                        MessageView::Request(calls[0]->Seal_reply->Ok_0),
                    )
                    &&& after.graph == before.graph.insert(
                        peer@.text,
                        outbound(peer@, presented@, coords@, ConnectionState::Requested),
                    )
                },
                SeamCall::Store { graph, .. } => {
                    &&& graph == after.graph
                    &&& calls[1] matches SeamCall::IsPeerOnline { peer: asked, reply: Ok(online) }
                    &&& asked == peer@
                    &&& online ==> calls.len() == 4 && delivers(
                        calls[2],
                        presented@,
                        peer@,
                        MessageView::Request(calls[0]->Seal_reply->Ok_0),
                    )
                    &&& !online ==> calls.len() == 3
                    &&& after.graph == before.graph.insert(
                        peer@.text,
                        outbound(
                            peer@,
                            presented@,
                            coords@,
                            if online {
                                ConnectionState::RequestorOffered
                            } else {
                                ConnectionState::PendingRendezvous(Suspended::Requested)
                            },
                        ),
                    )
                },
                _ => false,
            }
        }),
        true_record(old(manager)@, final(manager)@),
{
    let (before, after) = (old(manager)@, final(manager)@);
    let calls = news(before, after);
    following_is_a_true_record(before, after);
    bytes_deliver(MessageView::Request(calls[0]->Seal_reply->Ok_0));
}

/// An approval succeeds when nothing stands in its way: the coordinates are of the DID's own
/// store, the peer's request awaits consent with its store on record, and no seam fails. The
/// peer's connection then has the DID that was presented and the coordinates that were offered,
/// the very ones that were sealed, and is otherwise as it was; the peer's store was subscribed to,
/// the acceptance with just that offer was delivered, and the graph was persisted so.
pub proof fn approval_succeeds<
    T: Transport,
    S: EnvelopeSealer,
    Sub: StoreSubscriber,
    P: Persistence,
>(
    manager: &mut SocialGraphManager<T, S, Sub, P>,
    peer: &Did,
    presented: Did,
    coords: StoreCoords,
    res: Result<()>,
)
    requires
        call_ensures(
            SocialGraphManager::<T, S, Sub, P>::approve,
            (manager, peer, presented, coords),
            res,
        ),
        coords@.launcher_id == coords@.did.launcher_id,
        old(manager)@.graph.contains_key(peer@.text),
        old(manager)@.graph[peer@.text].state == ConnectionState::AwaitingRecipientSelect,
        old(manager)@.graph[peer@.text].their_store is Some,
        unhindered(news(old(manager)@, final(manager)@)),
    ensures
        res is Ok,
        ({
            let (before, after) = (old(manager)@, final(manager)@);
            let calls = news(before, after);
            &&& calls.len() == 4
            &&& calls[0] matches SeamCall::Seal { recipient, plaintext, reply: Ok(offer) }
            &&& recipient == peer@
            &&& plaintext == coords@.bytes()
            &&& calls[1] matches SeamCall::Subscribe { coords: store, reply: Ok(_) }
            &&& Some(store) == before.graph[peer@.text].their_store
            &&& delivers(calls[2], presented@, peer@, MessageView::Accept(offer))
            &&& calls[3] == (SeamCall::Store {
                graph: after.graph,
                reply: crate::error::outcome(res),
            })
            &&& after.graph == before.graph.insert(
                peer@.text,
                ConnectionView {
                    state: ConnectionState::RecipientOffered,
                    presented_local_did: Some(presented@),
                    our_offer: Some(coords@),
                    ..before.graph[peer@.text]
                },
            )
        }),
        true_record(old(manager)@, final(manager)@),
{
    let (before, after) = (old(manager)@, final(manager)@);
    let calls = news(before, after);
    following_is_a_true_record(before, after);
    assert(calls.len() > 0 ==> failure(calls[0]) is None);
    assert(calls.len() > 1 ==> failure(calls[1]) is None);
    assert(calls.len() > 2 ==> failure(calls[2]) is None);
    assert(calls.len() > 3 ==> failure(calls[3]) is None);
    bytes_deliver(MessageView::Accept(calls[0]->Seal_reply->Ok_0));
}

/// An approval for coordinates of a store that is not the DID's own, or for a peer of whom no
/// store is on record, is refused before anything is done.
pub proof fn approval_without_an_offer_is_refused<
    T: Transport,
    S: EnvelopeSealer,
    Sub: StoreSubscriber,
    P: Persistence,
>(
    manager: &mut SocialGraphManager<T, S, Sub, P>,
    peer: &Did,
    presented: Did,
    coords: StoreCoords,
    res: Result<()>,
)
    requires
        call_ensures(
            SocialGraphManager::<T, S, Sub, P>::approve,
            (manager, peer, presented, coords),
            res,
        ),
        coords@.launcher_id != coords@.did.launcher_id
            || !old(manager)@.graph.contains_key(peer@.text)
            || old(manager)@.graph[peer@.text].their_store is None,
    ensures
        refused(
            old(manager)@,
            final(manager)@,
            res,
            if coords@.launcher_id != coords@.did.launcher_id {
                ErrorView::Invariant("store launcher_id does not match the DID's launcher id"@)
            } else {
                ErrorView::Invariant("no inbound offer recorded for this peer"@)
            },
        ),
        true_record(old(manager)@, final(manager)@),
{
    let (before, after) = (old(manager)@, final(manager)@);
    let calls = news(before, after);
    following_is_a_true_record(before, after);
    assert(after =~= before);
}

/// An approval of a connection that does not await consent is refused and changes nothing; only
/// the sealer was asked.
pub proof fn approval_without_a_request_is_refused<
    T: Transport,
    S: EnvelopeSealer,
    Sub: StoreSubscriber,
    P: Persistence,
>(
    manager: &mut SocialGraphManager<T, S, Sub, P>,
    peer: &Did,
    presented: Did,
    coords: StoreCoords,
    res: Result<()>,
)
    requires
        call_ensures(
            SocialGraphManager::<T, S, Sub, P>::approve,
            (manager, peer, presented, coords),
            res,
        ),
        coords@.launcher_id == coords@.did.launcher_id,
        old(manager)@.graph.contains_key(peer@.text),
        old(manager)@.graph[peer@.text].their_store is Some,
        old(manager)@.graph[peer@.text].state != ConnectionState::AwaitingRecipientSelect,
    ensures
        final(manager)@.graph == old(manager)@.graph,
        ({
            let (before, after) = (old(manager)@, final(manager)@);
            let calls = news(before, after);
            &&& calls.len() == 1
            &&& calls[0] matches SeamCall::Seal { recipient, plaintext, reply }
            &&& recipient == peer@
            &&& plaintext == coords@.bytes()
            &&& res matches Err(e)
            &&& match reply {
                Ok(_) => e@ == (ErrorView::IllegalTransition {
                    state: before.graph[peer@.text].state,
                    event: ConnectionEvent::Approved,
                }),
                Err(error) => e@ == reported(calls[0], error),
            }
        }),
        true_record(old(manager)@, final(manager)@),
{
    let (before, after) = (old(manager)@, final(manager)@);
    let calls = news(before, after);
    following_is_a_true_record(before, after);
}

/// An approval that a seam fails in ends there, with that failure. If the sealer failed nothing
/// changed; otherwise the consent is on record, with what was presented and offered.
pub proof fn approval_ends_where_a_seam_fails<
    T: Transport,
    S: EnvelopeSealer,
    Sub: StoreSubscriber,
    P: Persistence,
>(
    manager: &mut SocialGraphManager<T, S, Sub, P>,
    peer: &Did,
    presented: Did,
    coords: StoreCoords,
    res: Result<()>,
)
    requires
        call_ensures(
            SocialGraphManager::<T, S, Sub, P>::approve,
            (manager, peer, presented, coords),
            res,
        ),
        coords@.launcher_id == coords@.did.launcher_id,
        old(manager)@.graph.contains_key(peer@.text),
        old(manager)@.graph[peer@.text].state == ConnectionState::AwaitingRecipientSelect,
        old(manager)@.graph[peer@.text].their_store is Some,
        !unhindered(news(old(manager)@, final(manager)@)),
    ensures
        ended_by_seam(news(old(manager)@, final(manager)@), res),
        ({
            let (before, after) = (old(manager)@, final(manager)@);
            let calls = news(before, after);
            let consented = before.graph.insert(
                peer@.text,
                ConnectionView {
                    state: ConnectionState::RecipientOffered,
                    presented_local_did: Some(presented@),
                    our_offer: Some(coords@),
                    ..before.graph[peer@.text]
                },
            );
            &&& calls.len() <= 4
            &&& calls[0] matches SeamCall::Seal { recipient, plaintext, reply }
            &&& recipient == peer@
            &&& plaintext == coords@.bytes()
            &&& after.graph == if calls.len() == 1 {
                before.graph
            } else {
                consented
            }
            &&& calls.len() > 1 ==> {
                &&& calls[1] matches SeamCall::Subscribe { coords: store, .. }
                &&& Some(store) == before.graph[peer@.text].their_store
            }
            &&& calls.len() > 2 ==> delivers(
                calls[2],
                presented@,
                peer@,
                MessageView::Accept(reply->Ok_0),
            )
            &&& calls.len() > 3 ==> {
                &&& calls[3] matches SeamCall::Store { graph, .. }
                &&& graph == after.graph
            }
        }),
        true_record(old(manager)@, final(manager)@),
{
    let (before, after) = (old(manager)@, final(manager)@);
    let calls = news(before, after);
    following_is_a_true_record(before, after);
    bytes_deliver(MessageView::Accept(calls[0]->Seal_reply->Ok_0));
}

/// A denial succeeds when nothing stands in its way: the peer's request awaits consent, or its
/// answer is awaited, and no seam fails. The peer's connection is then declined and otherwise as
/// it was, the one notice that was delivered is a denial, and the graph was persisted so.
pub proof fn denial_succeeds<
    T: Transport,
    S: EnvelopeSealer,
    Sub: StoreSubscriber,
    P: Persistence,
>(
    manager: &mut SocialGraphManager<T, S, Sub, P>,
    peer: &Did,
    presented: &Did,
    res: Result<()>,
)
    requires
        call_ensures(
            SocialGraphManager::<T, S, Sub, P>::deny,
            (manager, peer, presented),
            res,
        ),
        old(manager)@.graph.contains_key(peer@.text),
        ({
            ||| old(manager)@.graph[peer@.text].state == ConnectionState::AwaitingRecipientSelect
            ||| old(manager)@.graph[peer@.text].state == ConnectionState::RequestorOffered
        }),
        unhindered(news(old(manager)@, final(manager)@)),
    ensures
        res is Ok,
        ({
            let (before, after) = (old(manager)@, final(manager)@);
            let calls = news(before, after);
            &&& calls.len() == 2
            &&& delivers(calls[0], presented@, peer@, MessageView::Deny)
            &&& calls[1] == (SeamCall::Store {
                graph: after.graph,
                reply: crate::error::outcome(res),
            })
            &&& after.graph == before.graph.insert(
                peer@.text,
                ConnectionView { state: ConnectionState::Denied, ..before.graph[peer@.text] },
            )
        }),
        true_record(old(manager)@, final(manager)@),
{
    let (before, after) = (old(manager)@, final(manager)@);
    let calls = news(before, after);
    following_is_a_true_record(before, after);
    assert(calls.len() > 0 ==> failure(calls[0]) is None);
    assert(calls.len() > 1 ==> failure(calls[1]) is None);
    assert(calls.len() > 2 ==> failure(calls[2]) is None);
    assert(calls.len() > 3 ==> failure(calls[3]) is None);
    bytes_deliver(MessageView::Deny);
}

/// A denial that does not fit the connection, or for a peer that is not known, is announced and
/// then refused: nothing changes, and nothing is persisted. So it is if the notice cannot be
/// delivered.
pub proof fn denial_out_of_place_is_refused<
    T: Transport,
    S: EnvelopeSealer,
    Sub: StoreSubscriber,
    P: Persistence,
>(
    manager: &mut SocialGraphManager<T, S, Sub, P>,
    peer: &Did,
    presented: &Did,
    res: Result<()>,
)
    requires
        call_ensures(
            SocialGraphManager::<T, S, Sub, P>::deny,
            (manager, peer, presented),
            res,
        ),
        ({
            ||| !old(manager)@.graph.contains_key(peer@.text)
            ||| old(manager)@.graph[peer@.text].state != ConnectionState::AwaitingRecipientSelect
                && old(manager)@.graph[peer@.text].state != ConnectionState::RequestorOffered
            ||| failure(news(old(manager)@, final(manager)@)[0]) is Some
        }),
    ensures
        final(manager)@.graph == old(manager)@.graph,
        ({
            let (before, after) = (old(manager)@, final(manager)@);
            let calls = news(before, after);
            &&& calls.len() == 1
            &&& delivers(calls[0], presented@, peer@, MessageView::Deny)
            &&& res matches Err(e)
            &&& e@ == match failure(calls[0]) {
                Some(error) => reported(calls[0], error),
                None => if before.graph.contains_key(peer@.text) {
                    ErrorView::IllegalTransition {
                        state: before.graph[peer@.text].state,
                        event: ConnectionEvent::Denied,
                    }
                } else {
                    ErrorView::Invariant("no connection tracked for this peer"@)
                },
            }
        }),
        true_record(old(manager)@, final(manager)@),
{
    let (before, after) = (old(manager)@, final(manager)@);
    let calls = news(before, after);
    following_is_a_true_record(before, after);
    bytes_deliver(MessageView::Deny);
}

/// A denial that was delivered and fits the connection is on record even if the graph cannot be
/// persisted.
pub proof fn delivered_denial_is_recorded<
    T: Transport,
    S: EnvelopeSealer,
    Sub: StoreSubscriber,
    P: Persistence,
>(
    manager: &mut SocialGraphManager<T, S, Sub, P>,
    peer: &Did,
    presented: &Did,
    res: Result<()>,
)
    requires
        call_ensures(
            SocialGraphManager::<T, S, Sub, P>::deny,
            (manager, peer, presented),
            res,
        ),
        old(manager)@.graph.contains_key(peer@.text),
        ({
            ||| old(manager)@.graph[peer@.text].state == ConnectionState::AwaitingRecipientSelect
            ||| old(manager)@.graph[peer@.text].state == ConnectionState::RequestorOffered
        }),
        failure(news(old(manager)@, final(manager)@)[0]) is None,
    ensures
        ({
            let (before, after) = (old(manager)@, final(manager)@);
            let calls = news(before, after);
            &&& calls.len() == 2
            &&& delivers(calls[0], presented@, peer@, MessageView::Deny)
            &&& calls[1] == (SeamCall::Store {
                graph: after.graph,
                reply: crate::error::outcome(res),
            })
            &&& after.graph == before.graph.insert(
                peer@.text,
                ConnectionView { state: ConnectionState::Denied, ..before.graph[peer@.text] },
            )
        }),
        true_record(old(manager)@, final(manager)@),
{
    let (before, after) = (old(manager)@, final(manager)@);
    let calls = news(before, after);
    following_is_a_true_record(before, after);
    bytes_deliver(MessageView::Deny);
}

/// A revocation of a live connection succeeds if no seam fails. The connection is then revoked,
/// with the peer's store forgotten, and otherwise as it was; the store, if there was one, was
/// unsubscribed first; the one notice that was delivered is a revocation; and the graph was
/// persisted so.
pub proof fn revocation_succeeds<
    T: Transport,
    S: EnvelopeSealer,
    Sub: StoreSubscriber,
    P: Persistence,
>(
    manager: &mut SocialGraphManager<T, S, Sub, P>,
    peer: &Did,
    presented: &Did,
    res: Result<()>,
)
    requires
        call_ensures(
            SocialGraphManager::<T, S, Sub, P>::revoke,
            (manager, peer, presented),
            res,
        ),
        old(manager)@.graph.contains_key(peer@.text),
        old(manager)@.graph[peer@.text].state == ConnectionState::Connected,
        unhindered(news(old(manager)@, final(manager)@)),
    ensures
        res is Ok,
        ({
            let (before, after) = (old(manager)@, final(manager)@);
            let calls = news(before, after);
            let n: int = match before.graph[peer@.text].their_store {
                Some(_) => 1,
                None => 0,
            };
            &&& calls.len() == n + 2
            &&& before.graph[peer@.text].their_store matches Some(store) ==> {
                &&& calls[0] matches SeamCall::Unsubscribe { coords, reply: Ok(_) }
                &&& coords == store
            }
            &&& delivers(calls[n], presented@, peer@, MessageView::Revoke)
            &&& calls[n + 1] == (SeamCall::Store {
                graph: after.graph,
                reply: crate::error::outcome(res),
            })
            &&& after.graph == before.graph.insert(
                peer@.text,
                ConnectionView {
                    state: ConnectionState::Revoked,
                    their_store: None,
                    ..before.graph[peer@.text]
                },
            )
        }),
        true_record(old(manager)@, final(manager)@),
{
    let (before, after) = (old(manager)@, final(manager)@);
    let calls = news(before, after);
    following_is_a_true_record(before, after);
    assert(calls.len() > 0 ==> failure(calls[0]) is None);
    assert(calls.len() > 1 ==> failure(calls[1]) is None);
    assert(calls.len() > 2 ==> failure(calls[2]) is None);
    assert(calls.len() > 3 ==> failure(calls[3]) is None);
    bytes_deliver(MessageView::Revoke);
}

/// A revocation of a connection that is not live, or of a peer that is not known, is refused before
/// anything is done.
pub proof fn revocation_out_of_place_is_refused<
    T: Transport,
    S: EnvelopeSealer,
    Sub: StoreSubscriber,
    P: Persistence,
>(
    manager: &mut SocialGraphManager<T, S, Sub, P>,
    peer: &Did,
    presented: &Did,
    res: Result<()>,
)
    requires
        call_ensures(
            SocialGraphManager::<T, S, Sub, P>::revoke,
            (manager, peer, presented),
            res,
        ),
        !old(manager)@.graph.contains_key(peer@.text) || old(manager)@.graph[peer@.text].state
            != ConnectionState::Connected,
    ensures
        refused(
            old(manager)@,
            final(manager)@,
            res,
            if old(manager)@.graph.contains_key(peer@.text) {
                ErrorView::IllegalTransition {
                    state: old(manager)@.graph[peer@.text].state,
                    event: ConnectionEvent::Revoked,
                }
            } else {
                ErrorView::Invariant("no connection tracked for this peer"@)
            },
        ),
        true_record(old(manager)@, final(manager)@),
{
    let (before, after) = (old(manager)@, final(manager)@);
    let calls = news(before, after);
    following_is_a_true_record(before, after);
    assert(after =~= before);
}

/// A revocation that a seam fails in ends there, with that failure. The connection is revoked in
/// any case, and the peer's store is forgotten unless it could not be unsubscribed.
pub proof fn revocation_ends_where_a_seam_fails<
    T: Transport,
    S: EnvelopeSealer,
    Sub: StoreSubscriber,
    P: Persistence,
>(
    manager: &mut SocialGraphManager<T, S, Sub, P>,
    peer: &Did,
    presented: &Did,
    res: Result<()>,
)
    requires
        call_ensures(
            SocialGraphManager::<T, S, Sub, P>::revoke,
            (manager, peer, presented),
            res,
        ),
        old(manager)@.graph.contains_key(peer@.text),
        old(manager)@.graph[peer@.text].state == ConnectionState::Connected,
        !unhindered(news(old(manager)@, final(manager)@)),
    ensures
        ended_by_seam(news(old(manager)@, final(manager)@), res),
        ({
            let (before, after) = (old(manager)@, final(manager)@);
            let calls = news(before, after);
            let connection = before.graph[peer@.text];
            let n: int = match connection.their_store {
                Some(_) => 1,
                None => 0,
            };
            &&& calls.len() <= n + 2
            &&& connection.their_store matches Some(store) ==> {
                &&& calls[0] matches SeamCall::Unsubscribe { coords, .. }
                &&& coords == store
            }
            &&& calls.len() > n ==> delivers(calls[n], presented@, peer@, MessageView::Revoke)
            &&& calls.len() > n + 1 ==> {
                &&& calls[n + 1] matches SeamCall::Store { graph, .. }
                &&& graph == after.graph
            }
            &&& after.graph == before.graph.insert(
                peer@.text,
                ConnectionView {
                    state: ConnectionState::Revoked,
                    their_store: if calls.len() == n {
                        connection.their_store
                    } else {
                        None
                    },
                    ..connection
                },
            )
        }),
        true_record(old(manager)@, final(manager)@),
{
    let (before, after) = (old(manager)@, final(manager)@);
    let calls = news(before, after);
    following_is_a_true_record(before, after);
    bytes_deliver(MessageView::Revoke);
}

/// A parked connection is resumed into the very state it was parked from, and is otherwise as it
/// was; the one call is that the graph is persisted so, and what that answers is the result.
pub proof fn parked_connection_is_resumed<
    T: Transport,
    S: EnvelopeSealer,
    Sub: StoreSubscriber,
    P: Persistence,
>(
    manager: &mut SocialGraphManager<T, S, Sub, P>,
    peer: &Did,
    res: Result<()>,
)
    requires
        call_ensures(
            SocialGraphManager::<T, S, Sub, P>::resume_peer,
            (manager, peer),
            res,
        ),
        old(manager)@.graph.contains_key(peer@.text),
        old(manager)@.graph[peer@.text].state is PendingRendezvous,
    ensures
        ({
            let (before, after) = (old(manager)@, final(manager)@);
            let calls = news(before, after);
            &&& calls == seq![
                (SeamCall::Store { graph: after.graph, reply: crate::error::outcome(res) }),
            ]
            &&& after.graph == before.graph.insert(
                peer@.text,
                ConnectionView {
                    state: match before.graph[peer@.text].state {
                        ConnectionState::PendingRendezvous(
                            Suspended::Requested,
                        ) => ConnectionState::Requested,
                        ConnectionState::PendingRendezvous(
                            Suspended::RequestorOffered,
                        ) => ConnectionState::RequestorOffered,
                        _ => ConnectionState::RecipientOffered,
                    },
                    ..before.graph[peer@.text]
                },
            )
        }),
        true_record(old(manager)@, final(manager)@),
{
    let (before, after) = (old(manager)@, final(manager)@);
    let calls = news(before, after);
    following_is_a_true_record(before, after);
}

/// A connection that is not parked, or a peer that is not known, is not resumed; nothing is done.
pub proof fn resumption_out_of_place_is_refused<
    T: Transport,
    S: EnvelopeSealer,
    Sub: StoreSubscriber,
    P: Persistence,
>(
    manager: &mut SocialGraphManager<T, S, Sub, P>,
    peer: &Did,
    res: Result<()>,
)
    requires
        call_ensures(
            SocialGraphManager::<T, S, Sub, P>::resume_peer,
            (manager, peer),
            res,
        ),
        !old(manager)@.graph.contains_key(peer@.text)
            || !(old(manager)@.graph[peer@.text].state is PendingRendezvous),
    ensures
        refused(
            old(manager)@,
            final(manager)@,
            res,
            if old(manager)@.graph.contains_key(peer@.text) {
                ErrorView::IllegalTransition {
                    state: old(manager)@.graph[peer@.text].state,
                    event: ConnectionEvent::PeerCameOnline,
                }
            } else {
                ErrorView::Invariant("no connection tracked for this peer"@)
            },
        ),
        true_record(old(manager)@, final(manager)@),
{
    let (before, after) = (old(manager)@, final(manager)@);
    let calls = news(before, after);
    following_is_a_true_record(before, after);
    assert(after =~= before);
}

/// A manager that is loaded has the graph that the persistence answered, and shows it; the
/// persistence was asked once and no other seam was. Loading fails only as the persistence may
/// fail.
pub proof fn load_takes_up_the_graph<
    T: Transport,
    S: EnvelopeSealer,
    Sub: StoreSubscriber,
    P: Persistence,
>(
    transport: T,
    sealer: S,
    subscriber: Sub,
    persistence: P,
    res: Result<SocialGraphManager<T, S, Sub, P>>,
    shown: &SocialGraph,
)
    requires
        call_ensures(
            SocialGraphManager::<T, S, Sub, P>::load,
            (transport, sealer, subscriber, persistence),
            res,
        ),
        res matches Ok(manager) ==> call_ensures(
            SocialGraphManager::<T, S, Sub, P>::graph,
            (&manager,),
            shown,
        ),
    ensures
        match res {
            Ok(manager) => {
                let call = SeamCall::Load { reply: Ok(shown@) };
                &&& manager@.graph == shown@
                &&& manager@.calls == seq![call]
                &&& manager@.persistence == persistence.history().push(call)
                &&& manager@.transport == transport.history()
                &&& manager@.sealer == sealer.history()
                &&& manager@.subscriber == subscriber.history()
                &&& P::answers(call)
            },
            Err(error) => P::answers((SeamCall::Load { reply: Err(error@) })),
        },
{
}

/// An opened offer is accepted exactly if the declared sender sealed it, it spells coordinates, and
/// they are of the sealer's own store; it is then accepted as those coordinates. Of the reasons to
/// refuse it the first counts.
pub proof fn offers_are_checked_in_order(
    declared: &Did,
    opened: &OpenedEnvelope,
    buffer: &[u8],
    decoded: Result<StoreCoords>,
    res: Result<StoreCoords>,
)
    requires
        call_ensures(check_offer, (declared, opened), res),
        buffer@ == opened.plaintext@,
        call_ensures(StoreCoords::from_canonical_bytes, (buffer,), decoded),
    ensures
        if opened.sender@ != declared@.launcher_id {
            res matches Err(error) && error@ == ErrorView::Invariant(
                "sealed sender does not match the envelope's declared sender DID"@,
            )
        } else {
            match decoded {
                Err(error) => res matches Err(e) && e@ == error@,
                Ok(coords) => if coords@.did.launcher_id != opened.sender@ {
                    res matches Err(error) && error@ == ErrorView::Invariant(
                        "offered store DID does not match the authenticated sealer"@,
                    )
                } else {
                    res matches Ok(accepted) && accepted@ == coords@
                },
            }
        },
{
}

/// Whatever an operation does, it touches the connection of the peer that it names and no other,
/// and a message that of its declared sender and no other.
pub proof fn operations_touch_one_peer<
    T: Transport,
    S: EnvelopeSealer,
    Sub: StoreSubscriber,
    P: Persistence,
>(
    manager: &mut SocialGraphManager<T, S, Sub, P>,
    peer: Did,
    presented: Did,
    coords: StoreCoords,
    our_secret: &SecretKey,
    envelope: &SealedEnvelope,
    res: Result<()>,
    other: Seq<char>,
)
    requires
        ({
            ||| call_ensures(
                SocialGraphManager::<T, S, Sub, P>::request,
                (manager, peer, presented, coords),
                res,
            )
            ||| call_ensures(
                SocialGraphManager::<T, S, Sub, P>::approve,
                (manager, &peer, presented, coords),
                res,
            )
            ||| call_ensures(
                SocialGraphManager::<T, S, Sub, P>::deny,
                (manager, &peer, &presented),
                res,
            )
            ||| call_ensures(
                SocialGraphManager::<T, S, Sub, P>::revoke,
                (manager, &peer, &presented),
                res,
            )
            ||| call_ensures(SocialGraphManager::<T, S, Sub, P>::resume_peer, (manager, &peer), res)
            ||| {
                &&& envelope@.sender == peer@
                &&& call_ensures(
                    SocialGraphManager::<T, S, Sub, P>::handle_incoming,
                    (manager, our_secret, envelope),
                    res,
                )
            }
        }),
        other != peer@.text,
    ensures
        final(manager)@.graph.contains_key(other) == old(manager)@.graph.contains_key(other),
        old(manager)@.graph.contains_key(other) ==> final(manager)@.graph[other]
            == old(manager)@.graph[other],
{
}

} // verus!
