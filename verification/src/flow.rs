//! What each operation of the [manager](crate::manager) does, as a relation between the graph
//! before, the calls made at the seams, the graph after, and the result.
//!
//! A seam may answer as it likes, so an operation is described step by step: each relation says
//! which call comes next, with what is handed over, and what follows for each answer. For given
//! answers the calls, the graph and the result are determined.
//!
//! The second half of this module states what holds of all runs, as proof functions.

use vstd::prelude::*;

use crate::error::ErrorView;
use crate::graph::{ConnectionView, GraphView};
use crate::identity::DidView;
use crate::seams::{OpenedView, Reply, SeamCall};
use crate::state::{ConnectionEvent, ConnectionState, Suspended};
use crate::wire::{CoordsView, EnvelopeView, MessageView};

verus! {

/// One run of an operation.
#[verifier::ext_equal]
pub struct Run {
    /// The graph before the operation.
    pub before: GraphView,
    /// The calls at the seams, in order.
    pub calls: Seq<SeamCall>,
    /// The graph after the operation.
    pub after: GraphView,
    /// The result.
    pub result: Reply<()>,
}

/// The failure of an operation on a peer that the graph does not know.
pub open spec fn no_connection() -> ErrorView {
    ErrorView::Invariant("no connection tracked for this peer"@)
}

/// The failure of an approval for which no request was received.
pub open spec fn no_inbound_offer() -> ErrorView {
    ErrorView::Invariant("no inbound offer recorded for this peer"@)
}

/// The refusal of an offer that was sealed by someone other than its declared sender.
pub open spec fn foreign_sealer() -> ErrorView {
    ErrorView::Invariant("sealed sender does not match the envelope's declared sender DID"@)
}

/// The refusal of an offer of a store that is not the sealer's own.
pub open spec fn foreign_store() -> ErrorView {
    ErrorView::Invariant("offered store DID does not match the authenticated sealer"@)
}

/// The coordinates in an opened envelope, if they can be trusted: the envelope was sealed by its
/// declared sender, it spells coordinates, and they are of the sealer's own store.
pub open spec fn trusted_offer(declared_sender: DidView, opened: OpenedView) -> Reply<CoordsView> {
    if opened.sender != declared_sender.launcher_id {
        Err(foreign_sealer())
    } else {
        match crate::wire::decoded_coords(opened.plaintext) {
            Err(error) => Err(error),
            Ok(coords) => if coords.did.launcher_id != opened.sender {
                Err(foreign_store())
            } else {
                Ok(coords)
            },
        }
    }
}

/// A peer's connection after an event, or the failure: the peer is unknown, or the event is not
/// accepted.
pub open spec fn advanced(graph: GraphView, peer: DidView, event: ConnectionEvent) -> Reply<
    ConnectionView,
> {
    if graph.contains_key(peer.text) {
        graph[peer.text].after(event)
    } else {
        Err(no_connection())
    }
}

/// The coordinates of a peer's store, if they are on record.
pub open spec fn store_of(graph: GraphView, peer: DidView) -> Option<CoordsView> {
    if graph.contains_key(peer.text) {
        graph[peer.text].their_store
    } else {
        None
    }
}

/// A connection whose peer's store is forgotten.
pub open spec fn torn_down(connection: ConnectionView) -> ConnectionView {
    ConnectionView { their_store: None, ..connection }
}

/// The envelope in which a message travels.
pub open spec fn enveloped(
    sender: DidView,
    recipient: DidView,
    message: MessageView,
) -> EnvelopeView {
    EnvelopeView { sender, recipient, payload: message.bytes() }
}

impl Run {
    /// The operation ends after `n` calls, with this graph and result.
    pub open spec fn ends(self, n: int, after: GraphView, result: Reply<()>) -> bool {
        &&& self.calls.len() == n
        &&& self.after == after
        &&& self.result == result
    }

    /// The operation fails in its `n`-th call, whose error is passed on as a seam failure.
    pub open spec fn fails_at_seam(self, n: int, after: GraphView, error: ErrorView) -> bool {
        self.ends(n + 1, after, Err(error.at_the_seam()))
    }

    /// The operation ends by persisting the graph in its `n`-th call, and returns what that
    /// answered.
    pub open spec fn persists(self, n: int, after: GraphView) -> bool {
        &&& self.calls.len() == n + 1
        &&& self.calls[n] == (SeamCall::Store { graph: after, reply: self.result })
        &&& self.after == after
    }

    /// The `n`-th call delivers an envelope; if that succeeds the operation persists the graph.
    pub open spec fn sends_and_persists(
        self,
        n: int,
        envelope: EnvelopeView,
        after: GraphView,
    ) -> bool {
        &&& self.calls.len() > n
        &&& self.calls[n] matches SeamCall::Send { envelope: sent, reply }
        &&& sent == envelope
        &&& match reply {
            Err(error) => self.fails_at_seam(n, after, error),
            Ok(_) => self.persists(n + 1, after),
        }
    }

    /// After `n` calls that changed nothing, a peer's connection takes an event and the graph is
    /// persisted; a refusal ends the operation.
    pub open spec fn advances(self, n: int, peer: DidView, event: ConnectionEvent) -> bool {
        match advanced(self.before, peer, event) {
            Err(error) => self.ends(n, self.before, Err(error)),
            Ok(connection) => self.persists(n, self.before.insert(peer.text, connection)),
        }
    }

    /// A run of [`request`](crate::manager::SocialGraphManager::request).
    pub open spec fn request(
        self,
        peer: DidView,
        presented_local_did: DidView,
        our_coords: CoordsView,
    ) -> bool {
        match our_coords.validated() {
            Err(error) => self.ends(0, self.before, Err(error)),
            Ok(_) => {
                &&& self.calls.len() > 0
                &&& self.calls[0] matches SeamCall::Seal { recipient, plaintext, reply }
                &&& recipient == peer
                &&& plaintext == our_coords.bytes()
                &&& match reply {
                    Err(error) => self.fails_at_seam(0, self.before, error),
                    Ok(ciphertext) => if self.before.contains_key(peer.text) {
                        self.ends(1, self.before, Err(crate::graph::already_exists()))
                    } else {
                        self.delivers_or_parks(
                            ConnectionView::initiated(peer, presented_local_did, our_coords),
                            enveloped(presented_local_did, peer, MessageView::Request(ciphertext)),
                        )
                    },
                }
            },
        }
    }

    /// The rest of a request, from its second call on: the fresh connection's request is delivered
    /// if the peer is online; otherwise the connection is parked.
    pub open spec fn delivers_or_parks(
        self,
        fresh: ConnectionView,
        envelope: EnvelopeView,
    ) -> bool {
        let key = fresh.peer.text;
        let opened = self.before.insert(key, fresh);
        let delivered = self.before.insert(key, fresh.at(ConnectionState::RequestorOffered));
        let parked = self.before.insert(
            key,
            fresh.at(ConnectionState::PendingRendezvous(Suspended::Requested)),
        );
        &&& self.calls.len() > 1
        &&& self.calls[1] matches SeamCall::IsPeerOnline { peer, reply }
        &&& peer == fresh.peer
        &&& match reply {
            Err(error) => self.fails_at_seam(1, opened, error),
            Ok(false) => self.persists(2, parked),
            Ok(true) => {
                &&& self.calls.len() > 2
                &&& self.calls[2] matches SeamCall::Send { envelope: sent, reply }
                &&& sent == envelope
                &&& match reply {
                    Err(error) => self.fails_at_seam(2, opened, error),
                    Ok(_) => self.persists(3, delivered),
                }
            },
        }
    }

    /// A run of [`approve`](crate::manager::SocialGraphManager::approve).
    pub open spec fn approve(
        self,
        peer: DidView,
        presented_local_did: DidView,
        our_coords: CoordsView,
    ) -> bool {
        match our_coords.validated() {
            Err(error) => self.ends(0, self.before, Err(error)),
            Ok(_) => match store_of(self.before, peer) {
                None => self.ends(0, self.before, Err(no_inbound_offer())),
                Some(their_store) => {
                    &&& self.calls.len() > 0
                    &&& self.calls[0] matches SeamCall::Seal { recipient, plaintext, reply }
                    &&& recipient == peer
                    &&& plaintext == our_coords.bytes()
                    &&& match reply {
                        Err(error) => self.fails_at_seam(0, self.before, error),
                        Ok(ciphertext) => match advanced(
                            self.before,
                            peer,
                            ConnectionEvent::Approved,
                        ) {
                            Err(error) => self.ends(1, self.before, Err(error)),
                            Ok(connection) => self.subscribes_and_accepts(
                                their_store,
                                ConnectionView {
                                    presented_local_did: Some(presented_local_did),
                                    our_offer: Some(our_coords),
                                    ..connection
                                },
                                enveloped(
                                    presented_local_did,
                                    peer,
                                    MessageView::Accept(ciphertext),
                                ),
                            ),
                        },
                    }
                },
            },
        }
    }

    /// The rest of an approval, from its second call on: with the consent on record, the peer's
    /// store is subscribed to and the acceptance is delivered.
    pub open spec fn subscribes_and_accepts(
        self,
        their_store: CoordsView,
        approved: ConnectionView,
        envelope: EnvelopeView,
    ) -> bool {
        let after = self.before.insert(envelope.recipient.text, approved);
        &&& self.calls.len() > 1
        &&& self.calls[1] matches SeamCall::Subscribe { coords, reply }
        &&& coords == their_store
        &&& match reply {
            Err(error) => self.fails_at_seam(1, after, error),
            Ok(_) => self.sends_and_persists(2, envelope, after),
        }
    }

    /// A run of [`deny`](crate::manager::SocialGraphManager::deny).
    pub open spec fn deny(self, peer: DidView, presented_local_did: DidView) -> bool {
        &&& self.calls.len() > 0
        &&& self.calls[0] matches SeamCall::Send { envelope, reply }
        &&& envelope == enveloped(presented_local_did, peer, MessageView::Deny)
        &&& match reply {
            Err(error) => self.fails_at_seam(0, self.before, error),
            Ok(_) => self.advances(1, peer, ConnectionEvent::Denied),
        }
    }

    /// A run of [`revoke`](crate::manager::SocialGraphManager::revoke).
    pub open spec fn revoke(self, peer: DidView, presented_local_did: DidView) -> bool {
        match advanced(self.before, peer, ConnectionEvent::Revoked) {
            Err(error) => self.ends(0, self.before, Err(error)),
            Ok(revoked) => {
                let after = self.before.insert(peer.text, torn_down(revoked));
                let notice = enveloped(presented_local_did, peer, MessageView::Revoke);
                match revoked.their_store {
                    None => self.sends_and_persists(0, notice, after),
                    Some(their_store) => {
                        &&& self.calls.len() > 0
                        &&& self.calls[0] matches SeamCall::Unsubscribe { coords, reply }
                        &&& coords == their_store
                        &&& match reply {
                            Err(error) => self.fails_at_seam(
                                0,
                                self.before.insert(peer.text, revoked),
                                error,
                            ),
                            Ok(_) => self.sends_and_persists(1, notice, after),
                        }
                    },
                }
            },
        }
    }

    /// A run of [`resume_peer`](crate::manager::SocialGraphManager::resume_peer).
    pub open spec fn resume(self, peer: DidView) -> bool {
        self.advances(0, peer, ConnectionEvent::PeerCameOnline)
    }

    /// A run of [`handle_incoming`](crate::manager::SocialGraphManager::handle_incoming).
    pub open spec fn incoming(self, our_secret: Seq<u8>, envelope: EnvelopeView) -> bool {
        match crate::wire::decoded_message(envelope.payload) {
            Err(error) => self.ends(0, self.before, Err(error)),
            Ok(MessageView::Request(offer)) => self.on_request(our_secret, envelope.sender, offer),
            Ok(MessageView::Accept(offer)) => self.on_accept(our_secret, envelope.sender, offer),
            Ok(MessageView::Deny) => self.advances(0, envelope.sender, ConnectionEvent::Denied),
            Ok(MessageView::Revoke) => self.on_revoke(envelope.sender),
        }
    }

    /// The first call opens an offer. (What follows for an answer is up to the operation.)
    pub open spec fn opens(self, our_secret: Seq<u8>, offer: Seq<u8>) -> bool {
        &&& self.calls.len() > 0
        &&& self.calls[0] matches SeamCall::Open { our_secret: secret, ciphertext, reply }
        &&& secret == our_secret
        &&& ciphertext == offer
    }

    /// What the first call, which opens an offer, came to: the offered coordinates, if the sealer
    /// opened the offer and it can be trusted.
    pub open spec fn opened_offer(self, sender: DidView) -> Reply<CoordsView> {
        match self.calls[0]->Open_reply {
            Err(error) => Err(error.at_the_seam()),
            Ok(opened) => trusted_offer(sender, opened),
        }
    }

    /// An inbound request: the offer is opened, and the peer is recorded as awaiting consent.
    pub open spec fn on_request(
        self,
        our_secret: Seq<u8>,
        sender: DidView,
        offer: Seq<u8>,
    ) -> bool {
        &&& self.opens(our_secret, offer)
        &&& match self.opened_offer(sender) {
            Err(error) => self.ends(1, self.before, Err(error)),
            Ok(their_store) => if self.before.contains_key(sender.text) {
                self.ends(1, self.before, Err(crate::graph::already_exists()))
            } else {
                self.persists(
                    1,
                    self.before.insert(
                        sender.text,
                        ConnectionView::requested_by(sender, their_store),
                    ),
                )
            },
        }
    }

    /// An inbound acceptance: the offer is opened and, if the acceptance is legal, the peer's store
    /// is subscribed to; once that has succeeded the connection becomes live.
    pub open spec fn on_accept(
        self,
        our_secret: Seq<u8>,
        sender: DidView,
        offer: Seq<u8>,
    ) -> bool {
        &&& self.opens(our_secret, offer)
        &&& match self.opened_offer(sender) {
            Err(error) => self.ends(1, self.before, Err(error)),
            Ok(their_store) => match advanced(
                self.before,
                sender,
                ConnectionEvent::AcceptReceived,
            ) {
                Err(error) => self.ends(1, self.before, Err(error)),
                Ok(connection) => {
                    let live = self.before.insert(
                        sender.text,
                        ConnectionView { their_store: Some(their_store), ..connection },
                    );
                    &&& self.calls.len() > 1
                    &&& self.calls[1] matches SeamCall::Subscribe { coords, reply }
                    &&& coords == their_store
                    &&& match reply {
                        Err(error) => self.fails_at_seam(1, self.before, error),
                        Ok(_) => self.persists(2, live),
                    }
                },
            },
        }
    }

    /// An inbound revocation: the connection is revoked, and its store is no longer maintained.
    pub open spec fn on_revoke(self, sender: DidView) -> bool {
        match advanced(self.before, sender, ConnectionEvent::Revoked) {
            Err(error) => self.ends(0, self.before, Err(error)),
            Ok(revoked) => {
                let after = self.before.insert(sender.text, torn_down(revoked));
                match revoked.their_store {
                    None => self.persists(0, after),
                    Some(their_store) => {
                        &&& self.calls.len() > 0
                        &&& self.calls[0] matches SeamCall::Unsubscribe { coords, reply }
                        &&& coords == their_store
                        &&& match reply {
                            Err(error) => self.fails_at_seam(
                                0,
                                self.before.insert(sender.text, revoked),
                                error,
                            ),
                            Ok(_) => self.persists(1, after),
                        }
                    },
                }
            },
        }
    }
}

impl ConnectionView {
    /// The local side has offered, and the offer is on record.
    pub open spec fn offered(self) -> bool {
        self.our_offer is Some && self.presented_local_did is Some
    }

    /// The data on record fits the state: whoever has offered has their offer on record, and a live
    /// connection has both.
    pub open spec fn sound(self) -> bool {
        match self.state {
            ConnectionState::Requested => self.offered(),
            ConnectionState::RequestorOffered => self.offered(),
            ConnectionState::AwaitingRecipientSelect => self.their_store is Some,
            ConnectionState::RecipientOffered => self.offered() && self.their_store is Some,
            ConnectionState::Connected => self.offered() && self.their_store is Some,
            ConnectionState::PendingRendezvous(Suspended::RecipientOffered) => self.offered()
                && self.their_store is Some,
            ConnectionState::PendingRendezvous(_) => self.offered(),
            ConnectionState::Denied => true,
            ConnectionState::Revoked => true,
        }
    }
}

/// Every connection of a graph is sound.
pub open spec fn sound(graph: GraphView) -> bool {
    forall|key: Seq<char>| #[trigger] graph.contains_key(key) ==> graph[key].sound()
}

impl Run {
    /// Nothing but the connection under `key` may have changed.
    pub open spec fn touches_only(self, key: Seq<char>) -> bool {
        forall|other: Seq<char>|
            other != key ==> {
                &&& #[trigger] self.after.contains_key(other) == self.before.contains_key(other)
                &&& self.before.contains_key(other) ==> self.after[other] == self.before[other]
            }
    }

    /// A run of one of the operations that the local user starts on a peer.
    pub open spec fn started_by_user(
        self,
        peer: DidView,
        presented_local_did: DidView,
        our_coords: CoordsView,
    ) -> bool {
        ||| self.request(peer, presented_local_did, our_coords)
        ||| self.approve(peer, presented_local_did, our_coords)
        ||| self.deny(peer, presented_local_did)
        ||| self.revoke(peer, presented_local_did)
        ||| self.resume(peer)
    }

    /// The `i`-th call subscribes to a store.
    pub open spec fn subscribes_at(self, i: int) -> bool {
        0 <= i < self.calls.len() && self.calls[i] is Subscribe
    }
}

/// An operation on a peer changes that peer's connection and no other.
pub proof fn operation_touches_only_its_peer(
    run: Run,
    peer: DidView,
    presented_local_did: DidView,
    our_coords: CoordsView,
)
    requires
        run.started_by_user(peer, presented_local_did, our_coords),
    ensures
        run.touches_only(peer.text),
{
}

/// A message from a peer changes that peer's connection and no other.
pub proof fn message_touches_only_its_sender(run: Run, our_secret: Seq<u8>, envelope: EnvelopeView)
    requires
        run.incoming(our_secret, envelope),
    ensures
        run.touches_only(envelope.sender.text),
{
}

/// An operation that succeeds has, as its last act, persisted the graph as it now is.
pub proof fn success_is_persisted(
    run: Run,
    peer: DidView,
    presented_local_did: DidView,
    our_coords: CoordsView,
    our_secret: Seq<u8>,
    envelope: EnvelopeView,
)
    requires
        run.started_by_user(peer, presented_local_did, our_coords) || run.incoming(
            our_secret,
            envelope,
        ),
        run.result is Ok,
    ensures
        run.calls.len() > 0,
        run.calls.last() == (SeamCall::Store { graph: run.after, reply: run.result }),
{
}

/// A declined or revoked connection is beyond recall: no message from that peer changes the graph
/// or reaches the subscriber, the transport or the persistence. At most an offer is opened in vain.
pub proof fn ended_connection_ignores_messages(
    run: Run,
    our_secret: Seq<u8>,
    envelope: EnvelopeView,
)
    requires
        run.incoming(our_secret, envelope),
        run.before.contains_key(envelope.sender.text),
        run.before[envelope.sender.text].state.terminal(),
    ensures
        run.after == run.before,
        run.result is Err,
        run.calls.len() <= 1,
        run.calls.len() == 1 ==> run.calls[0] is Open,
{
}

/// The consent gate: the local user's operations subscribe to a store only when approving a request
/// that awaits consent, and to no other store than the one the request offered.
pub proof fn subscription_follows_consent(
    run: Run,
    peer: DidView,
    presented_local_did: DidView,
    our_coords: CoordsView,
    i: int,
)
    requires
        run.started_by_user(peer, presented_local_did, our_coords),
        run.subscribes_at(i),
    ensures
        run.before.contains_key(peer.text),
        run.before[peer.text].state == ConnectionState::AwaitingRecipientSelect,
        run.before[peer.text].their_store == Some(run.calls[i]->Subscribe_coords),
        run.after[peer.text].state == ConnectionState::RecipientOffered,
        run.after[peer.text].offered(),
{
}

/// An incoming message subscribes to a store only if it is the acceptance of a request that was
/// delivered, and only to a store that is the sender's own. If the subscription succeeds the
/// connection is live, with that store on record; if it fails the graph is as it was.
pub proof fn subscription_follows_acceptance(
    run: Run,
    our_secret: Seq<u8>,
    envelope: EnvelopeView,
    i: int,
)
    requires
        run.incoming(our_secret, envelope),
        run.subscribes_at(i),
    ensures
        run.before.contains_key(envelope.sender.text),
        run.before[envelope.sender.text].state == ConnectionState::RequestorOffered,
        run.calls[i]->Subscribe_reply is Ok ==> {
            &&& run.after[envelope.sender.text].state == ConnectionState::Connected
            &&& run.after[envelope.sender.text].their_store == Some(
                run.calls[i]->Subscribe_coords,
            )
        },
        run.calls[i]->Subscribe_reply is Err ==> run.after == run.before,
        run.calls[i]->Subscribe_coords.paired(),
        run.calls[i]->Subscribe_coords.did.launcher_id == envelope.sender.launcher_id,
{
    crate::wire::decoded_coords_are_paired(run.calls[0]->Open_reply->Ok_0.plaintext);
}

/// A connection goes live in one way only: a message from the peer, the acceptance of a delivered
/// request. Whatever the local user does, no connection goes live by it.
pub proof fn only_an_acceptance_connects(
    run: Run,
    peer: DidView,
    presented_local_did: DidView,
    our_coords: CoordsView,
)
    requires
        run.started_by_user(peer, presented_local_did, our_coords),
        run.after.contains_key(peer.text),
        run.after[peer.text].state == ConnectionState::Connected,
    ensures
        run.before.contains_key(peer.text),
        run.before[peer.text].state == ConnectionState::Connected,
{
}

/// A connection that goes live is subscribed to the peer's store: the call was made and succeeded,
/// and the store is the one on record.
pub proof fn connecting_subscribes(run: Run, our_secret: Seq<u8>, envelope: EnvelopeView)
    requires
        run.incoming(our_secret, envelope),
        run.after.contains_key(envelope.sender.text),
        run.after[envelope.sender.text].state == ConnectionState::Connected,
        run.before != run.after,
    ensures
        run.before[envelope.sender.text].state == ConnectionState::RequestorOffered,
        ({
            &&& run.calls.len() > 1
            &&& run.calls[1] matches SeamCall::Subscribe { coords, reply }
            &&& reply is Ok
            &&& run.after[envelope.sender.text].their_store == Some(coords)
        }),
{
}

/// A store that comes on record is the sender's own: the offer was opened, its authenticated sealer
/// is the declared sender, and the coordinates are those that it spells, of the sealer's own store.
pub proof fn recorded_store_is_the_senders_own(
    run: Run,
    our_secret: Seq<u8>,
    envelope: EnvelopeView,
    their_store: CoordsView,
)
    requires
        run.incoming(our_secret, envelope),
        store_of(run.before, envelope.sender) != Some(their_store),
        store_of(run.after, envelope.sender) == Some(their_store),
    ensures
        their_store.paired(),
        their_store.did.launcher_id == envelope.sender.launcher_id,
        ({
            &&& run.calls.len() > 0
            &&& run.calls[0] matches SeamCall::Open { reply: Ok(opened), .. }
            &&& opened.sender == envelope.sender.launcher_id
            &&& crate::wire::decoded_coords(opened.plaintext) == Ok::<CoordsView, ErrorView>(
                their_store,
            )
        }),
{
    crate::wire::decoded_coords_are_paired(run.calls[0]->Open_reply->Ok_0.plaintext);
}

/// Every operation keeps the graph sound: in particular, a connection is live only with both ends'
/// offers on record.
pub proof fn operations_keep_the_graph_sound(
    run: Run,
    peer: DidView,
    presented_local_did: DidView,
    our_coords: CoordsView,
    our_secret: Seq<u8>,
    envelope: EnvelopeView,
)
    requires
        sound(run.before),
        run.started_by_user(peer, presented_local_did, our_coords) || run.incoming(
            our_secret,
            envelope,
        ),
    ensures
        sound(run.after),
{
}

/// A revocation that succeeds, on either side, leaves no data plane: the store is unsubscribed if
/// there was one, and forgotten.
pub proof fn revocation_ends_the_data_plane(
    run: Run,
    peer: DidView,
    presented_local_did: DidView,
)
    requires
        run.revoke(peer, presented_local_did) || run.on_revoke(peer),
        run.result is Ok,
    ensures
        run.before[peer.text].state == ConnectionState::Connected,
        run.after[peer.text].state == ConnectionState::Revoked,
        run.after[peer.text].their_store is None,
        store_of(run.before, peer) matches Some(their_store) ==> {
            &&& run.calls[0] matches SeamCall::Unsubscribe { coords, reply }
            &&& coords == their_store
            &&& reply is Ok
        },
{
}

/// The transport carries no plaintext: what an operation sends is a bare denial or revocation, or a
/// request or acceptance around the ciphertext that the sealer made of the local coordinates.
pub proof fn transport_carries_only_sealed_offers(
    run: Run,
    peer: DidView,
    presented_local_did: DidView,
    our_coords: CoordsView,
    i: int,
)
    requires
        run.started_by_user(peer, presented_local_did, our_coords),
        0 <= i < run.calls.len(),
        run.calls[i] is Send,
    ensures
        run.calls[i]->Send_envelope.sender == presented_local_did,
        run.calls[i]->Send_envelope.recipient == peer,
        ({
            let payload = run.calls[i]->Send_envelope.payload;
            ||| payload == MessageView::Deny.bytes()
            ||| payload == MessageView::Revoke.bytes()
            ||| {
                &&& 0 < i
                &&& run.calls[0] matches SeamCall::Seal {
                    recipient,
                    plaintext,
                    reply: Ok(ciphertext),
                }
                &&& recipient == peer
                &&& plaintext == our_coords.bytes()
                &&& payload == MessageView::Request(ciphertext).bytes() || payload
                    == MessageView::Accept(ciphertext).bytes()
            }
        }),
{
}

/// Handling a message sends nothing.
pub proof fn messages_are_not_answered(
    run: Run,
    our_secret: Seq<u8>,
    envelope: EnvelopeView,
    i: int,
)
    requires
        run.incoming(our_secret, envelope),
        0 <= i < run.calls.len(),
    ensures
        !(run.calls[i] is Send),
{
}

/// A denial that succeeds is final and withholds everything: nothing is sealed or subscribed to.
pub proof fn denial_withholds_everything(run: Run, peer: DidView, presented_local_did: DidView)
    requires
        run.deny(peer, presented_local_did),
        run.result is Ok,
    ensures
        run.after[peer.text] == run.before[peer.text].at(ConnectionState::Denied),
        run.after[peer.text].state.terminal(),
        forall|i: int|
            0 <= i < run.calls.len() ==> !(#[trigger] run.calls[i] is Seal) && !(
            run.calls[i] is Subscribe),
{
}

/// A request to an offline peer is parked, and once the peer is back it is resumed into the very
/// state it was parked from.
pub proof fn offline_request_is_parked_and_resumed(
    run: Run,
    later: Run,
    peer: DidView,
    presented_local_did: DidView,
    our_coords: CoordsView,
)
    requires
        run.request(peer, presented_local_did, our_coords),
        run.result is Ok,
        run.calls[1] == (SeamCall::IsPeerOnline { peer, reply: Ok(false) }),
        later.before == run.after,
        later.resume(peer),
        later.result is Ok,
    ensures
        forall|i: int| 0 <= i < run.calls.len() ==> !(#[trigger] run.calls[i] is Send),
        run.after[peer.text].state == ConnectionState::PendingRendezvous(Suspended::Requested),
        later.after[peer.text] == ConnectionView::initiated(peer, presented_local_did, our_coords),
{
}

/// A request that is sent arrives: a recipient that has no connection to the requestor yet, and whose
/// sealer recovers what was sealed, records the requestor's coordinates as they were offered.
pub proof fn sent_request_is_recorded(
    sent: Run,
    received: Run,
    peer: DidView,
    presented_local_did: DidView,
    our_coords: CoordsView,
    their_secret: Seq<u8>,
)
    requires
        our_coords.valid(),
        presented_local_did.launcher_id == our_coords.did.launcher_id,
        sent.request(peer, presented_local_did, our_coords),
        sent.calls.len() > 2,
        sent.calls[2] is Send,
        sent.calls[0]->Seal_reply->Ok_0.len() < 4294967296,
        received.incoming(their_secret, sent.calls[2]->Send_envelope),
        !received.before.contains_key(presented_local_did.text),
        received.calls[0] == (SeamCall::Open {
            our_secret: their_secret,
            ciphertext: sent.calls[0]->Seal_reply->Ok_0,
            reply: Ok(
                OpenedView {
                    sender: our_coords.did.launcher_id,
                    plaintext: our_coords.bytes(),
                },
            ),
        }),
    ensures
        received.after == received.before.insert(
            presented_local_did.text,
            ConnectionView::requested_by(presented_local_did, our_coords),
        ),
{
    let ciphertext = sent.calls[0]->Seal_reply->Ok_0;
    crate::wire::message_round_trip(MessageView::Request(ciphertext));
    crate::wire::coords_round_trip(our_coords);
}

/// An approval that is sent completes the handshake: a requestor whose request was delivered, whose
/// sealer recovers what was sealed and whose subscriber takes on the offered store, is connected and
/// holds the recipient's coordinates as they were offered.
pub proof fn sent_approval_completes_the_handshake(
    sent: Run,
    received: Run,
    peer: DidView,
    presented_local_did: DidView,
    our_coords: CoordsView,
    their_secret: Seq<u8>,
)
    requires
        our_coords.valid(),
        presented_local_did.launcher_id == our_coords.did.launcher_id,
        sent.approve(peer, presented_local_did, our_coords),
        sent.calls.len() > 2,
        sent.calls[0]->Seal_reply->Ok_0.len() < 4294967296,
        received.incoming(their_secret, sent.calls[2]->Send_envelope),
        received.before.contains_key(presented_local_did.text),
        received.before[presented_local_did.text].state == ConnectionState::RequestorOffered,
        received.calls[0] == (SeamCall::Open {
            our_secret: their_secret,
            ciphertext: sent.calls[0]->Seal_reply->Ok_0,
            reply: Ok(
                OpenedView {
                    sender: our_coords.did.launcher_id,
                    plaintext: our_coords.bytes(),
                },
            ),
        }),
        received.calls[1] == (SeamCall::Subscribe { coords: our_coords, reply: Ok(()) }),
    ensures
        received.after[presented_local_did.text].state == ConnectionState::Connected,
        received.after[presented_local_did.text].their_store == Some(our_coords),
{
    let ciphertext = sent.calls[0]->Seal_reply->Ok_0;
    crate::wire::message_round_trip(MessageView::Accept(ciphertext));
    crate::wire::coords_round_trip(our_coords);
}

/// Two calls ask the same thing of a seam.
pub open spec fn same_question(a: SeamCall, b: SeamCall) -> bool {
    match (a, b) {
        (SeamCall::Send { envelope: x, .. }, SeamCall::Send { envelope: y, .. }) => x == y,
        (SeamCall::IsPeerOnline { peer: x, .. }, SeamCall::IsPeerOnline { peer: y, .. }) => x == y,
        (
            SeamCall::Seal { recipient: x, plaintext: p, .. },
            SeamCall::Seal { recipient: y, plaintext: q, .. },
        ) => x == y && p == q,
        (
            SeamCall::Open { our_secret: x, ciphertext: p, .. },
            SeamCall::Open { our_secret: y, ciphertext: q, .. },
        ) => x == y && p == q,
        (SeamCall::Subscribe { coords: x, .. }, SeamCall::Subscribe { coords: y, .. }) => x == y,
        (SeamCall::Unsubscribe { coords: x, .. }, SeamCall::Unsubscribe { coords: y, .. }) => x
            == y,
        (SeamCall::Load { .. }, SeamCall::Load { .. }) => true,
        (SeamCall::Store { graph: x, .. }, SeamCall::Store { graph: y, .. }) => x == y,
        _ => false,
    }
}

/// Wherever two runs ask the same thing at the same point, they are answered alike.
pub open spec fn answered_alike(a: Run, b: Run) -> bool {
    forall|i: int|
        #![trigger a.calls[i]]
        #![trigger b.calls[i]]
        0 <= i < a.calls.len() && i < b.calls.len() && same_question(a.calls[i], b.calls[i])
            ==> a.calls[i] == b.calls[i]
}

/// The flow is deterministic: from the same graph, with the same arguments and the same answers from
/// the seams, a request makes the same calls and has the same outcome.
pub proof fn request_is_deterministic(
    a: Run,
    b: Run,
    peer: DidView,
    presented_local_did: DidView,
    our_coords: CoordsView,
)
    requires
        a.before == b.before,
        a.request(peer, presented_local_did, our_coords),
        b.request(peer, presented_local_did, our_coords),
        answered_alike(a, b),
    ensures
        a == b,
{
    assert(a.calls =~= b.calls);
}

/// The flow is deterministic: so is an approval.
pub proof fn approve_is_deterministic(
    a: Run,
    b: Run,
    peer: DidView,
    presented_local_did: DidView,
    our_coords: CoordsView,
)
    requires
        a.before == b.before,
        a.approve(peer, presented_local_did, our_coords),
        b.approve(peer, presented_local_did, our_coords),
        answered_alike(a, b),
    ensures
        a == b,
{
    assert(a.calls =~= b.calls);
}

/// The flow is deterministic: so are a denial, a revocation and a resumption.
pub proof fn ending_and_resuming_is_deterministic(
    a: Run,
    b: Run,
    peer: DidView,
    presented_local_did: DidView,
)
    requires
        a.before == b.before,
        ({
            ||| a.deny(peer, presented_local_did) && b.deny(peer, presented_local_did)
            ||| a.revoke(peer, presented_local_did) && b.revoke(peer, presented_local_did)
            ||| a.resume(peer) && b.resume(peer)
        }),
        answered_alike(a, b),
    ensures
        a == b,
{
    assert(a.calls =~= b.calls);
}

/// The flow is deterministic: so is the handling of a message.
pub proof fn incoming_is_deterministic(
    a: Run,
    b: Run,
    our_secret: Seq<u8>,
    envelope: EnvelopeView,
)
    requires
        a.before == b.before,
        a.incoming(our_secret, envelope),
        b.incoming(our_secret, envelope),
        answered_alike(a, b),
    ensures
        a == b,
{
    assert(a.calls =~= b.calls);
}

} // verus!
