//! The orchestrator that drives the four seams through the connection lifecycle.
//!
//! [`SocialGraphManager`] turns user intents (request, approve, deny, revoke) and inbound messages
//! into the right sequence of seam calls and state transitions. It performs no I/O of its own:
//! every effect flows through a seam.
//!
//! The manager's contracts speak of a ghost record of the calls it makes at the seams. An operation
//! is described by the relation of its name in [`flow`](crate::flow): which calls it makes, in which
//! order, what it hands over, what it records in the graph, and what it returns, for every way in
//! which the seams may answer. The record is true to the seams: an operation adds to the history of
//! each seam exactly the recorded calls that are made on it.

use vstd::prelude::*;

use crate::error::{Error, Result};
use crate::flow;
use crate::graph::{Connection, ConnectionView, SocialGraph};
use crate::identity::{Did, DidView, SecretKey};
use crate::record::ManagerView;
use crate::seams::{
    EnvelopeSealer, OpenedEnvelope, Persistence, Reply, SeamCall, StoreSubscriber, Transport,
};
use crate::state::ConnectionEvent;
use crate::wire::{
    ConnectAccept, ConnectDeny, ConnectRequest, Revoke, SealedEnvelope, SealedOffer, SocialMessage,
    StoreCoords,
};

verus! {

/// Drives the social-graph lifecycle over the four injected seams.
pub struct SocialGraphManager<T, S, Sub, P> {
    transport: T,
    sealer: S,
    subscriber: Sub,
    persistence: P,
    graph: SocialGraph,
    calls: Ghost<Seq<SeamCall>>,
}

impl<T, S, Sub, P> View for SocialGraphManager<T, S, Sub, P> where
    T: Transport,
    S: EnvelopeSealer,
    Sub: StoreSubscriber,
    P: Persistence,
 {
    type V = ManagerView;

    closed spec fn view(&self) -> ManagerView {
        ManagerView {
            graph: self.graph@,
            calls: self.calls@,
            transport: self.transport.history(),
            sealer: self.sealer.history(),
            subscriber: self.subscriber.history(),
            persistence: self.persistence.history(),
        }
    }
}

/// An answer with its error, if it is one, adapted to a seam failure.
pub open spec fn at_the_seam<A>(reply: Reply<A>) -> Reply<A> {
    match reply {
        Ok(value) => Ok(value),
        Err(error) => Err(error.at_the_seam()),
    }
}

/// Adapt an error that came out of a seam call into [`Error::Seam`]: a seam failure is kept as it is,
/// any other kind becomes one that carries its text.
pub fn seam(error: Error) -> (res: Error)
    ensures
        res@ == error@.at_the_seam(),
        error is Seam ==> res == error,
{
    match error {
        Error::Seam(message) => Error::Seam(message),
        other => Error::Seam(other.to_string()),
    }
}

/// Check an opened offer against the sender that its envelope declares, and decode its coordinates.
///
/// The sealer vouches for who sealed the offer. That identity must be the declared sender, or a
/// relay could attribute a validly sealed offer to another peer; and the offered store must be that
/// identity's own, so that nobody can offer a store they do not control.
pub fn check_offer(declared_sender: &Did, opened: &OpenedEnvelope) -> (res: Result<StoreCoords>)
    ensures
        crate::error::outcome(res) == flow::trusted_offer(declared_sender@, opened@),
{
    if opened.sender != declared_sender.launcher_id() {
        return Err(
            Error::Invariant("sealed sender does not match the envelope's declared sender DID"),
        );
    }
    let coords = match StoreCoords::from_canonical_bytes(opened.plaintext.as_slice()) {
        Ok(coords) => coords,
        Err(error) => return Err(error),
    };
    if coords.did.launcher_id() != opened.sender {
        return Err(Error::Invariant("offered store DID does not match the authenticated sealer"));
    }
    Ok(coords)
}

broadcast use crate::record::group_follows;

impl<T, S, Sub, P> SocialGraphManager<T, S, Sub, P> where
    T: Transport,
    S: EnvelopeSealer,
    Sub: StoreSubscriber,
    P: Persistence,
 {
    /// A recorded call is one that the seam it belongs to may answer so.
    pub open spec fn answered(call: SeamCall) -> bool {
        match call {
            SeamCall::Send { .. } | SeamCall::IsPeerOnline { .. } => T::answers(call),
            SeamCall::Seal { .. } | SeamCall::Open { .. } => S::answers(call),
            SeamCall::Subscribe { .. } | SeamCall::Unsubscribe { .. } => Sub::answers(call),
            SeamCall::Load { .. } | SeamCall::Store { .. } => P::answers(call),
        }
    }

    /// Between two moments the manager made the calls that were added to its record: each was
    /// answered, and the history of each seam has grown by the calls on that seam and by no other.
    pub open spec fn continues(before: ManagerView, after: ManagerView) -> bool {
        &&& after.follows(before)
        &&& forall|i: int|
            before.calls.len() <= i < after.calls.len() ==> Self::answered(
                #[trigger] after.calls[i],
            )
    }

    /// Build a manager, loading the persisted graph through the [`Persistence`] seam.
    pub fn load(transport: T, sealer: S, subscriber: Sub, persistence: P) -> (res: Result<Self>)
        ensures
            match res {
                Ok(manager) => {
                    let call = SeamCall::Load { reply: Ok(manager@.graph) };
                    &&& manager@ == (ManagerView {
                        graph: manager@.graph,
                        calls: seq![call],
                        transport: transport.history(),
                        sealer: sealer.history(),
                        subscriber: subscriber.history(),
                        persistence: persistence.history().push(call),
                    })
                    &&& Self::answered(call)
                },
                Err(error) => Self::answered((SeamCall::Load { reply: Err(error@) })),
            },
    {
        let mut persistence = persistence;
        match persistence.load() {
            Ok(graph) => {
                let ghost calls = seq![(SeamCall::Load { reply: Ok(graph@) })];
                Ok(
                    SocialGraphManager {
                        transport,
                        sealer,
                        subscriber,
                        persistence,
                        graph,
                        calls: Ghost(calls),
                    },
                )
            },
            Err(error) => Err(error),
        }
    }

    /// The current graph.
    pub fn graph(&self) -> (res: &SocialGraph)
        ensures
            res@ == self@.graph,
    {
        &self.graph
    }

    /// One call was made, and it was answered; the graph is as it was.
    spec fn called(before: Self, after: Self, call: SeamCall) -> bool {
        &&& after@ == before@.called(call)
        &&& Self::answered(call)
    }

    /// Envelope and deliver a message over the transport.
    fn send(&mut self, sender: &Did, recipient: &Did, message: &SocialMessage) -> (res: Result<()>)
        ensures
            ({
                let call = final(self)@.calls.last();
                &&& Self::called(*old(self), *final(self), call)
                &&& call matches SeamCall::Send { envelope, reply }
                &&& envelope == flow::enveloped(sender@, recipient@, message@)
                &&& crate::error::outcome(res) == at_the_seam(reply)
            }),
    {
        let envelope = SealedEnvelope {
            sender: sender.clone(),
            recipient: recipient.clone(),
            payload: message.to_canonical_bytes(),
        };
        let reply = self.transport.send(&envelope);
        let ghost call = SeamCall::Send { envelope: envelope@, reply: crate::error::outcome(reply) };
        self.calls = Ghost(self.calls@.push(call));
        match reply {
            Ok(()) => Ok(()),
            Err(error) => Err(seam(error)),
        }
    }

    /// Ask the transport whether a peer is reachable.
    fn is_online(&mut self, peer: &Did) -> (res: Result<bool>)
        ensures
            ({
                let call = final(self)@.calls.last();
                &&& Self::called(*old(self), *final(self), call)
                &&& call matches SeamCall::IsPeerOnline { peer: asked, reply }
                &&& asked == peer@
                &&& crate::error::outcome(res) == at_the_seam(reply)
            }),
    {
        let reply = self.transport.is_peer_online(peer);
        let ghost call = SeamCall::IsPeerOnline { peer: peer@, reply: crate::error::outcome(reply) };
        self.calls = Ghost(self.calls@.push(call));
        match reply {
            Ok(online) => Ok(online),
            Err(error) => Err(seam(error)),
        }
    }

    /// Begin maintaining a peer's store.
    fn subscribe(&mut self, coords: &StoreCoords) -> (res: Result<()>)
        ensures
            ({
                let call = final(self)@.calls.last();
                &&& Self::called(*old(self), *final(self), call)
                &&& call matches SeamCall::Subscribe { coords: subscribed, reply }
                &&& subscribed == coords@
                &&& crate::error::outcome(res) == at_the_seam(reply)
            }),
    {
        let reply = self.subscriber.subscribe(coords);
        let ghost call = SeamCall::Subscribe { coords: coords@, reply: crate::error::outcome(reply) };
        self.calls = Ghost(self.calls@.push(call));
        match reply {
            Ok(()) => Ok(()),
            Err(error) => Err(seam(error)),
        }
    }

    /// Stop maintaining a peer's store.
    fn unsubscribe(&mut self, coords: &StoreCoords) -> (res: Result<()>)
        ensures
            ({
                let call = final(self)@.calls.last();
                &&& Self::called(*old(self), *final(self), call)
                &&& call matches SeamCall::Unsubscribe { coords: unsubscribed, reply }
                &&& unsubscribed == coords@
                &&& crate::error::outcome(res) == at_the_seam(reply)
            }),
    {
        let reply = self.subscriber.unsubscribe(coords);
        let ghost call = SeamCall::Unsubscribe {
            coords: coords@,
            reply: crate::error::outcome(reply),
        };
        self.calls = Ghost(self.calls@.push(call));
        match reply {
            Ok(()) => Ok(()),
            Err(error) => Err(seam(error)),
        }
    }

    /// Persist the graph through the [`Persistence`] seam.
    fn persist(&mut self) -> (res: Result<()>)
        ensures
            Self::called(
                *old(self),
                *final(self),
                SeamCall::Store { graph: old(self)@.graph, reply: crate::error::outcome(res) },
            ),
    {
        let reply = self.persistence.store(&self.graph);
        let ghost call = SeamCall::Store {
            graph: self.graph@,
            reply: crate::error::outcome(reply),
        };
        self.calls = Ghost(self.calls@.push(call));
        reply
    }

    /// Seal coordinates to a recipient.
    fn seal_offer(&mut self, recipient: &Did, coords: &StoreCoords) -> (res: Result<SealedOffer>)
        ensures
            ({
                let call = final(self)@.calls.last();
                &&& Self::called(*old(self), *final(self), call)
                &&& call matches SeamCall::Seal { recipient: sealed_to, plaintext, reply }
                &&& sealed_to == recipient@
                &&& plaintext == coords@.bytes()
                &&& match at_the_seam(reply) {
                    Ok(ciphertext) => res matches Ok(offer) && offer.ciphertext@ == ciphertext,
                    Err(error) => res matches Err(e) && e@ == error,
                }
            }),
    {
        let plaintext = coords.to_canonical_bytes();
        let reply = self.sealer.seal(recipient, plaintext.as_slice());
        let ghost call = SeamCall::Seal {
            recipient: recipient@,
            plaintext: plaintext@,
            reply: crate::error::outcome(reply),
        };
        self.calls = Ghost(self.calls@.push(call));
        match reply {
            Ok(ciphertext) => Ok(SealedOffer::new(ciphertext)),
            Err(error) => Err(seam(error)),
        }
    }

    /// Open a peer's sealed offer and check it, see [`check_offer`].
    fn open_offer(
        &mut self,
        our_secret: &SecretKey,
        declared_sender: &Did,
        offer: &SealedOffer,
    ) -> (res: Result<StoreCoords>)
        ensures
            ({
                let call = final(self)@.calls.last();
                &&& Self::called(*old(self), *final(self), call)
                &&& call matches SeamCall::Open { our_secret: secret, ciphertext, reply }
                &&& secret == our_secret@
                &&& ciphertext == offer.ciphertext@
                &&& crate::error::outcome(res) == (match at_the_seam(reply) {
                    Ok(opened) => flow::trusted_offer(declared_sender@, opened),
                    Err(error) => Err(error),
                })
            }),
    {
        let reply = self.sealer.open(our_secret, offer.ciphertext.as_slice());
        let ghost call = SeamCall::Open {
            our_secret: our_secret@,
            ciphertext: offer.ciphertext@,
            reply: crate::error::outcome(reply),
        };
        self.calls = Ghost(self.calls@.push(call));
        match reply {
            Ok(opened) => check_offer(declared_sender, &opened),
            Err(error) => Err(seam(error)),
        }
    }

    /// A mutable handle to a known connection, or an error if there is none.
    fn require_connection_mut(&mut self, peer: &Did) -> (res: Result<&mut Connection>)
        ensures
            match res {
                Ok(connection) => {
                    &&& old(self)@.graph.contains_key(peer@.text)
                    &&& connection@ == old(self)@.graph[peer@.text]
                    &&& final(self)@ == old(self)@.with_graph(
                        old(self)@.graph.insert(peer@.text, final(connection)@),
                    )
                },
                Err(error) => {
                    &&& error@ == flow::no_connection()
                    &&& !old(self)@.graph.contains_key(peer@.text)
                    &&& *final(self) == *old(self)
                },
            },
    {
        match self.graph.get_mut(peer) {
            Some(connection) => Ok(connection),
            None => Err(Error::Invariant("no connection tracked for this peer")),
        }
    }

    /// A peer's connection took an event, or the event was refused and the graph is as it was.
    spec fn advances(
        before: Self,
        after: Self,
        res: Result<()>,
        peer: DidView,
        event: ConnectionEvent,
    ) -> bool {
        match flow::advanced(before@.graph, peer, event) {
            Ok(connection) => {
                &&& res is Ok
                &&& after@.graph == before@.graph.insert(peer.text, connection)
            },
            Err(error) => {
                &&& res matches Err(e) && e@ == error
                &&& after@.graph == before@.graph
            },
        }
    }

    /// Advance a peer's connection by one event.
    fn advance(&mut self, peer: &Did, event: ConnectionEvent) -> (res: Result<()>)
        ensures
            final(self)@ == old(self)@.with_graph(final(self)@.graph),
            Self::advances(*old(self), *final(self), res, peer@, event),
    {
        let res = match self.require_connection_mut(peer) {
            Ok(connection) => connection.apply(event),
            Err(error) => Err(error),
        };
        assert(flow::advanced(old(self)@.graph, peer@, event) is Err ==> self@.graph =~= old(
            self,
        )@.graph);
        res
    }

    /// The coordinates of the peer's store, or an error if no request was received.
    fn require_their_store(&self, peer: &Did) -> (res: Result<StoreCoords>)
        ensures
            match flow::store_of(self@.graph, peer@) {
                Some(coords) => res matches Ok(found) && found@ == coords,
                None => res matches Err(error) && error@ == flow::no_inbound_offer(),
            },
    {
        let their_store = match self.graph.get(peer) {
            Some(connection) => connection.their_store(),
            None => None,
        };
        match their_store {
            Some(coords) => Ok(coords),
            None => Err(Error::Invariant("no inbound offer recorded for this peer")),
        }
    }

    /// Deliver a message if the peer is online, else park the connection for rendezvous.
    fn deliver_or_park(
        &mut self,
        sender: &Did,
        recipient: &Did,
        message: &SocialMessage,
        on_delivered: ConnectionEvent,
    ) -> (res: Result<()>)
        ensures
            Self::continues(old(self)@, final(self)@),
            ({
                let graph = old(self)@.graph;
                let calls = final(self)@.calls.skip(old(self)@.calls.len() as int);
                &&& calls.len() > 0
                &&& calls[0] matches SeamCall::IsPeerOnline { peer, reply: online }
                &&& peer == recipient@
                &&& match online {
                    Err(error) => {
                        &&& calls.len() == 1
                        &&& final(self)@.graph == graph
                        &&& crate::error::outcome(res) == Err::<(), _>(error.at_the_seam())
                    },
                    Ok(false) => {
                        &&& calls.len() == 1
                        &&& Self::advances(
                            *old(self),
                            *final(self),
                            res,
                            recipient@,
                            ConnectionEvent::PeerWentOffline,
                        )
                    },
                    Ok(true) => {
                        &&& calls.len() == 2
                        &&& calls[1] matches SeamCall::Send { envelope, reply }
                        &&& envelope == flow::enveloped(sender@, recipient@, message@)
                        &&& match reply {
                            Err(error) => {
                                &&& final(self)@.graph == graph
                                &&& crate::error::outcome(res) == Err::<(), _>(error.at_the_seam())
                            },
                            Ok(_) => Self::advances(
                                *old(self),
                                *final(self),
                                res,
                                recipient@,
                                on_delivered,
                            ),
                        }
                    },
                }
            }),
    {
        let online = match self.is_online(recipient) {
            Ok(online) => online,
            Err(error) => return Err(error),
        };
        if online {
            match self.send(sender, recipient, message) {
                Ok(()) => {},
                Err(error) => return Err(error),
            }
            self.advance(recipient, on_delivered)
        } else {
            self.advance(recipient, ConnectionEvent::PeerWentOffline)
        }
    }

    /// Initiate an outbound connection, presenting the local profile first.
    ///
    /// Seals the local coordinates to the peer, records the intent, and either delivers the request
    /// (peer online) or parks it (peer offline). Persists before returning.
    pub fn request(
        &mut self,
        peer: Did,
        presented_local_did: Did,
        our_coords: StoreCoords,
    ) -> (res: Result<()>)
        ensures
            Self::continues(old(self)@, final(self)@),
            final(self)@.run_since(old(self)@, crate::error::outcome(res)).request(
                peer@,
                presented_local_did@,
                our_coords@,
            ),
    {
        match our_coords.validate() {
            Ok(()) => {},
            Err(error) => return Err(error),
        }
        let offer = match self.seal_offer(&peer, &our_coords) {
            Ok(offer) => offer,
            Err(error) => return Err(error),
        };
        let ghost sealed = self@;
        match self.graph.initiate(peer.clone(), presented_local_did.clone(), our_coords) {
            Ok(_) => {},
            Err(error) => return Err(error),
        }
        let ghost initiated = self@;
        assert(initiated == sealed.with_graph(initiated.graph));
        let message = SocialMessage::Request(ConnectRequest { requestor_offer: offer });
        match self.deliver_or_park(
            &presented_local_did,
            &peer,
            &message,
            ConnectionEvent::RequestDelivered,
        ) {
            Ok(()) => {},
            Err(error) => {
                proof {
                    crate::record::follows_through(old(self)@, initiated, self@);
                }
                return Err(error);
            },
        }
        let ghost delivered = self@;
        let res = self.persist();
        proof {
            crate::record::follows_through(old(self)@, initiated, delivered);
            assert(self@.graph =~= old(self)@.graph.insert(peer@.text, self@.graph[peer@.text]));
        }
        res
    }

    /// Approve an inbound request: seal the selected profile back, record the consent, subscribe to
    /// the peer's store, and deliver the acceptance.
    ///
    /// The transition is validated before the subscription, so an approval that is not legal in the
    /// current state cannot subscribe to the peer's store ahead of the consent.
    pub fn approve(
        &mut self,
        peer: &Did,
        presented_local_did: Did,
        our_coords: StoreCoords,
    ) -> (res: Result<()>)
        ensures
            Self::continues(old(self)@, final(self)@),
            final(self)@.run_since(old(self)@, crate::error::outcome(res)).approve(
                peer@,
                presented_local_did@,
                our_coords@,
            ),
    {
        match our_coords.validate() {
            Ok(()) => {},
            Err(error) => return Err(error),
        }
        let their_store = match self.require_their_store(peer) {
            Ok(coords) => coords,
            Err(error) => return Err(error),
        };
        let offer = match self.seal_offer(peer, &our_coords) {
            Ok(offer) => offer,
            Err(error) => return Err(error),
        };
        match self.consent(peer, presented_local_did.clone(), our_coords) {
            Ok(()) => {},
            Err(error) => return Err(error),
        }
        match self.subscribe(&their_store) {
            Ok(()) => {},
            Err(error) => return Err(error),
        }
        let message = SocialMessage::Accept(ConnectAccept { recipient_offer: offer });
        match self.send(&presented_local_did, peer, &message) {
            Ok(()) => {},
            Err(error) => return Err(error),
        }
        self.persist()
    }

    /// Record an approval: advance the connection and note what is presented to the peer.
    fn consent(&mut self, peer: &Did, presented_local_did: Did, our_coords: StoreCoords) -> (res:
        Result<()>)
        ensures
            final(self)@ == old(self)@.with_graph(final(self)@.graph),
            match flow::advanced(old(self)@.graph, peer@, ConnectionEvent::Approved) {
                Ok(connection) => {
                    &&& res is Ok
                    &&& final(self)@.graph == old(self)@.graph.insert(
                        peer@.text,
                        ConnectionView {
                            presented_local_did: Some(presented_local_did@),
                            our_offer: Some(our_coords@),
                            ..connection
                        },
                    )
                },
                Err(error) => {
                    &&& res matches Err(e) && e@ == error
                    &&& final(self)@.graph == old(self)@.graph
                },
            },
    {
        let res = match self.require_connection_mut(peer) {
            Ok(connection) => match connection.apply(ConnectionEvent::Approved) {
                Ok(()) => {
                    connection.present(presented_local_did, our_coords);
                    Ok(())
                },
                Err(error) => Err(error),
            },
            Err(error) => Err(error),
        };
        assert(res is Err ==> self@.graph =~= old(self)@.graph);
        res
    }

    /// Deny an inbound request: notify the peer and record that consent was withheld.
    pub fn deny(&mut self, peer: &Did, presented_local_did: &Did) -> (res: Result<()>)
        ensures
            Self::continues(old(self)@, final(self)@),
            final(self)@.run_since(old(self)@, crate::error::outcome(res)).deny(peer@, presented_local_did@),
    {
        let message = SocialMessage::Deny(ConnectDeny);
        match self.send(presented_local_did, peer, &message) {
            Ok(()) => {},
            Err(error) => return Err(error),
        }
        match self.advance(peer, ConnectionEvent::Denied) {
            Ok(()) => {},
            Err(error) => return Err(error),
        }
        self.persist()
    }

    /// Revoke a live connection: stop maintaining the peer's store, notify them, and record the
    /// revocation.
    pub fn revoke(&mut self, peer: &Did, presented_local_did: &Did) -> (res: Result<()>)
        ensures
            Self::continues(old(self)@, final(self)@),
            final(self)@.run_since(old(self)@, crate::error::outcome(res)).revoke(peer@, presented_local_did@),
    {
        match self.advance(peer, ConnectionEvent::Revoked) {
            Ok(()) => {},
            Err(error) => return Err(error),
        }
        match self.tear_down_data_plane(peer) {
            Ok(()) => {},
            Err(error) => return Err(error),
        }
        assert(self@.graph =~= old(self)@.graph.insert(peer@.text, self@.graph[peer@.text]));
        let message = SocialMessage::Revoke(Revoke);
        match self.send(presented_local_did, peer, &message) {
            Ok(()) => {},
            Err(error) => return Err(error),
        }
        self.persist()
    }

    /// Stop maintaining a peer's store and drop its coordinates, so that a revoked connection has
    /// no data plane left for a late acceptance to resurrect.
    fn tear_down_data_plane(&mut self, peer: &Did) -> (res: Result<()>)
        requires
            old(self)@.graph.contains_key(peer@.text),
        ensures
            ({
                let connection = old(self)@.graph[peer@.text];
                let torn_down = old(self)@.graph.insert(peer@.text, flow::torn_down(connection));
                match connection.their_store {
                    None => {
                        &&& res is Ok
                        &&& final(self)@ == old(self)@.with_graph(torn_down)
                    },
                    Some(their_store) => {
                        let call = final(self)@.calls.last();
                        &&& final(self)@ == old(self)@.called(call).with_graph(final(self)@.graph)
                        &&& Self::answered(call)
                        &&& call matches SeamCall::Unsubscribe { coords, reply }
                        &&& coords == their_store
                        &&& crate::error::outcome(res) == at_the_seam(reply)
                        &&& final(self)@.graph == (if reply is Ok {
                            torn_down
                        } else {
                            old(self)@.graph
                        })
                    },
                }
            }),
    {
        let their_store = match self.graph.get(peer) {
            Some(connection) => connection.their_store(),
            None => None,
        };
        match &their_store {
            Some(coords) => match self.unsubscribe(coords) {
                Ok(()) => {},
                Err(error) => return Err(error),
            },
            None => {},
        }
        match self.graph.get_mut(peer) {
            Some(connection) => {
                connection.locate(None);
            },
            None => {},
        }
        Ok(())
    }

    /// Resume a parked connection once the peer is back online.
    pub fn resume_peer(&mut self, peer: &Did) -> (res: Result<()>)
        ensures
            Self::continues(old(self)@, final(self)@),
            final(self)@.run_since(old(self)@, crate::error::outcome(res)).resume(peer@),
    {
        match self.advance(peer, ConnectionEvent::PeerCameOnline) {
            Ok(()) => {},
            Err(error) => return Err(error),
        }
        self.persist()
    }

    /// Handle an inbound envelope from a peer, dispatching on the message kind.
    ///
    /// `our_secret` is our identity key, needed to open an offer that the message carries; the
    /// application supplies it per call and the core does not retain it.
    pub fn handle_incoming(&mut self, our_secret: &SecretKey, envelope: &SealedEnvelope) -> (res:
        Result<()>)
        ensures
            Self::continues(old(self)@, final(self)@),
            final(self)@.run_since(old(self)@, crate::error::outcome(res)).incoming(our_secret@, envelope@),
    {
        let message = match SocialMessage::from_canonical_bytes(envelope.payload.as_slice()) {
            Ok(message) => message,
            Err(error) => return Err(error),
        };
        match &message {
            SocialMessage::Request(request) => {
                self.on_request(our_secret, &envelope.sender, request)
            },
            SocialMessage::Accept(accept) => self.on_accept(our_secret, &envelope.sender, accept),
            SocialMessage::Deny(_) => self.on_deny(&envelope.sender),
            SocialMessage::Revoke(_) => self.on_revoke(&envelope.sender),
        }
    }

    /// Record an inbound request: open and check the peer's offer, and await consent.
    fn on_request(&mut self, our_secret: &SecretKey, sender: &Did, request: &ConnectRequest) -> (res:
        Result<()>)
        ensures
            Self::continues(old(self)@, final(self)@),
            final(self)@.run_since(old(self)@, crate::error::outcome(res)).on_request(
                our_secret@,
                sender@,
                request.requestor_offer.ciphertext@,
            ),
    {
        let their_store = match self.open_offer(our_secret, sender, &request.requestor_offer) {
            Ok(coords) => coords,
            Err(error) => return Err(error),
        };
        let ghost opened = self@;
        match self.graph.receive_request(sender.clone(), their_store) {
            Ok(_) => {},
            Err(error) => return Err(error),
        }
        assert(self@ == opened.with_graph(self@.graph));
        self.persist()
    }

    /// Complete an outbound handshake: open the peer's offer, subscribe, mark the connection live.
    ///
    /// The transition is validated before the subscription: a replayed or injected acceptance on an
    /// ineligible connection must not subscribe. It is recorded after the subscription: a connection
    /// is live only once the peer's store is subscribed to.
    fn on_accept(&mut self, our_secret: &SecretKey, sender: &Did, accept: &ConnectAccept) -> (res:
        Result<()>)
        ensures
            Self::continues(old(self)@, final(self)@),
            final(self)@.run_since(old(self)@, crate::error::outcome(res)).on_accept(
                our_secret@,
                sender@,
                accept.recipient_offer.ciphertext@,
            ),
    {
        let their_store = match self.open_offer(our_secret, sender, &accept.recipient_offer) {
            Ok(coords) => coords,
            Err(error) => return Err(error),
        };
        match self.require_acceptable(sender) {
            Ok(()) => {},
            Err(error) => return Err(error),
        }
        match self.subscribe(&their_store) {
            Ok(()) => {},
            Err(error) => return Err(error),
        }
        match self.complete(sender, &their_store) {
            Ok(()) => {},
            Err(error) => return Err(error),
        }
        self.persist()
    }

    /// Whether an acceptance is legal from this sender now, or the error that it is refused with.
    fn require_acceptable(&self, sender: &Did) -> (res: Result<()>)
        ensures
            match flow::advanced(self@.graph, sender@, ConnectionEvent::AcceptReceived) {
                Ok(_) => res is Ok,
                Err(error) => res matches Err(e) && e@ == error,
            },
    {
        match self.graph.get(sender) {
            Some(connection) => match connection.state().apply(ConnectionEvent::AcceptReceived) {
                Ok(_) => Ok(()),
                Err(error) => Err(error),
            },
            None => Err(Error::Invariant("no connection tracked for this peer")),
        }
    }

    /// Record an acceptance: advance the connection and note where the peer's store is.
    fn complete(&mut self, sender: &Did, their_store: &StoreCoords) -> (res: Result<()>)
        ensures
            final(self)@ == old(self)@.with_graph(final(self)@.graph),
            match flow::advanced(old(self)@.graph, sender@, ConnectionEvent::AcceptReceived) {
                Ok(connection) => {
                    &&& res is Ok
                    &&& final(self)@.graph == old(self)@.graph.insert(
                        sender@.text,
                        ConnectionView { their_store: Some(their_store@), ..connection },
                    )
                },
                Err(error) => {
                    &&& res matches Err(e) && e@ == error
                    &&& final(self)@.graph == old(self)@.graph
                },
            },
    {
        let res = match self.require_connection_mut(sender) {
            Ok(connection) => match connection.apply(ConnectionEvent::AcceptReceived) {
                Ok(()) => {
                    connection.locate(Some(their_store.clone()));
                    Ok(())
                },
                Err(error) => Err(error),
            },
            Err(error) => Err(error),
        };
        assert(res is Err ==> self@.graph =~= old(self)@.graph);
        res
    }

    /// Record an inbound denial.
    fn on_deny(&mut self, sender: &Did) -> (res: Result<()>)
        ensures
            Self::continues(old(self)@, final(self)@),
            final(self)@.run_since(old(self)@, crate::error::outcome(res)).advances(0, sender@, ConnectionEvent::Denied),
    {
        match self.advance(sender, ConnectionEvent::Denied) {
            Ok(()) => {},
            Err(error) => return Err(error),
        }
        self.persist()
    }

    /// Record an inbound revocation: mark the connection revoked, then tear down its data plane.
    fn on_revoke(&mut self, sender: &Did) -> (res: Result<()>)
        ensures
            Self::continues(old(self)@, final(self)@),
            final(self)@.run_since(old(self)@, crate::error::outcome(res)).on_revoke(sender@),
    {
        match self.advance(sender, ConnectionEvent::Revoked) {
            Ok(()) => {},
            Err(error) => return Err(error),
        }
        match self.tear_down_data_plane(sender) {
            Ok(()) => {},
            Err(error) => return Err(error),
        }
        assert(self@.graph =~= old(self)@.graph.insert(sender@.text, self@.graph[sender@.text]));
        self.persist()
    }
}

} // verus!
