//! End-to-end orchestration over in-memory seams: the manager seals offers, drives subscriptions,
//! delivers messages, parks/resumes on presence, and persists — all without any real I/O.

use std::cell::{Cell, RefCell};
use std::rc::Rc;

use chia_sdk_utils::Address;
use dig_identity::bls::master_secret_key_from_seed;
use dig_social_graph::manager::{check_offer, seam};
use dig_social_graph::{
    Bytes32, ConnectionState, Did, EnvelopeSealer, Error, OpenedEnvelope, Persistence, Result,
    SealedEnvelope, SecretKey, SocialGraph, SocialGraphManager, SocialMessage, StoreCoords,
    StoreSubscriber, Suspended, Transport,
};

/// Mint a well-formed `did:chia:` DID from a single filler byte.
fn make_did(filler: u8) -> Did {
    let launcher = dig_identity::Bytes32::new([filler; 32]);
    let text = Address::new(launcher, "did:chia:".to_string())
        .encode()
        .expect("encodes a did:chia: address");
    Did::parse(&text).expect("parses the minted did")
}

/// A deterministic identity secret key, standing in for the key that the application holds.
fn make_secret(filler: u8) -> SecretKey {
    SecretKey::from_bytes(&master_secret_key_from_seed(&[filler; 32]).to_bytes())
        .expect("a derived key is a secret key")
}

/// Coordinates for a DID with a committed root filled from `root_filler`.
fn make_coords(did: &Did, root_filler: u8) -> StoreCoords {
    StoreCoords::from_did(did.clone(), Bytes32::from([root_filler; 32]))
}

/// A transport double: records sent envelopes and reports a toggleable peer-online flag.
#[derive(Clone, Default)]
struct MockTransport {
    sent: Rc<RefCell<Vec<SealedEnvelope>>>,
    online: Rc<Cell<bool>>,
}

impl MockTransport {
    /// A transport whose peer is online.
    fn online() -> Self {
        let t = Self::default();
        t.online.set(true);
        t
    }
}

impl Transport for MockTransport {
    fn send(&mut self, envelope: &SealedEnvelope) -> Result<()> {
        self.sent.borrow_mut().push(envelope.clone());
        Ok(())
    }

    fn is_peer_online(&mut self, _peer: &Did) -> Result<bool> {
        Ok(self.online.get())
    }
}

/// A subscriber double: records subscribe/unsubscribe calls in order.
#[derive(Clone, Default)]
struct MockSubscriber {
    subscribed: Rc<RefCell<Vec<StoreCoords>>>,
    unsubscribed: Rc<RefCell<Vec<StoreCoords>>>,
    fail: Rc<Cell<bool>>,
}

impl StoreSubscriber for MockSubscriber {
    fn subscribe(&mut self, coords: &StoreCoords) -> Result<()> {
        if self.fail.get() {
            return Err(Error::Seam("chain unreachable".into()));
        }
        self.subscribed.borrow_mut().push(coords.clone());
        Ok(())
    }

    fn unsubscribe(&mut self, coords: &StoreCoords) -> Result<()> {
        self.unsubscribed.borrow_mut().push(coords.clone());
        Ok(())
    }
}

/// A persistence double: keeps the last stored graph in memory.
#[derive(Clone, Default)]
struct MemPersistence {
    saved: Rc<RefCell<SocialGraph>>,
    fail: Rc<Cell<bool>>,
}

impl Persistence for MemPersistence {
    fn load(&mut self) -> Result<SocialGraph> {
        Ok(self.saved.borrow().clone())
    }

    fn store(&mut self, graph: &SocialGraph) -> Result<()> {
        if self.fail.get() {
            return Err(Error::Seam("persistence disabled".into()));
        }
        *self.saved.borrow_mut() = graph.clone();
        Ok(())
    }
}

/// A sealer double: a "sealed" offer is exactly its canonical coordinate bytes, and opening it
/// attributes it to the DID that the coordinates name.
#[derive(Clone, Default)]
struct PassthroughSealer;

impl EnvelopeSealer for PassthroughSealer {
    fn seal(&mut self, _recipient: &Did, plaintext: &[u8]) -> Result<Vec<u8>> {
        Ok(plaintext.to_vec())
    }

    fn open(&mut self, _our_secret: &SecretKey, ciphertext: &[u8]) -> Result<OpenedEnvelope> {
        let coords = StoreCoords::from_canonical_bytes(ciphertext)?;
        Ok(OpenedEnvelope {
            sender: coords.did.launcher_id(),
            plaintext: ciphertext.to_vec(),
        })
    }
}

type Mgr = SocialGraphManager<MockTransport, PassthroughSealer, MockSubscriber, MemPersistence>;

/// Build a manager plus handles to the seam doubles for assertions.
fn manager(online: bool) -> (Mgr, MockTransport, MockSubscriber, MemPersistence) {
    let transport = if online {
        MockTransport::online()
    } else {
        MockTransport::default()
    };
    let subscriber = MockSubscriber::default();
    let persistence = MemPersistence::default();
    let mgr = SocialGraphManager::load(
        transport.clone(),
        PassthroughSealer,
        subscriber.clone(),
        persistence.clone(),
    )
    .unwrap();
    (mgr, transport, subscriber, persistence)
}

/// The offer sealed inside the single sent message, decoded back to coordinates (passthrough sealer).
fn sent_offer_coords(transport: &MockTransport) -> StoreCoords {
    let sent = transport.sent.borrow();
    let envelope = sent.last().expect("a message was sent");
    match SocialMessage::from_canonical_bytes(&envelope.payload).unwrap() {
        SocialMessage::Request(r) => {
            StoreCoords::from_canonical_bytes(&r.requestor_offer.ciphertext).unwrap()
        }
        SocialMessage::Accept(a) => {
            StoreCoords::from_canonical_bytes(&a.recipient_offer.ciphertext).unwrap()
        }
        other => panic!("expected an offer-bearing message, got {other:?}"),
    }
}

#[test]
fn outbound_request_online_offers_first_and_delivers() {
    let (mut mgr, transport, _sub, persistence) = manager(true);
    let me = make_did(0x01);
    let peer = make_did(0x02);
    let my_coords = make_coords(&me, 0xAA);

    mgr.request(peer.clone(), me.clone(), my_coords.clone())
        .unwrap();

    let conn = mgr.graph().get(&peer).unwrap();
    assert_eq!(conn.state(), ConnectionState::RequestorOffered);
    assert_eq!(conn.presented_local_did.as_ref(), Some(&me));
    // Offer-first: our own coordinates were the thing offered.
    assert_eq!(sent_offer_coords(&transport), my_coords);
    // Persisted.
    assert_eq!(persistence.saved.borrow().len(), 1);
}

#[test]
fn outbound_request_offline_parks_for_rendezvous_then_resumes() {
    let (mut mgr, transport, _sub, _p) = manager(false);
    let me = make_did(0x01);
    let peer = make_did(0x02);

    mgr.request(peer.clone(), me.clone(), make_coords(&me, 0xAA))
        .unwrap();
    assert!(matches!(
        mgr.graph().get(&peer).unwrap().state(),
        ConnectionState::PendingRendezvous(_)
    ));
    assert!(transport.sent.borrow().is_empty(), "offline: nothing sent");

    mgr.resume_peer(&peer).unwrap();
    assert_eq!(
        mgr.graph().get(&peer).unwrap().state(),
        ConnectionState::Requested
    );
}

#[test]
fn cannot_request_the_same_peer_twice() {
    let (mut mgr, _t, _s, _p) = manager(true);
    let me = make_did(0x01);
    let peer = make_did(0x02);
    mgr.request(peer.clone(), me.clone(), make_coords(&me, 0xAA))
        .unwrap();
    assert!(mgr
        .request(peer, me.clone(), make_coords(&me, 0xAA))
        .is_err());
}

#[test]
fn inbound_request_then_approve_subscribes_and_offers_back() {
    let (mut mgr, transport, subscriber, _p) = manager(true);
    let me = make_did(0x01);
    let peer = make_did(0x02);
    let their_coords = make_coords(&peer, 0xBB);
    let my_coords = make_coords(&me, 0xAA);

    // Peer's request arrives (offer sealed = canonical coords via passthrough).
    let request = SocialMessage::Request(dig_social_graph::ConnectRequest {
        requestor_offer: dig_social_graph::SealedOffer::new(their_coords.to_canonical_bytes()),
    });
    let envelope = SealedEnvelope {
        sender: peer.clone(),
        recipient: me.clone(),
        payload: request.to_canonical_bytes(),
    };
    mgr.handle_incoming(&make_secret(0x01), &envelope).unwrap();
    assert_eq!(
        mgr.graph().get(&peer).unwrap().state(),
        ConnectionState::AwaitingRecipientSelect
    );

    // Approve: subscribe to their store, offer ours back.
    mgr.approve(&peer, me.clone(), my_coords.clone()).unwrap();
    let conn = mgr.graph().get(&peer).unwrap();
    assert_eq!(conn.state(), ConnectionState::RecipientOffered);
    assert_eq!(conn.their_store.as_ref(), Some(&their_coords));
    assert_eq!(subscriber.subscribed.borrow().as_slice(), &[their_coords]);
    assert_eq!(sent_offer_coords(&transport), my_coords);
}

#[test]
fn approve_without_inbound_request_is_rejected() {
    let (mut mgr, _t, _s, _p) = manager(true);
    let me = make_did(0x01);
    let peer = make_did(0x02);
    assert!(mgr
        .approve(&peer, me.clone(), make_coords(&me, 0xAA))
        .is_err());
}

#[test]
fn outbound_accept_received_reaches_connected_and_subscribes() {
    let (mut mgr, _t, subscriber, _p) = manager(true);
    let me = make_did(0x01);
    let peer = make_did(0x02);
    let their_coords = make_coords(&peer, 0xBB);

    mgr.request(peer.clone(), me.clone(), make_coords(&me, 0xAA))
        .unwrap();

    let accept = SocialMessage::Accept(dig_social_graph::ConnectAccept {
        recipient_offer: dig_social_graph::SealedOffer::new(their_coords.to_canonical_bytes()),
    });
    let envelope = SealedEnvelope {
        sender: peer.clone(),
        recipient: me.clone(),
        payload: accept.to_canonical_bytes(),
    };
    mgr.handle_incoming(&make_secret(0x01), &envelope).unwrap();

    let conn = mgr.graph().get(&peer).unwrap();
    assert_eq!(conn.state(), ConnectionState::Connected);
    assert_eq!(conn.their_store.as_ref(), Some(&their_coords));
    assert_eq!(subscriber.subscribed.borrow().len(), 1);
}

#[test]
fn revoke_unsubscribes_and_terminates() {
    let (mut mgr, _t, subscriber, _p) = manager(true);
    let me = make_did(0x01);
    let peer = make_did(0x02);
    let their_coords = make_coords(&peer, 0xBB);

    // Drive to Connected as the requestor.
    mgr.request(peer.clone(), me.clone(), make_coords(&me, 0xAA))
        .unwrap();
    let accept = SocialMessage::Accept(dig_social_graph::ConnectAccept {
        recipient_offer: dig_social_graph::SealedOffer::new(their_coords.to_canonical_bytes()),
    });
    mgr.handle_incoming(
        &make_secret(0x01),
        &SealedEnvelope {
            sender: peer.clone(),
            recipient: me.clone(),
            payload: accept.to_canonical_bytes(),
        },
    )
    .unwrap();

    mgr.revoke(&peer, &me).unwrap();
    assert_eq!(
        mgr.graph().get(&peer).unwrap().state(),
        ConnectionState::Revoked
    );
    assert_eq!(subscriber.unsubscribed.borrow().as_slice(), &[their_coords]);
}

#[test]
fn inbound_deny_terminates_outbound_connection() {
    let (mut mgr, _t, _s, _p) = manager(true);
    let me = make_did(0x01);
    let peer = make_did(0x02);
    mgr.request(peer.clone(), me.clone(), make_coords(&me, 0xAA))
        .unwrap();

    let deny = SocialMessage::Deny(dig_social_graph::ConnectDeny);
    mgr.handle_incoming(
        &make_secret(0x01),
        &SealedEnvelope {
            sender: peer.clone(),
            recipient: me.clone(),
            payload: deny.to_canonical_bytes(),
        },
    )
    .unwrap();
    assert_eq!(
        mgr.graph().get(&peer).unwrap().state(),
        ConnectionState::Denied
    );
}

#[test]
fn local_deny_notifies_and_terminates() {
    let (mut mgr, transport, _s, _p) = manager(true);
    let me = make_did(0x01);
    let peer = make_did(0x02);
    let their_coords = make_coords(&peer, 0xBB);
    mgr.handle_incoming(
        &make_secret(0x01),
        &SealedEnvelope {
            sender: peer.clone(),
            recipient: me.clone(),
            payload: SocialMessage::Request(dig_social_graph::ConnectRequest {
                requestor_offer: dig_social_graph::SealedOffer::new(
                    their_coords.to_canonical_bytes(),
                ),
            })
            .to_canonical_bytes(),
        },
    )
    .unwrap();

    mgr.deny(&peer, &me).unwrap();
    assert_eq!(
        mgr.graph().get(&peer).unwrap().state(),
        ConnectionState::Denied
    );
    assert!(matches!(
        SocialMessage::from_canonical_bytes(&transport.sent.borrow().last().unwrap().payload)
            .unwrap(),
        SocialMessage::Deny(_)
    ));
}

#[test]
fn persistence_failure_surfaces() {
    let (mut mgr, _t, _s, persistence) = manager(true);
    let me = make_did(0x01);
    let peer = make_did(0x02);
    persistence.fail.set(true);
    assert!(mgr
        .request(peer, me.clone(), make_coords(&me, 0xAA))
        .is_err());
}

/// An accept envelope from `peer` to `me` offering `their_coords` (passthrough-sealed).
fn accept_envelope(
    peer: &dig_social_graph::Did,
    me: &dig_social_graph::Did,
    their: &StoreCoords,
) -> SealedEnvelope {
    SealedEnvelope {
        sender: peer.clone(),
        recipient: me.clone(),
        payload: SocialMessage::Accept(dig_social_graph::ConnectAccept {
            recipient_offer: dig_social_graph::SealedOffer::new(their.to_canonical_bytes()),
        })
        .to_canonical_bytes(),
    }
}

/// A request envelope from `peer` to `me` offering `their_coords` (passthrough-sealed).
fn request_envelope(
    peer: &dig_social_graph::Did,
    me: &dig_social_graph::Did,
    their: &StoreCoords,
) -> SealedEnvelope {
    SealedEnvelope {
        sender: peer.clone(),
        recipient: me.clone(),
        payload: SocialMessage::Request(dig_social_graph::ConnectRequest {
            requestor_offer: dig_social_graph::SealedOffer::new(their.to_canonical_bytes()),
        })
        .to_canonical_bytes(),
    }
}

/// Guard before side effect: a replayed Accept AFTER revoke must NOT re-subscribe —
/// the transition is illegal in `Revoked`, so the subscribe side-effect never fires and the revoked
/// connection's data-plane is not resurrected.
#[test]
fn replayed_accept_after_revoke_does_not_resubscribe() {
    let (mut mgr, _t, subscriber, _p) = manager(true);
    let me = make_did(0x01);
    let peer = make_did(0x02);
    let their_coords = make_coords(&peer, 0xBB);

    mgr.request(peer.clone(), me.clone(), make_coords(&me, 0xAA))
        .unwrap();
    let accept = accept_envelope(&peer, &me, &their_coords);
    mgr.handle_incoming(&make_secret(0x01), &accept).unwrap();
    mgr.revoke(&peer, &me).unwrap();

    let subscribes_after_revoke = subscriber.subscribed.borrow().len();
    // Replay the exact same Accept the peer sent earlier.
    assert!(mgr.handle_incoming(&make_secret(0x01), &accept).is_err());
    assert_eq!(
        subscriber.subscribed.borrow().len(),
        subscribes_after_revoke,
        "a replayed Accept on a Revoked connection must not subscribe"
    );
    assert_eq!(
        mgr.graph().get(&peer).unwrap().state(),
        ConnectionState::Revoked
    );
}

/// Consent gate: an Accept injected while the connection is still awaiting the local
/// user's approval must NOT subscribe — the transition is illegal pre-consent.
#[test]
fn accept_before_consent_does_not_subscribe() {
    let (mut mgr, _t, subscriber, _p) = manager(true);
    let me = make_did(0x01);
    let peer = make_did(0x02);
    let their_coords = make_coords(&peer, 0xBB);

    // Inbound request → AwaitingRecipientSelect (not yet approved).
    mgr.handle_incoming(
        &make_secret(0x01),
        &request_envelope(&peer, &me, &their_coords),
    )
    .unwrap();
    assert_eq!(
        mgr.graph().get(&peer).unwrap().state(),
        ConnectionState::AwaitingRecipientSelect
    );

    // An injected Accept must be rejected without any subscribe.
    assert!(mgr
        .handle_incoming(
            &make_secret(0x01),
            &accept_envelope(&peer, &me, &their_coords)
        )
        .is_err());
    assert!(subscriber.subscribed.borrow().is_empty());
    assert_eq!(
        mgr.graph().get(&peer).unwrap().state(),
        ConnectionState::AwaitingRecipientSelect
    );
}

/// Revoke clears `their_store`, so a revoked connection has no data-plane
/// coordinates left for a late/replayed Accept to resurrect.
#[test]
fn revoke_clears_their_store() {
    let (mut mgr, _t, _s, _p) = manager(true);
    let me = make_did(0x01);
    let peer = make_did(0x02);
    let their_coords = make_coords(&peer, 0xBB);

    mgr.request(peer.clone(), me.clone(), make_coords(&me, 0xAA))
        .unwrap();
    mgr.handle_incoming(
        &make_secret(0x01),
        &accept_envelope(&peer, &me, &their_coords),
    )
    .unwrap();
    assert!(mgr.graph().get(&peer).unwrap().their_store.is_some());

    mgr.revoke(&peer, &me).unwrap();
    assert!(
        mgr.graph().get(&peer).unwrap().their_store.is_none(),
        "revoke must clear their_store"
    );
}

/// A request to an envelope declared by someone other than the sealer is refused.
#[test]
fn an_offer_of_another_sealer_is_refused() {
    let (mut mgr, _t, subscriber, persistence) = manager(true);
    let me = make_did(0x01);
    let peer = make_did(0x02);
    let stranger = make_did(0x03);
    let envelope = request_envelope(&stranger, &me, &make_coords(&peer, 0xBB));
    match mgr.handle_incoming(&make_secret(0x01), &envelope) {
        Err(Error::Invariant(text)) => assert_eq!(
            text,
            "sealed sender does not match the envelope's declared sender DID"
        ),
        other => panic!("expected a refusal, got {other:?}"),
    }
    assert!(mgr.graph().is_empty());
    assert!(subscriber.subscribed.borrow().is_empty());
    assert!(persistence.saved.borrow().is_empty());
}

/// The three checks on an opened offer, each with the input that fails it.
#[test]
fn check_offer_makes_its_checks_in_order() {
    let peer = make_did(0x02);
    let victim = make_did(0x05);
    let opened = |sender: &Did, plaintext: Vec<u8>| OpenedEnvelope {
        sender: sender.launcher_id(),
        plaintext,
    };
    let own = make_coords(&peer, 0xBB);
    assert_eq!(
        check_offer(&peer, &opened(&peer, own.to_canonical_bytes())).unwrap(),
        own
    );
    match check_offer(&peer, &opened(&victim, vec![0xFF])) {
        Err(Error::Invariant(text)) => assert_eq!(
            text,
            "sealed sender does not match the envelope's declared sender DID"
        ),
        other => panic!("expected a refusal, got {other:?}"),
    }
    match check_offer(&peer, &opened(&peer, vec![0xFF])) {
        Err(Error::Wire(text)) => assert_eq!(text, "truncated: missing did length prefix"),
        other => panic!("expected a wire error, got {other:?}"),
    }
    let foreign = make_coords(&victim, 0xBB).to_canonical_bytes();
    match check_offer(&peer, &opened(&peer, foreign)) {
        Err(Error::Invariant(text)) => assert_eq!(
            text,
            "offered store DID does not match the authenticated sealer"
        ),
        other => panic!("expected a refusal, got {other:?}"),
    }
}

/// Coordinates whose launcher id is not their DID's own are refused before anything happens.
#[test]
fn unpaired_coordinates_are_not_offered() {
    let (mut mgr, transport, _s, persistence) = manager(true);
    let me = make_did(0x01);
    let peer = make_did(0x02);
    let bogus = StoreCoords {
        did: me.clone(),
        launcher_id: Bytes32::from([0xEE; 32]),
        committed_root: Bytes32::from([0xAA; 32]),
    };
    assert!(matches!(
        mgr.request(peer.clone(), me.clone(), bogus.clone()),
        Err(Error::Invariant(_))
    ));
    assert!(matches!(
        mgr.approve(&peer, me.clone(), bogus),
        Err(Error::Invariant(_))
    ));
    assert!(mgr.graph().is_empty());
    assert!(transport.sent.borrow().is_empty());
    assert!(persistence.saved.borrow().is_empty());
}

/// The refusals for a peer that the graph does not know.
#[test]
fn unknown_peers_are_refused_with_a_reason() {
    let (mut mgr, transport, _s, _p) = manager(true);
    let me = make_did(0x01);
    let peer = make_did(0x02);
    let text = |res: Result<()>| match res {
        Err(Error::Invariant(text)) => text,
        other => panic!("expected a refusal, got {other:?}"),
    };
    assert_eq!(
        text(mgr.approve(&peer, me.clone(), make_coords(&me, 0xAA))),
        "no inbound offer recorded for this peer"
    );
    assert_eq!(
        text(mgr.revoke(&peer, &me)),
        "no connection tracked for this peer"
    );
    assert_eq!(
        text(mgr.resume_peer(&peer)),
        "no connection tracked for this peer"
    );
    assert!(transport.sent.borrow().is_empty());
    // A denial is announced before it is recorded.
    assert_eq!(
        text(mgr.deny(&peer, &me)),
        "no connection tracked for this peer"
    );
    assert_eq!(transport.sent.borrow().len(), 1);
}

/// A malformed payload is a wire error and changes nothing.
#[test]
fn a_malformed_payload_is_refused() {
    let (mut mgr, _t, _s, _p) = manager(true);
    let envelope = SealedEnvelope {
        sender: make_did(0x02),
        recipient: make_did(0x01),
        payload: vec![9],
    };
    assert!(matches!(
        mgr.handle_incoming(&make_secret(0x01), &envelope),
        Err(Error::Wire("unknown message kind tag"))
    ));
    assert!(mgr.graph().is_empty());
}

/// An inbound revocation unsubscribes, forgets the store, and is persisted; a second is refused.
#[test]
fn inbound_revoke_tears_down_the_data_plane() {
    let (mut mgr, transport, subscriber, persistence) = manager(true);
    let me = make_did(0x01);
    let peer = make_did(0x02);
    let their_coords = make_coords(&peer, 0xBB);
    mgr.request(peer.clone(), me.clone(), make_coords(&me, 0xAA))
        .unwrap();
    mgr.handle_incoming(
        &make_secret(0x01),
        &accept_envelope(&peer, &me, &their_coords),
    )
    .unwrap();
    let sent = transport.sent.borrow().len();
    let revoke = SealedEnvelope {
        sender: peer.clone(),
        recipient: me.clone(),
        payload: SocialMessage::Revoke(dig_social_graph::Revoke).to_canonical_bytes(),
    };
    mgr.handle_incoming(&make_secret(0x01), &revoke).unwrap();
    let connection = mgr.graph().get(&peer).unwrap();
    assert_eq!(connection.state(), ConnectionState::Revoked);
    assert_eq!(connection.their_store, None);
    assert_eq!(subscriber.unsubscribed.borrow().as_slice(), &[their_coords]);
    assert_eq!(transport.sent.borrow().len(), sent, "nothing is sent back");
    assert_eq!(&*persistence.saved.borrow(), mgr.graph());

    let before = mgr.graph().clone();
    assert!(matches!(
        mgr.handle_incoming(&make_secret(0x01), &revoke),
        Err(Error::IllegalTransition { .. })
    ));
    assert_eq!(mgr.graph(), &before);
}

/// An operation on one peer leaves the others alone.
#[test]
fn other_peers_are_left_alone() {
    let (mut mgr, _t, _s, _p) = manager(true);
    let me = make_did(0x01);
    let a = make_did(0x02);
    let b = make_did(0x03);
    mgr.request(a.clone(), me.clone(), make_coords(&me, 0xAA))
        .unwrap();
    let before = mgr.graph().get(&a).unwrap().clone();
    mgr.handle_incoming(
        &make_secret(0x01),
        &request_envelope(&b, &me, &make_coords(&b, 0xBB)),
    )
    .unwrap();
    mgr.deny(&b, &me).unwrap();
    assert_eq!(mgr.graph().get(&a).unwrap(), &before);
}

/// A seam whose every call fails, with an error that is not a seam failure.
struct BrokenSeam;

impl Transport for BrokenSeam {
    fn send(&mut self, _envelope: &SealedEnvelope) -> Result<()> {
        Err(Error::Wire("cut"))
    }

    fn is_peer_online(&mut self, _peer: &Did) -> Result<bool> {
        Err(Error::Invariant("asleep"))
    }
}

/// An acceptance whose subscription fails leaves the connection as it was: not live, with no store
/// on record and nothing persisted. The same acceptance completes it once the subscriber is back.
#[test]
fn an_acceptance_without_a_subscription_does_not_connect() {
    let (mut mgr, transport, subscriber, persistence) = manager(true);
    let me = make_did(0x01);
    let peer = make_did(0x02);
    let their_coords = make_coords(&peer, 0xBB);
    mgr.request(peer.clone(), me.clone(), make_coords(&me, 0xAA))
        .unwrap();
    let before = mgr.graph().clone();
    let sent = transport.sent.borrow().len();
    let accept = accept_envelope(&peer, &me, &their_coords);

    subscriber.fail.set(true);
    match mgr.handle_incoming(&make_secret(0x01), &accept) {
        Err(Error::Seam(text)) => assert_eq!(text, "chain unreachable"),
        other => panic!("expected a seam failure, got {other:?}"),
    }
    let connection = mgr.graph().get(&peer).unwrap();
    assert_eq!(connection.state(), ConnectionState::RequestorOffered);
    assert_eq!(connection.their_store, None);
    assert_eq!(mgr.graph(), &before);
    assert_eq!(&*persistence.saved.borrow(), &before);
    assert!(subscriber.subscribed.borrow().is_empty());

    subscriber.fail.set(false);
    mgr.handle_incoming(&make_secret(0x01), &accept).unwrap();
    let connection = mgr.graph().get(&peer).unwrap();
    assert_eq!(connection.state(), ConnectionState::Connected);
    assert_eq!(connection.their_store, Some(their_coords.clone()));
    assert_eq!(subscriber.subscribed.borrow().as_slice(), &[their_coords]);
    assert_eq!(&*persistence.saved.borrow(), mgr.graph());
    assert_eq!(transport.sent.borrow().len(), sent, "nothing is sent back");
}

/// An approval whose subscription fails sends no acceptance.
#[test]
fn an_approval_without_a_subscription_is_not_sent() {
    let (mut mgr, transport, subscriber, _p) = manager(true);
    let me = make_did(0x01);
    let peer = make_did(0x02);
    mgr.handle_incoming(
        &make_secret(0x01),
        &request_envelope(&peer, &me, &make_coords(&peer, 0xBB)),
    )
    .unwrap();
    subscriber.fail.set(true);
    assert!(matches!(
        mgr.approve(&peer, me.clone(), make_coords(&me, 0xAA)),
        Err(Error::Seam(_))
    ));
    assert!(transport.sent.borrow().is_empty());
}

/// What comes out of a seam is passed on as a seam failure, with its text.
#[test]
fn seam_errors_are_passed_on_as_seam_failures() {
    let me = make_did(0x01);
    let peer = make_did(0x02);
    let mut mgr = SocialGraphManager::load(
        BrokenSeam,
        PassthroughSealer,
        MockSubscriber::default(),
        MemPersistence::default(),
    )
    .unwrap();
    match mgr.request(peer.clone(), me.clone(), make_coords(&me, 0xAA)) {
        Err(Error::Seam(text)) => assert_eq!(text, "invariant violated: asleep"),
        other => panic!("expected a seam failure, got {other:?}"),
    }
    // The intent is on record in memory, undelivered.
    assert_eq!(
        mgr.graph().get(&peer).unwrap().state(),
        ConnectionState::Requested
    );
    match mgr.deny(&peer, &me) {
        Err(Error::Seam(text)) => assert_eq!(text, "malformed wire bytes: cut"),
        other => panic!("expected a seam failure, got {other:?}"),
    }
}

/// An offline request that is resumed is as fresh as it was.
#[test]
fn a_resumed_request_is_as_it_was() {
    let (mut mgr, _t, _s, persistence) = manager(false);
    let me = make_did(0x01);
    let peer = make_did(0x02);
    mgr.request(peer.clone(), me.clone(), make_coords(&me, 0xAA))
        .unwrap();
    assert_eq!(
        mgr.graph().get(&peer).unwrap().state(),
        ConnectionState::PendingRendezvous(Suspended::Requested)
    );
    mgr.resume_peer(&peer).unwrap();
    let mut expected = SocialGraph::new();
    expected
        .initiate(peer, me.clone(), make_coords(&me, 0xAA))
        .unwrap();
    assert_eq!(mgr.graph(), &expected);
    assert_eq!(&*persistence.saved.borrow(), &expected);
}

/// A manager starts from the graph that was persisted.
#[test]
fn load_takes_up_the_persisted_graph() {
    let (mut mgr, _t, _s, persistence) = manager(true);
    let me = make_did(0x01);
    mgr.request(make_did(0x02), me.clone(), make_coords(&me, 0xAA))
        .unwrap();
    let again = SocialGraphManager::load(
        MockTransport::online(),
        PassthroughSealer,
        MockSubscriber::default(),
        persistence,
    )
    .unwrap();
    assert_eq!(again.graph(), mgr.graph());
}

/// A sealer double that scrambles its bytes, and a transport that sees only the scrambled ones.
struct ScramblingSealer(Bytes32);

impl EnvelopeSealer for ScramblingSealer {
    fn seal(&mut self, _recipient: &Did, plaintext: &[u8]) -> Result<Vec<u8>> {
        Ok(plaintext.iter().map(|byte| byte ^ 0x5A).collect())
    }

    fn open(&mut self, _our_secret: &SecretKey, ciphertext: &[u8]) -> Result<OpenedEnvelope> {
        Ok(OpenedEnvelope {
            sender: self.0,
            plaintext: ciphertext.iter().map(|byte| byte ^ 0x5A).collect(),
        })
    }
}

/// A [`PassthroughSealer`] that counts its seals and opens.
struct CountingSealer(Rc<Cell<usize>>, Rc<Cell<usize>>);

impl EnvelopeSealer for CountingSealer {
    fn seal(&mut self, recipient: &Did, plaintext: &[u8]) -> Result<Vec<u8>> {
        self.0.set(self.0.get() + 1);
        PassthroughSealer.seal(recipient, plaintext)
    }

    fn open(&mut self, our_secret: &SecretKey, ciphertext: &[u8]) -> Result<OpenedEnvelope> {
        self.1.set(self.1.get() + 1);
        PassthroughSealer.open(our_secret, ciphertext)
    }
}

/// Each operation is heard at each seam as often as it should be, and no more.
#[test]
fn each_seam_is_called_as_often_as_it_should_be() {
    let me = make_did(0x01);
    let a = make_did(0x02);
    let b = make_did(0x03);
    let (seals, opens) = (Rc::new(Cell::new(0)), Rc::new(Cell::new(0)));
    let transport = MockTransport::online();
    let subscriber = MockSubscriber::default();
    let mut mgr = SocialGraphManager::load(
        transport.clone(),
        CountingSealer(seals.clone(), opens.clone()),
        subscriber.clone(),
        MemPersistence::default(),
    )
    .unwrap();
    let counts = || {
        (
            seals.get(),
            opens.get(),
            transport.sent.borrow().len(),
            subscriber.subscribed.borrow().len(),
            subscriber.unsubscribed.borrow().len(),
        )
    };
    let secret = make_secret(0x01);

    mgr.request(a.clone(), me.clone(), make_coords(&me, 0xAA))
        .unwrap();
    assert_eq!(counts(), (1, 0, 1, 0, 0));
    let accept = accept_envelope(&a, &me, &make_coords(&a, 0xBB));
    mgr.handle_incoming(&secret, &accept).unwrap();
    assert_eq!(counts(), (1, 1, 1, 1, 0));
    // A second acceptance is opened, and refused before it is subscribed to.
    assert!(mgr.handle_incoming(&secret, &accept).is_err());
    assert_eq!(counts(), (1, 2, 1, 1, 0));

    let request = request_envelope(&b, &me, &make_coords(&b, 0xCC));
    mgr.handle_incoming(&secret, &request).unwrap();
    assert_eq!(counts(), (1, 3, 1, 1, 0));
    mgr.approve(&b, me.clone(), make_coords(&me, 0xAA)).unwrap();
    assert_eq!(counts(), (2, 3, 2, 2, 0));
    // A second approval seals, and is refused before anything is subscribed to or sent.
    assert!(mgr
        .approve(&b, me.clone(), make_coords(&me, 0xAA))
        .is_err());
    assert_eq!(counts(), (3, 3, 2, 2, 0));

    mgr.revoke(&a, &me).unwrap();
    assert_eq!(counts(), (3, 3, 3, 2, 1));
    assert!(mgr.revoke(&a, &me).is_err());
    assert_eq!(counts(), (3, 3, 3, 2, 1));
}

/// What is sent is the ciphertext of the sealer, addressed by the presented DID.
#[test]
fn the_transport_carries_the_sealed_offer() {
    let me = make_did(0x01);
    let peer = make_did(0x02);
    let my_coords = make_coords(&me, 0xAA);
    let transport = MockTransport::online();
    let mut mgr = SocialGraphManager::load(
        transport.clone(),
        ScramblingSealer(peer.launcher_id()),
        MockSubscriber::default(),
        MemPersistence::default(),
    )
    .unwrap();
    mgr.request(peer.clone(), me.clone(), my_coords.clone())
        .unwrap();
    let sent = transport.sent.borrow();
    let ciphertext: Vec<u8> = my_coords
        .to_canonical_bytes()
        .iter()
        .map(|byte| byte ^ 0x5A)
        .collect();
    let expected = SealedEnvelope {
        sender: me,
        recipient: peer,
        payload: SocialMessage::Request(dig_social_graph::ConnectRequest {
            requestor_offer: dig_social_graph::SealedOffer::new(ciphertext),
        })
        .to_canonical_bytes(),
    };
    assert_eq!(sent.as_slice(), &[expected]);
}

/// The same inputs and the same answers give the same graph and the same messages.
#[test]
fn the_flow_is_deterministic() {
    let me = make_did(0x01);
    let peer = make_did(0x02);
    let drive = || {
        let (mut mgr, transport, _s, _p) = manager(true);
        mgr.request(peer.clone(), me.clone(), make_coords(&me, 0xAA))
            .unwrap();
        mgr.handle_incoming(
            &make_secret(0x01),
            &accept_envelope(&peer, &me, &make_coords(&peer, 0xBB)),
        )
        .unwrap();
        mgr.revoke(&peer, &me).unwrap();
        let sent = transport.sent.borrow().clone();
        (mgr.graph().clone(), sent)
    };
    assert_eq!(drive(), drive());
}

/// A failure at a seam is named once, however often it is passed on.
#[test]
fn seam_failures_carry_one_prefix() {
    let text = |error: Error| match error {
        Error::Seam(text) => text,
        other => panic!("expected a seam failure, got {other:?}"),
    };
    assert_eq!(text(seam(Error::Wire("x"))), "malformed wire bytes: x");
    assert_eq!(text(seam(seam(Error::Wire("x")))), "malformed wire bytes: x");
    assert_eq!(text(seam(Error::Seam("down".into()))), "down");
}
