//! The real [`DigMessageSealer`]: dig-message's BLS-G1-DHKEM auth-seal.
//!
//! These exercise the ACTUAL crypto (no passthrough): a profile offer sealed to a recipient's BLS-G1
//! identity key round-trips only for that recipient, only from the authenticated sender, and only
//! once — and a relay sees nothing but ciphertext. The chain is stood in for by an in-memory
//! [`KeyResolver`] registry so the seal/open composition is proven end-to-end without a live node.

use std::cell::{Cell, RefCell};
use std::collections::HashMap;
use std::rc::Rc;

use chia_sdk_utils::Address;
use dig_identity::bls::{master_secret_key_from_seed, public_key_bytes};
use dig_social_graph::{
    manager::SocialGraphManager,
    sealer::{Clock, DigMessageSealer, KeyResolver},
    Bytes32, ConnectRequest, ConnectionState, Did, EnvelopeSealer, Error, Persistence, Result,
    SealedEnvelope, SealedOffer, SecretKey, SocialGraph, SocialMessage, StoreCoords,
    StoreSubscriber, Transport,
};

/// Mint a well-formed `did:chia:` DID from a single filler byte.
fn make_did(filler: u8) -> Did {
    let launcher = dig_identity::Bytes32::new([filler; 32]);
    let text = Address::new(launcher, "did:chia:".to_string())
        .encode()
        .expect("encodes a did:chia: address");
    Did::parse(&text).expect("parses the minted did")
}

/// A deterministic identity secret key, standing in for the key that the application holds.
fn make_secret(filler: u8) -> SecretKey {
    SecretKey::from_bytes(&master_secret_key_from_seed(&[filler; 32]).to_bytes())
        .expect("a derived key is a secret key")
}

/// Coordinates for a DID with a committed root filled from `root_filler`.
fn make_coords(did: &Did, root_filler: u8) -> StoreCoords {
    StoreCoords::from_did(did.clone(), Bytes32::from([root_filler; 32]))
}

/// A transport double: records sent envelopes and reports a toggleable peer-online flag.
#[derive(Clone, Default)]
struct MockTransport {
    sent: Rc<RefCell<Vec<SealedEnvelope>>>,
    online: Rc<Cell<bool>>,
}

impl MockTransport {
    /// A transport whose peer is online.
    fn online() -> Self {
        let t = Self::default();
        t.online.set(true);
        t
    }
}

impl Transport for MockTransport {
    fn send(&mut self, envelope: &SealedEnvelope) -> Result<()> {
        self.sent.borrow_mut().push(envelope.clone());
        Ok(())
    }

    fn is_peer_online(&mut self, _peer: &Did) -> Result<bool> {
        Ok(self.online.get())
    }
}

/// A subscriber double: records subscribe/unsubscribe calls in order.
#[derive(Clone, Default)]
struct MockSubscriber {
    subscribed: Rc<RefCell<Vec<StoreCoords>>>,
    unsubscribed: Rc<RefCell<Vec<StoreCoords>>>,
}

impl StoreSubscriber for MockSubscriber {
    fn subscribe(&mut self, coords: &StoreCoords) -> Result<()> {
        self.subscribed.borrow_mut().push(coords.clone());
        Ok(())
    }

    fn unsubscribe(&mut self, coords: &StoreCoords) -> Result<()> {
        self.unsubscribed.borrow_mut().push(coords.clone());
        Ok(())
    }
}

/// A persistence double: keeps the last stored graph in memory.
#[derive(Clone, Default)]
struct MemPersistence {
    saved: Rc<RefCell<SocialGraph>>,
    fail: Rc<Cell<bool>>,
}

impl Persistence for MemPersistence {
    fn load(&mut self) -> Result<SocialGraph> {
        Ok(self.saved.borrow().clone())
    }

    fn store(&mut self, graph: &SocialGraph) -> Result<()> {
        if self.fail.get() {
            return Err(Error::Seam("persistence disabled".into()));
        }
        *self.saved.borrow_mut() = graph.clone();
        Ok(())
    }
}

/// The identity public key that dig-identity derives for a test key.
fn published_key(filler: u8) -> [u8; 48] {
    public_key_bytes(&master_secret_key_from_seed(&[filler; 32]))
}

// The wall-clock the seal timestamp + open freshness check share; a fixed value keeps KATs
// deterministic and well inside the freshness window.
const NOW_MS: u64 = 1_700_000_000_000;

/// A fixed-time clock so seal (timestamp) and open (freshness) agree deterministically.
#[derive(Clone, Copy)]
struct FixedClock(u64);
impl Clock for FixedClock {
    fn now_ms(&mut self) -> u64 {
        self.0
    }
}

/// An in-memory DID → G1 key registry standing in for chain resolution.
#[derive(Clone, Default)]
struct TestResolver {
    keys: HashMap<Did, [u8; 48]>,
}
impl TestResolver {
    fn with(entries: &[(&Did, [u8; 48])]) -> Self {
        let keys = entries.iter().map(|(d, k)| ((*d).clone(), *k)).collect();
        Self { keys }
    }
}
impl KeyResolver for TestResolver {
    fn resolve_g1(&mut self, did: &Did) -> Result<[u8; 48]> {
        self.keys
            .get(did)
            .copied()
            .ok_or(Error::Seam("no key for did".into()))
    }
}

/// A sealer for `sender_did`/`sender_sk` that resolves every party in `registry`, at [`NOW_MS`].
fn sealer(
    sender_sk: SecretKey,
    sender_did: &Did,
    registry: &[(&Did, [u8; 48])],
) -> DigMessageSealer<TestResolver, FixedClock> {
    DigMessageSealer::with_clock(
        sender_sk,
        sender_did,
        0,
        TestResolver::with(registry),
        FixedClock(NOW_MS),
    )
}

/// A sender/recipient identity: a deterministic key + its DID + its published G1 key.
struct Party {
    did: Did,
    sk: SecretKey,
    g1: [u8; 48],
}
fn party(filler: u8) -> Party {
    let sk = make_secret(filler);
    Party {
        did: make_did(filler),
        g1: published_key(filler),
        sk,
    }
}

#[test]
fn seal_open_round_trips_to_the_recipient() {
    let sender = party(0x11);
    let recipient = party(0x22);
    let coords = make_coords(&sender.did, 0xAB);

    let registry = [(&sender.did, sender.g1), (&recipient.did, recipient.g1)];
    let mut tx = sealer(sender.sk, &sender.did, &registry);
    let mut rx = sealer(recipient.sk, &recipient.did, &registry);

    let ciphertext = tx
        .seal(&recipient.did, &coords.to_canonical_bytes())
        .unwrap();
    // The app supplies the recipient's own secret to `open` (0x22, the recipient's filler).
    let opened = rx.open(&make_secret(0x22), &ciphertext).unwrap();

    assert_eq!(opened.plaintext, coords.to_canonical_bytes());
    assert_eq!(
        opened.sender,
        sender.did.launcher_id(),
        "open authenticates the sealing DID"
    );
}

#[test]
fn wrong_recipient_cannot_open() {
    let sender = party(0x11);
    let recipient = party(0x22);
    let intruder_sk = make_secret(0x33);
    let coords = make_coords(&sender.did, 0xAB);

    let registry = [(&sender.did, sender.g1), (&recipient.did, recipient.g1)];
    let mut tx = sealer(sender.sk, &sender.did, &registry);
    let mut rx = sealer(make_secret(0x22), &recipient.did, &registry);

    let ciphertext = tx
        .seal(&recipient.did, &coords.to_canonical_bytes())
        .unwrap();
    assert!(
        rx.open(&intruder_sk, &ciphertext).is_err(),
        "a non-recipient key must fail to decapsulate"
    );
}

#[test]
fn wrong_sender_key_fails_signature() {
    let sender = party(0x11);
    let recipient = party(0x22);
    let coords = make_coords(&sender.did, 0xAB);

    // The recipient resolves the sender DID to a DIFFERENT (wrong) G1 key, so the seal's BLS-G2
    // sender signature cannot verify.
    let wrong_g1 = published_key(0x99);
    let tx_registry = [(&sender.did, sender.g1), (&recipient.did, recipient.g1)];
    let rx_registry = [(&sender.did, wrong_g1), (&recipient.did, recipient.g1)];
    let mut tx = sealer(sender.sk, &sender.did, &tx_registry);
    let mut rx = sealer(make_secret(0x22), &recipient.did, &rx_registry);

    let ciphertext = tx
        .seal(&recipient.did, &coords.to_canonical_bytes())
        .unwrap();
    assert!(
        rx.open(&make_secret(0x22), &ciphertext).is_err(),
        "a mismatched sender key must fail the signature check"
    );
}

#[test]
fn tampered_ciphertext_is_rejected() {
    let sender = party(0x11);
    let recipient = party(0x22);
    let coords = make_coords(&sender.did, 0xAB);

    let registry = [(&sender.did, sender.g1), (&recipient.did, recipient.g1)];
    let mut tx = sealer(sender.sk, &sender.did, &registry);
    let mut rx = sealer(make_secret(0x22), &recipient.did, &registry);

    let mut ciphertext = tx
        .seal(&recipient.did, &coords.to_canonical_bytes())
        .unwrap();
    *ciphertext.last_mut().unwrap() ^= 0xFF;
    assert!(
        rx.open(&make_secret(0x22), &ciphertext).is_err(),
        "a flipped ciphertext byte must fail the AEAD"
    );
}

#[test]
fn replayed_envelope_is_rejected() {
    let sender = party(0x11);
    let recipient = party(0x22);
    let coords = make_coords(&sender.did, 0xAB);

    let registry = [(&sender.did, sender.g1), (&recipient.did, recipient.g1)];
    let mut tx = sealer(sender.sk, &sender.did, &registry);
    let mut rx = sealer(make_secret(0x22), &recipient.did, &registry);

    let ciphertext = tx
        .seal(&recipient.did, &coords.to_canonical_bytes())
        .unwrap();
    assert!(rx.open(&make_secret(0x22), &ciphertext).is_ok());
    assert!(
        rx.open(&make_secret(0x22), &ciphertext).is_err(),
        "the replay guard must reject the second open of the same envelope"
    );
}

#[test]
fn relay_sees_only_ciphertext() {
    let sender = party(0x11);
    let recipient = party(0x22);
    let coords = make_coords(&sender.did, 0xAB);
    let plaintext = coords.to_canonical_bytes();

    let registry = [(&sender.did, sender.g1), (&recipient.did, recipient.g1)];
    let mut tx = sealer(sender.sk, &sender.did, &registry);
    let ciphertext = tx.seal(&recipient.did, &plaintext).unwrap();

    assert!(
        !ciphertext
            .windows(plaintext.len())
            .any(|window| window == plaintext.as_slice()),
        "the sealed bytes must not contain the plaintext offer an intermediary could read"
    );
}

// --- manager-level DID validation with the real seal --------------------------------------------

type RealMgr = SocialGraphManager<
    MockTransport,
    DigMessageSealer<TestResolver, FixedClock>,
    MockSubscriber,
    MemPersistence,
>;

fn manager_for(recipient: &Party, registry: &[(&Did, [u8; 48])]) -> RealMgr {
    SocialGraphManager::load(
        MockTransport::online(),
        sealer(make_secret(0x22), &recipient.did, registry),
        MockSubscriber::default(),
        MemPersistence::default(),
    )
    .unwrap()
    // `recipient` filler is fixed at 0x22 by the callers below.
}

/// An inbound request carrying `offer`, declaring `declared_sender`.
fn inbound_request(declared_sender: &Did, me: &Did, offer: SealedOffer) -> SealedEnvelope {
    SealedEnvelope {
        sender: declared_sender.clone(),
        recipient: me.clone(),
        payload: SocialMessage::Request(ConnectRequest {
            requestor_offer: offer,
        })
        .to_canonical_bytes(),
    }
}

#[test]
fn manager_accepts_a_genuinely_sealed_offer() {
    let peer = party(0x11);
    let me = party(0x22);
    let their_coords = make_coords(&peer.did, 0xBB);

    let registry = [(&peer.did, peer.g1), (&me.did, me.g1)];
    let mut peer_sealer = sealer(peer.sk, &peer.did, &registry);
    let offer = SealedOffer::new(
        peer_sealer
            .seal(&me.did, &their_coords.to_canonical_bytes())
            .unwrap(),
    );

    let mut mgr = manager_for(&me, &registry);
    mgr.handle_incoming(
        &make_secret(0x22),
        &inbound_request(&peer.did, &me.did, offer),
    )
    .unwrap();

    let conn = mgr.graph().get(&peer.did).unwrap();
    assert_eq!(conn.state(), ConnectionState::AwaitingRecipientSelect);
    assert_eq!(conn.their_store.as_ref(), Some(&their_coords));
}

#[test]
fn manager_rejects_a_relay_reattributed_sender() {
    let peer = party(0x11);
    let me = party(0x22);
    let stranger = party(0x44);
    let their_coords = make_coords(&peer.did, 0xBB);

    let registry = [
        (&peer.did, peer.g1),
        (&me.did, me.g1),
        (&stranger.did, stranger.g1),
    ];
    let mut peer_sealer = sealer(peer.sk, &peer.did, &registry);
    // A genuinely peer-sealed offer, but a relay swaps the envelope's declared sender to `stranger`.
    let offer = SealedOffer::new(
        peer_sealer
            .seal(&me.did, &their_coords.to_canonical_bytes())
            .unwrap(),
    );

    let mut mgr = manager_for(&me, &registry);
    let err = mgr
        .handle_incoming(
            &make_secret(0x22),
            &inbound_request(&stranger.did, &me.did, offer),
        )
        .unwrap_err();

    assert!(
        matches!(err, Error::Seam(_) | Error::Invariant(_)),
        "a re-attributed sender must be rejected, got {err:?}"
    );
    assert!(
        mgr.graph().get(&peer.did).is_none() && mgr.graph().get(&stranger.did).is_none(),
        "no connection may be recorded for a rejected offer"
    );
}

#[test]
fn manager_rejects_an_offer_for_a_foreign_store() {
    let peer = party(0x11);
    let me = party(0x22);
    let victim = party(0x55);
    // The peer seals coordinates for a store it does NOT own (the victim's DID).
    let foreign_coords = make_coords(&victim.did, 0xBB);

    let registry = [
        (&peer.did, peer.g1),
        (&me.did, me.g1),
        (&victim.did, victim.g1),
    ];
    let mut peer_sealer = sealer(peer.sk, &peer.did, &registry);
    let offer = SealedOffer::new(
        peer_sealer
            .seal(&me.did, &foreign_coords.to_canonical_bytes())
            .unwrap(),
    );

    let mut mgr = manager_for(&me, &registry);
    assert!(
        mgr.handle_incoming(
            &make_secret(0x22),
            &inbound_request(&peer.did, &me.did, offer)
        )
        .is_err(),
        "an offer whose store DID is not the authenticated sealer must be rejected"
    );
}

/// The library derives the public key that dig-identity derives.
#[test]
fn public_keys_agree_with_dig_identity() {
    for filler in [0x11, 0x22, 0x99] {
        assert_eq!(make_secret(filler).public_key(), published_key(filler));
    }
    // Not a scalar below the group order.
    assert!(SecretKey::from_bytes(&[0xFF; 32]).is_none());
}

/// Two seals of one plaintext carry different counters, so both open, once each and in any order.
#[test]
fn successive_offers_are_distinct_messages() {
    let sender = party(0x11);
    let recipient = party(0x22);
    let registry = [(&sender.did, sender.g1), (&recipient.did, recipient.g1)];
    let mut tx = sealer(sender.sk, &sender.did, &registry);
    let mut rx = sealer(make_secret(0x22), &recipient.did, &registry);

    let first = tx.seal(&recipient.did, b"offer").unwrap();
    let second = tx.seal(&recipient.did, b"offer").unwrap();
    assert_ne!(first, second);
    assert_eq!(rx.open(&make_secret(0x22), &second).unwrap().plaintext, b"offer");
    assert_eq!(rx.open(&make_secret(0x22), &first).unwrap().plaintext, b"offer");
    for replay in [&first, &second] {
        match rx.open(&make_secret(0x22), replay) {
            Err(Error::Seam(text)) => assert_eq!(
                text,
                "dig-message seal/open: anti-replay check failed (duplicate, stale, or outside \
                 the freshness window)"
            ),
            other => panic!("expected a refusal, got {other:?}"),
        }
    }
}

/// What was opened stays refused, through refused opens, seals, and offers of other senders.
#[test]
fn an_opened_offer_stays_refused() {
    let sender = party(0x11);
    let other = party(0x33);
    let recipient = party(0x22);
    let registry = [
        (&sender.did, sender.g1),
        (&other.did, other.g1),
        (&recipient.did, recipient.g1),
    ];
    let mut tx = sealer(sender.sk, &sender.did, &registry);
    let mut third = sealer(other.sk, &other.did, &registry);
    let mut rx = sealer(make_secret(0x22), &recipient.did, &registry);
    let secret = make_secret(0x22);

    let first = tx.seal(&recipient.did, b"first").unwrap();
    rx.open(&secret, &first).unwrap();
    let mut changed = tx.seal(&recipient.did, b"second").unwrap();
    *changed.last_mut().unwrap() ^= 0xFF;
    assert!(rx.open(&secret, &changed).is_err());
    assert!(rx.open(&secret, b"no envelope").is_err());
    assert!(rx.open(&secret, &first).is_err());

    rx.seal(&sender.did, b"reply").unwrap();
    let foreign = third.seal(&recipient.did, b"foreign").unwrap();
    rx.open(&secret, &foreign).unwrap();
    let later = tx.seal(&recipient.did, b"later").unwrap();
    assert_eq!(rx.open(&secret, &later).unwrap().plaintext, b"later");
    for replay in [&first, &foreign, &later] {
        assert!(rx.open(&secret, replay).is_err());
    }
}

/// An offer opens if it is up to 1023 behind the latest that was opened, and not if it is further.
#[test]
fn the_replay_window_holds_1024_offers() {
    let sender = party(0x11);
    let recipient = party(0x22);
    let registry = [(&sender.did, sender.g1), (&recipient.did, recipient.g1)];
    let mut tx = sealer(sender.sk, &sender.did, &registry);
    let mut rx = sealer(make_secret(0x22), &recipient.did, &registry);
    let secret = make_secret(0x22);
    let offers: Vec<Vec<u8>> = (0..1026)
        .map(|_| tx.seal(&recipient.did, b"offer").unwrap())
        .collect();
    rx.open(&secret, &offers[1025]).unwrap();
    rx.open(&secret, &offers[2]).unwrap();
    assert!(rx.open(&secret, &offers[1]).is_err());
    rx.open(&secret, &offers[3]).unwrap();
    assert!(rx.open(&secret, &offers[2]).is_err());
}

/// A stale message is refused, and one at the edge of the freshness window is not.
#[test]
fn freshness_is_five_minutes_either_way() {
    let recipient = party(0x22);
    for (sealed_at, fresh) in [
        (NOW_MS - 300_000, true),
        (NOW_MS + 300_000, true),
        (NOW_MS - 300_001, false),
        (NOW_MS + 300_001, false),
    ] {
        let sender = party(0x11);
        let registry = [(&sender.did, sender.g1), (&recipient.did, recipient.g1)];
        let mut tx = DigMessageSealer::with_clock(
            sender.sk,
            &sender.did,
            0,
            TestResolver::with(&registry),
            FixedClock(sealed_at),
        );
        let mut rx = sealer(make_secret(0x22), &recipient.did, &registry);
        let wire = tx.seal(&recipient.did, b"offer").unwrap();
        assert_eq!(rx.open(&make_secret(0x22), &wire).is_ok(), fresh);
    }
}

/// A recipient without a published key is passed on as the resolver's own error.
#[test]
fn an_unresolvable_recipient_fails_the_seal() {
    let sender = party(0x11);
    let registry = [(&sender.did, sender.g1)];
    let mut tx = sealer(sender.sk, &sender.did, &registry);
    match tx.seal(&make_did(0x22), b"offer") {
        Err(Error::Seam(text)) => assert_eq!(text, "no key for did"),
        other => panic!("expected the resolver's error, got {other:?}"),
    }
}

/// A sender without a published key fails the open closed, and a later open can still succeed.
#[test]
fn an_unresolvable_sender_fails_the_open() {
    let sender = party(0x11);
    let recipient = party(0x22);
    let registry = [(&sender.did, sender.g1), (&recipient.did, recipient.g1)];
    let mut tx = sealer(sender.sk, &sender.did, &registry);
    let wire = tx.seal(&recipient.did, b"offer").unwrap();

    let mut rx = sealer(make_secret(0x22), &recipient.did, &registry[1..]);
    match rx.open(&make_secret(0x22), &wire) {
        Err(Error::Seam(text)) => assert_eq!(
            text,
            "dig-message seal/open: sender DID could not be resolved to an identity key"
        ),
        other => panic!("expected a refusal, got {other:?}"),
    }
}

/// Bytes that are no envelope are refused.
#[test]
fn bytes_that_are_no_envelope_are_refused() {
    let recipient = party(0x22);
    let mut rx = sealer(recipient.sk, &recipient.did, &[]);
    match rx.open(&make_secret(0x22), &[1, 2, 3]) {
        Err(Error::Seam(text)) => {
            assert!(text.starts_with("dig-message seal/open: truncated envelope"), "{text}");
        }
        other => panic!("expected a refusal, got {other:?}"),
    }
}

/// The wire form of an offer is dig-message's own: its crate reads the header that was asked for.
#[test]
fn the_envelope_header_is_the_offers() {
    let sender = party(0x11);
    let recipient = party(0x22);
    let registry = [(&sender.did, sender.g1), (&recipient.did, recipient.g1)];
    let mut tx = DigMessageSealer::with_clock(
        sender.sk,
        &sender.did,
        7,
        TestResolver::with(&registry),
        FixedClock(NOW_MS),
    );
    let wire = tx.seal(&recipient.did, b"offer").unwrap();
    let envelope = dig_message::decode_envelope(&wire).unwrap();
    assert_eq!(envelope.message_type, 0x0000_0700);
    assert_eq!(envelope.flags, 4, "sealed, and of the one-shot shape");
    assert_eq!(envelope.sender.to_bytes(), [0x11; 32]);
    assert_eq!(envelope.recipient.to_bytes(), [0x22; 32]);
    assert_eq!(envelope.sender_epoch, 7);
    assert_eq!(envelope.correlation_id.to_bytes(), [0; 32]);
    assert!(envelope.stream.is_none());
}

/// A whole handshake between two managers over the real seal.
#[test]
fn a_handshake_over_the_real_seal_connects_both_ends() {
    let alice = party(0x11);
    let bob = party(0x22);
    let registry = [(&alice.did, alice.g1), (&bob.did, bob.g1)];
    let alice_transport = MockTransport::online();
    let bob_transport = MockTransport::online();
    let alice_subscriber = MockSubscriber::default();
    let bob_subscriber = MockSubscriber::default();
    let mut at_alice = SocialGraphManager::load(
        alice_transport.clone(),
        sealer(make_secret(0x11), &alice.did, &registry),
        alice_subscriber.clone(),
        MemPersistence::default(),
    )
    .unwrap();
    let mut at_bob = SocialGraphManager::load(
        bob_transport.clone(),
        sealer(make_secret(0x22), &bob.did, &registry),
        bob_subscriber.clone(),
        MemPersistence::default(),
    )
    .unwrap();
    let alice_coords = make_coords(&alice.did, 0xAA);
    let bob_coords = make_coords(&bob.did, 0xBB);

    at_alice
        .request(bob.did.clone(), alice.did.clone(), alice_coords.clone())
        .unwrap();
    let request = alice_transport.sent.borrow().last().unwrap().clone();
    at_bob.handle_incoming(&bob.sk, &request).unwrap();
    at_bob
        .approve(&alice.did, bob.did.clone(), bob_coords.clone())
        .unwrap();
    let accept = bob_transport.sent.borrow().last().unwrap().clone();
    at_alice.handle_incoming(&alice.sk, &accept).unwrap();

    let seen_by_alice = at_alice.graph().get(&bob.did).unwrap();
    assert_eq!(seen_by_alice.state(), ConnectionState::Connected);
    assert_eq!(seen_by_alice.their_store.as_ref(), Some(&bob_coords));
    assert_eq!(alice_subscriber.subscribed.borrow().as_slice(), &[bob_coords]);
    let seen_by_bob = at_bob.graph().get(&alice.did).unwrap();
    assert_eq!(seen_by_bob.state(), ConnectionState::RecipientOffered);
    assert_eq!(seen_by_bob.their_store.as_ref(), Some(&alice_coords));
    assert_eq!(bob_subscriber.subscribed.borrow().as_slice(), &[alice_coords]);
}
