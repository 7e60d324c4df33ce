//! The sealer seam: `open` is supplied the secret key that the application holds, and what it recovers
//! is what the manager records.

use std::cell::{Cell, RefCell};
use std::rc::Rc;

use chia_sdk_utils::Address;
use dig_identity::bls::master_secret_key_from_seed;
use dig_social_graph::{
    Bytes32, ConnectRequest, ConnectionState, Did, EnvelopeSealer, Error, OpenedEnvelope,
    Persistence, Result, SealedEnvelope, SealedOffer, SecretKey, SocialGraph, SocialGraphManager,
    SocialMessage, StoreCoords, StoreSubscriber, Transport,
};

/// Mint a well-formed `did:chia:` DID from a single filler byte.
fn make_did(filler: u8) -> Did {
    let launcher = dig_identity::Bytes32::new([filler; 32]);
    let text = Address::new(launcher, "did:chia:".to_string())
        .encode()
        .expect("encodes a did:chia: address");
    Did::parse(&text).expect("parses the minted did")
}

/// A deterministic identity secret key, standing in for the key that the application holds.
fn make_secret(filler: u8) -> SecretKey {
    SecretKey::from_bytes(&master_secret_key_from_seed(&[filler; 32]).to_bytes())
        .expect("a derived key is a secret key")
}

/// Coordinates for a DID with a committed root filled from `root_filler`.
fn make_coords(did: &Did, root_filler: u8) -> StoreCoords {
    StoreCoords::from_did(did.clone(), Bytes32::from([root_filler; 32]))
}

/// A transport double: records sent envelopes and reports a toggleable peer-online flag.
#[derive(Clone, Default)]
struct MockTransport {
    sent: Rc<RefCell<Vec<SealedEnvelope>>>,
    online: Rc<Cell<bool>>,
}

impl MockTransport {
    /// A transport whose peer is online.
    fn online() -> Self {
        let t = Self::default();
        t.online.set(true);
        t
    }
}

impl Transport for MockTransport {
    fn send(&mut self, envelope: &SealedEnvelope) -> Result<()> {
        self.sent.borrow_mut().push(envelope.clone());
        Ok(())
    }

    fn is_peer_online(&mut self, _peer: &Did) -> Result<bool> {
        Ok(self.online.get())
    }
}

/// A subscriber double: records subscribe/unsubscribe calls in order.
#[derive(Clone, Default)]
struct MockSubscriber {
    subscribed: Rc<RefCell<Vec<StoreCoords>>>,
    unsubscribed: Rc<RefCell<Vec<StoreCoords>>>,
}

impl StoreSubscriber for MockSubscriber {
    fn subscribe(&mut self, coords: &StoreCoords) -> Result<()> {
        self.subscribed.borrow_mut().push(coords.clone());
        Ok(())
    }

    fn unsubscribe(&mut self, coords: &StoreCoords) -> Result<()> {
        self.unsubscribed.borrow_mut().push(coords.clone());
        Ok(())
    }
}

/// A persistence double: keeps the last stored graph in memory.
#[derive(Clone, Default)]
struct MemPersistence {
    saved: Rc<RefCell<SocialGraph>>,
    fail: Rc<Cell<bool>>,
}

impl Persistence for MemPersistence {
    fn load(&mut self) -> Result<SocialGraph> {
        Ok(self.saved.borrow().clone())
    }

    fn store(&mut self, graph: &SocialGraph) -> Result<()> {
        if self.fail.get() {
            return Err(Error::Seam("persistence disabled".into()));
        }
        *self.saved.borrow_mut() = graph.clone();
        Ok(())
    }
}

/// A sealer that records the secret key bytes handed to every `open`, proving the seam supplies the
/// app-held `&SecretKey`. Sealing and opening themselves are the identity function, so the offered
/// coordinates stay decodable.
#[derive(Clone, Default)]
struct RecordingSealer {
    opened_with: Rc<RefCell<Vec<[u8; 32]>>>,
}

impl EnvelopeSealer for RecordingSealer {
    fn seal(&mut self, _recipient: &Did, plaintext: &[u8]) -> Result<Vec<u8>> {
        Ok(plaintext.to_vec())
    }

    fn open(&mut self, our_secret: &SecretKey, ciphertext: &[u8]) -> Result<OpenedEnvelope> {
        self.opened_with.borrow_mut().push(our_secret.to_bytes());
        let coords = StoreCoords::from_canonical_bytes(ciphertext)?;
        Ok(OpenedEnvelope {
            sender: coords.did.launcher_id(),
            plaintext: ciphertext.to_vec(),
        })
    }
}

#[test]
fn open_is_supplied_the_apps_secret_key() {
    let transport = MockTransport::online();
    let sealer = RecordingSealer::default();
    let mut mgr = SocialGraphManager::load(
        transport,
        sealer.clone(),
        MockSubscriber::default(),
        MemPersistence::default(),
    )
    .unwrap();

    let me = make_did(0x01);
    let peer = make_did(0x02);
    let their_coords = make_coords(&peer, 0xBB);
    let our_key = make_secret(0x07);

    // An inbound request forces the manager to open the peer's offer — using the key we supply.
    let request = SocialMessage::Request(ConnectRequest {
        requestor_offer: SealedOffer::new(their_coords.to_canonical_bytes()),
    });
    let envelope = SealedEnvelope {
        sender: peer.clone(),
        recipient: me,
        payload: request.to_canonical_bytes(),
    };
    mgr.handle_incoming(&our_key, &envelope).unwrap();

    // The seam received exactly the secret key the caller supplied — the BLS decap contract holds.
    assert_eq!(
        sealer.opened_with.borrow().as_slice(),
        &[our_key.to_bytes()],
        "open must be handed the app-supplied BLS-G1 secret key"
    );
    assert_eq!(
        mgr.graph().get(&peer).unwrap().state(),
        ConnectionState::AwaitingRecipientSelect
    );
}

#[test]
fn opened_coordinates_round_trip_through_the_seam() {
    let transport = MockTransport::online();
    let mut mgr = SocialGraphManager::load(
        transport,
        RecordingSealer::default(),
        MockSubscriber::default(),
        MemPersistence::default(),
    )
    .unwrap();

    let me = make_did(0x01);
    let peer = make_did(0x02);
    let their_coords = make_coords(&peer, 0xBB);

    let request = SocialMessage::Request(ConnectRequest {
        requestor_offer: SealedOffer::new(their_coords.to_canonical_bytes()),
    });
    mgr.handle_incoming(
        &make_secret(0x01),
        &SealedEnvelope {
            sender: peer.clone(),
            recipient: me,
            payload: request.to_canonical_bytes(),
        },
    )
    .unwrap();

    // The coordinates recovered by the seam are exactly what the peer offered.
    assert_eq!(
        mgr.graph().get(&peer).unwrap().their_store.as_ref(),
        Some(&their_coords)
    );
}
