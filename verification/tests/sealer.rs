//! The clock and the key resolvers behind the sealer.

use std::cell::{Cell, RefCell};
use std::rc::Rc;

use chia_sdk_utils::Address;
use dig_identity::bls::{master_secret_key_from_seed, public_key_bytes};
use dig_identity::pairing::{SingletonLineage, StoreRecord};
use dig_identity::profile::Profile;
use dig_identity::{resolve_bls_public_key, ChainSource, ChainStoreState};
use dig_social_graph::sealer::{
    finish_seal, unix_ms, ChainKeyResolver, Clock, DigMessageSealer, KeyResolver, SystemClock,
    MSG_TYPE_CONNECTION_OFFER, SOCIAL_GRAPH_BAND,
};
use dig_social_graph::{Did, EnvelopeSealer, Error, Result, SecretKey};

fn did(filler: u8) -> Did {
    let launcher = dig_identity::Bytes32::new([filler; 32]);
    let text = Address::new(launcher, "did:chia:".to_string())
        .encode()
        .unwrap();
    Did::parse(&text).unwrap()
}

#[test]
fn system_clock_reports_a_plausible_wall_clock() {
    // Well after 2020: the epoch conversion, not a frozen zero.
    assert!(SystemClock::default().now_ms() > 1_600_000_000_000);
}

/// A resolver mapping one DID to a fixed key, for the system-clock construction path.
struct OneKey(Did, [u8; 48]);

impl KeyResolver for OneKey {
    fn resolve_g1(&mut self, did: &Did) -> Result<[u8; 48]> {
        if *did == self.0 {
            Ok(self.1)
        } else {
            Err(Error::Seam("unknown did".into()))
        }
    }
}

#[test]
fn new_uses_the_system_clock_and_seals() {
    let sender_sk =
        SecretKey::from_bytes(&master_secret_key_from_seed(&[1u8; 32]).to_bytes()).unwrap();
    let recipient_sk = master_secret_key_from_seed(&[2u8; 32]);
    let recipient = did(0x02);
    let mut sealer = DigMessageSealer::new(
        sender_sk,
        &did(0x01),
        0,
        OneKey(recipient.clone(), public_key_bytes(&recipient_sk)),
    );
    // A seal through the system-clock constructor produces a non-empty envelope.
    assert!(!sealer.seal(&recipient, b"hello").unwrap().is_empty());
}

/// A chain source with no singleton for any launcher: resolution fails closed.
struct EmptyChain;

impl ChainSource for EmptyChain {
    type Error = &'static str;

    fn resolve_singleton_lineage(
        &self,
        _launcher_id: dig_identity::Bytes32,
    ) -> std::result::Result<Option<SingletonLineage>, Self::Error> {
        Ok(None)
    }

    fn find_stores_for_did(
        &self,
        _did: &dig_identity::Did,
    ) -> std::result::Result<Vec<ChainStoreState>, Self::Error> {
        Ok(vec![])
    }

    fn fetch_profile(
        &self,
        _store: &StoreRecord,
        _root_hash: dig_identity::Bytes32,
    ) -> std::result::Result<Profile, Self::Error> {
        Err("no profile")
    }
}

/// A chain-backed resolver: it asks the chain source and hands on the answer.
struct OnChain<S>(ChainKeyResolver<S>);

impl<S: ChainSource> KeyResolver for OnChain<S> {
    fn resolve_g1(&mut self, did: &Did) -> Result<[u8; 48]> {
        ChainKeyResolver::<S>::resolved(
            resolve_bls_public_key(did.as_str(), self.0.source()).map_err(|e| e.to_string()),
        )
    }
}

#[test]
fn chain_key_resolver_fails_closed_without_a_singleton() {
    let mut resolver = OnChain(ChainKeyResolver::new(EmptyChain));
    assert!(matches!(
        resolver.resolve_g1(&did(0x07)),
        Err(Error::Seam(_))
    ));
}

/// A lookup's answer is handed on, and its error is named.
#[test]
fn a_lookup_is_handed_on() {
    assert_eq!(
        ChainKeyResolver::<EmptyChain>::resolved(Ok([7; 48])).unwrap(),
        [7; 48]
    );
    match ChainKeyResolver::<EmptyChain>::resolved(Err("no key".to_string())) {
        Err(Error::Seam(text)) => assert_eq!(text, "resolve BLS G1 identity key: no key"),
        other => panic!("expected a seam failure, got {other:?}"),
    }
}

/// The clock keeps the low 64 bits, and reads 0 before the epoch.
#[test]
fn unix_ms_keeps_the_low_bits() {
    assert_eq!(unix_ms(None), 0);
    assert_eq!(unix_ms(Some(1_700_000_000_123)), 1_700_000_000_123);
    assert_eq!(unix_ms(Some((1u128 << 64) + 5)), 5);
}

/// A failed seal is a seam failure that carries dig-message's text.
#[test]
fn a_failed_seal_is_named() {
    match finish_seal(Err("seal failed: no entropy".to_string())) {
        Err(Error::Seam(text)) => {
            assert_eq!(text, "dig-message seal/open: seal failed: no entropy");
        }
        other => panic!("expected a seam failure, got {other:?}"),
    }
}

/// The message type of an offer.
#[test]
fn the_offer_type_is_in_the_social_graph_band() {
    assert_eq!(SOCIAL_GRAPH_BAND, 0x0000_0700);
    assert_eq!(MSG_TYPE_CONNECTION_OFFER, SOCIAL_GRAPH_BAND);
}

/// A resolver that knows one DID and writes down whom it is asked for.
struct AskedFor(OneKey, Rc<RefCell<Vec<Did>>>);

impl KeyResolver for AskedFor {
    fn resolve_g1(&mut self, did: &Did) -> Result<[u8; 48]> {
        self.1.borrow_mut().push(did.clone());
        self.0.resolve_g1(did)
    }
}

/// A clock that counts its readings.
struct CountedClock(Rc<Cell<u64>>);

impl Clock for CountedClock {
    fn now_ms(&mut self) -> u64 {
        self.0.set(self.0.get() + 1);
        1_700_000_000_000
    }
}

/// A recipient whose key cannot be looked up costs one lookup and no reading of the clock; a seal
/// that goes through costs one of each.
#[test]
fn an_unresolved_recipient_is_not_sealed_to() {
    let sender_sk =
        SecretKey::from_bytes(&master_secret_key_from_seed(&[1u8; 32]).to_bytes()).unwrap();
    let recipient = did(0x02);
    let key = public_key_bytes(&master_secret_key_from_seed(&[2u8; 32]));
    let asked = Rc::new(RefCell::new(vec![]));
    let readings = Rc::new(Cell::new(0));
    let mut sealer = DigMessageSealer::with_clock(
        sender_sk,
        &did(0x01),
        0,
        AskedFor(OneKey(recipient.clone(), key), asked.clone()),
        CountedClock(readings.clone()),
    );
    match sealer.seal(&did(0x03), b"hello") {
        Err(Error::Seam(text)) => assert_eq!(text, "unknown did"),
        other => panic!("expected the resolver's failure, got {other:?}"),
    }
    assert_eq!(asked.borrow().as_slice(), &[did(0x03)]);
    assert_eq!(readings.get(), 0);

    sealer.seal(&recipient, b"hello").unwrap();
    assert_eq!(asked.borrow().as_slice(), &[did(0x03), recipient]);
    assert_eq!(readings.get(), 1);
}

/// Bytes that are no envelope are refused before the clock is read or a key is looked up.
#[test]
fn bytes_that_are_no_envelope_cost_no_lookup() {
    let sender_sk =
        SecretKey::from_bytes(&master_secret_key_from_seed(&[1u8; 32]).to_bytes()).unwrap();
    let our_secret =
        SecretKey::from_bytes(&master_secret_key_from_seed(&[1u8; 32]).to_bytes()).unwrap();
    let asked = Rc::new(RefCell::new(vec![]));
    let readings = Rc::new(Cell::new(0));
    let mut sealer = DigMessageSealer::with_clock(
        sender_sk,
        &did(0x01),
        0,
        AskedFor(OneKey(did(0x02), [0; 48]), asked.clone()),
        CountedClock(readings.clone()),
    );
    assert!(matches!(
        sealer.open(&our_secret, b"no envelope"),
        Err(Error::Seam(_))
    ));
    assert!(asked.borrow().is_empty());
    assert_eq!(readings.get(), 0);
}
