//! The managed graph collection: insert/lookup/iterate/remove and deterministic serde.

use chia_sdk_utils::Address;
use dig_social_graph::{
    Bytes32, ConnectionRecord, ConnectionState, Did, Error, SocialGraph, StoreCoords, Suspended,
};
use dig_social_graph::codec::{did_str, hex_bytes32, opt_did_str};
use serde_json::Value;

/// Mint a well-formed `did:chia:` DID from a single filler byte.
fn make_did(filler: u8) -> Did {
    let launcher = dig_identity::Bytes32::new([filler; 32]);
    let text = Address::new(launcher, "did:chia:".to_string())
        .encode()
        .expect("encodes a did:chia: address");
    Did::parse(&text).expect("parses the minted did")
}

/// Coordinates for a DID with a committed root filled from `root_filler`.
fn make_coords(did: &Did, root_filler: u8) -> StoreCoords {
    StoreCoords::from_did(did.clone(), Bytes32::from([root_filler; 32]))
}

/// Coordinates as the JSON object that is persisted.
fn coords_json(coords: &StoreCoords) -> Value {
    let mut object = serde_json::Map::new();
    object.insert("did".into(), Value::String(did_str::serialize(&coords.did)));
    object.insert(
        "launcher_id".into(),
        Value::String(hex_bytes32::serialize(&coords.launcher_id)),
    );
    object.insert(
        "committed_root".into(),
        Value::String(hex_bytes32::serialize(&coords.committed_root)),
    );
    Value::Object(object)
}

/// Coordinates read back from their JSON object.
fn coords_from_json(value: &Value) -> StoreCoords {
    StoreCoords {
        did: did_str::deserialize(value.get("did").unwrap().as_str().unwrap()).unwrap(),
        launcher_id: hex_bytes32::deserialize(value.get("launcher_id").unwrap().as_str().unwrap())
            .unwrap(),
        committed_root: hex_bytes32::deserialize(
            value.get("committed_root").unwrap().as_str().unwrap(),
        )
        .unwrap(),
    }
}

fn optional(value: Option<Value>) -> Value {
    value.unwrap_or(Value::Null)
}

/// A graph as JSON text, by way of its records. The state is spelled by its label.
fn graph_json(graph: &SocialGraph) -> String {
    let mut connections = serde_json::Map::new();
    for (key, record) in graph.to_records() {
        let mut object = serde_json::Map::new();
        object.insert("peer".into(), Value::String(did_str::serialize(&record.peer)));
        object.insert("state".into(), Value::String(record.state.label().into()));
        object.insert(
            "presented_local_did".into(),
            optional(opt_did_str::serialize(&record.presented_local_did).map(Value::String)),
        );
        object.insert(
            "our_offer".into(),
            optional(record.our_offer.as_ref().map(coords_json)),
        );
        object.insert(
            "their_store".into(),
            optional(record.their_store.as_ref().map(coords_json)),
        );
        connections.insert(key, Value::Object(object));
    }
    serde_json::to_string(&Value::Object(connections)).unwrap()
}

/// A graph read back from its JSON text. The test graphs hold fresh requests only.
fn graph_from_json(json: &str) -> SocialGraph {
    let value: Value = serde_json::from_str(json).unwrap();
    let mut records = Vec::new();
    for (key, object) in value.as_object().unwrap() {
        assert_eq!(object.get("state").unwrap().as_str(), Some("Requested"));
        let coords = |name: &str| match object.get(name).unwrap() {
            Value::Null => None,
            present => Some(coords_from_json(present)),
        };
        records.push((
            key.clone(),
            ConnectionRecord {
                peer: did_str::deserialize(object.get("peer").unwrap().as_str().unwrap()).unwrap(),
                state: ConnectionState::Requested,
                presented_local_did: opt_did_str::deserialize(
                    object.get("presented_local_did").unwrap().as_str(),
                )
                .unwrap(),
                our_offer: coords("our_offer"),
                their_store: coords("their_store"),
            },
        ));
    }
    SocialGraph::from_records(records)
}

#[test]
fn empty_graph_is_empty() {
    let graph = SocialGraph::new();
    assert!(graph.is_empty());
    assert_eq!(graph.len(), 0);
}

#[test]
fn initiate_records_offer_first_intent() {
    let mut graph = SocialGraph::new();
    let me = make_did(0x01);
    let peer = make_did(0x02);
    let coords = make_coords(&me, 0xAA);
    graph
        .initiate(peer.clone(), me.clone(), coords.clone())
        .unwrap();

    let conn = graph.get(&peer).unwrap();
    assert_eq!(conn.state(), ConnectionState::Requested);
    assert_eq!(conn.our_offer.as_ref(), Some(&coords));
    assert_eq!(conn.their_store, None);
    assert_eq!(graph.len(), 1);
}

#[test]
fn receive_request_stores_peer_coords() {
    let mut graph = SocialGraph::new();
    let peer = make_did(0x02);
    let their: StoreCoords = make_coords(&peer, 0xBB);
    graph.receive_request(peer.clone(), their.clone()).unwrap();
    let conn = graph.get(&peer).unwrap();
    assert_eq!(conn.state(), ConnectionState::AwaitingRecipientSelect);
    assert_eq!(conn.their_store.as_ref(), Some(&their));
}

#[test]
fn duplicate_peer_is_rejected_both_directions() {
    let mut graph = SocialGraph::new();
    let me = make_did(0x01);
    let peer = make_did(0x02);
    graph
        .initiate(peer.clone(), me.clone(), make_coords(&me, 0xAA))
        .unwrap();
    assert!(graph
        .initiate(peer.clone(), me.clone(), make_coords(&me, 0xAA))
        .is_err());
    assert!(graph
        .receive_request(peer, make_coords(&make_did(0x02), 0xBB))
        .is_err());
}

#[test]
fn remove_and_iter_and_get_mut() {
    let mut graph = SocialGraph::new();
    let me = make_did(0x01);
    let a = make_did(0x02);
    let b = make_did(0x03);
    graph
        .initiate(a.clone(), me.clone(), make_coords(&me, 0xAA))
        .unwrap();
    graph
        .initiate(b.clone(), me.clone(), make_coords(&me, 0xAA))
        .unwrap();
    assert_eq!(graph.iter().count(), 2);

    graph
        .get_mut(&a)
        .unwrap()
        .apply(dig_social_graph::ConnectionEvent::RequestDelivered)
        .unwrap();
    assert_eq!(
        graph.get(&a).unwrap().state(),
        ConnectionState::RequestorOffered
    );

    let removed = graph.remove(&a).unwrap();
    assert_eq!(removed.peer, a);
    assert!(graph.get(&a).is_none());
    assert_eq!(graph.len(), 1);
}

#[test]
fn graph_serde_round_trips_deterministically() {
    let mut graph = SocialGraph::new();
    let me = make_did(0x01);
    for filler in [0x02u8, 0x03, 0x04] {
        let peer = make_did(filler);
        graph
            .initiate(peer, me.clone(), make_coords(&me, 0xAA))
            .unwrap();
    }
    let json = graph_json(&graph);
    let read = graph_from_json(&json);
    assert_eq!(read, graph);
    let again = graph_json(&read);
    assert_eq!(json, again, "serde is a stable round-trip");
}

/// The connection state is sealed: it can ONLY change through `apply()` (the pure state machine),
/// never by direct assignment or by injecting a fabricated connection. `Connection.state` is a
/// private field with no setter, `SocialGraph::upsert` is crate-internal, and connections enter the
/// graph only via `initiate`/`receive_request` (which fix the initial state). An illegal `apply`
/// leaves the state unchanged.
///
/// (The compile-time guarantees — no `Connection { state: .. }` literal and no `conn.state = ..`
/// outside the crate — are enforced by the private field; this test asserts the runtime half.)
#[test]
fn connection_state_only_changes_via_apply() {
    let mut graph = SocialGraph::new();
    let me = make_did(0x01);
    let peer = make_did(0x02);
    graph
        .initiate(peer.clone(), me.clone(), make_coords(&me, 0xAA))
        .unwrap();

    // A legal event advances the state...
    let conn = graph.get_mut(&peer).unwrap();
    conn.apply(dig_social_graph::ConnectionEvent::RequestDelivered)
        .unwrap();
    assert_eq!(conn.state(), ConnectionState::RequestorOffered);

    // ...and an illegal event is rejected, leaving the state untouched (no back door).
    assert!(conn
        .apply(dig_social_graph::ConnectionEvent::Approved)
        .is_err());
    assert_eq!(conn.state(), ConnectionState::RequestorOffered);
}

/// The connections are listed in the order of their DID texts, whatever the order of insertion.
#[test]
fn connections_are_listed_in_key_order() {
    let me = make_did(0x01);
    let fillers = [0x90u8, 0x02, 0xFF, 0x41, 0x00, 0x7E];
    let mut graph = SocialGraph::new();
    for filler in fillers {
        graph
            .initiate(make_did(filler), me.clone(), make_coords(&me, 0xAA))
            .unwrap();
    }
    let listed: Vec<String> = graph
        .iter()
        .map(|connection| connection.peer.as_str().to_string())
        .collect();
    let mut sorted: Vec<String> = fillers
        .iter()
        .map(|filler| make_did(*filler).as_str().to_string())
        .collect();
    sorted.sort();
    assert_eq!(listed, sorted);

    let mut reversed = SocialGraph::new();
    for filler in fillers.iter().rev() {
        reversed
            .initiate(make_did(*filler), me.clone(), make_coords(&me, 0xAA))
            .unwrap();
    }
    assert_eq!(reversed, graph);
    assert_eq!(reversed.to_records(), graph.to_records());
}

/// A refused second connection leaves the first as it was, and says why.
#[test]
fn a_second_connection_changes_nothing() {
    let me = make_did(0x01);
    let peer = make_did(0x02);
    let mut graph = SocialGraph::new();
    graph
        .receive_request(peer.clone(), make_coords(&peer, 0xBB))
        .unwrap();
    let before = graph.clone();
    match graph.initiate(peer.clone(), me.clone(), make_coords(&me, 0xAA)) {
        Err(Error::Invariant(text)) => {
            assert_eq!(text, "a connection to this peer already exists");
        }
        other => panic!("expected a refusal, got {other:?}"),
    }
    assert_eq!(graph, before);
}

/// What `initiate` and `receive_request` return is the connection as the graph holds it.
#[test]
fn the_new_connection_is_returned() {
    let me = make_did(0x01);
    let mut graph = SocialGraph::new();
    let returned = graph
        .initiate(make_did(0x02), me.clone(), make_coords(&me, 0xAA))
        .unwrap()
        .clone();
    assert_eq!(graph.get(&make_did(0x02)), Some(&returned));
    let returned = graph
        .receive_request(make_did(0x03), make_coords(&make_did(0x03), 0xBB))
        .unwrap()
        .clone();
    assert_eq!(graph.get(&make_did(0x03)), Some(&returned));
    assert_eq!(returned.presented_local_did, None);
    assert_eq!(returned.our_offer, None);
}

/// Removing a peer that is not there returns nothing and changes nothing.
#[test]
fn removing_an_unknown_peer_is_harmless() {
    let me = make_did(0x01);
    let mut graph = SocialGraph::new();
    graph
        .initiate(make_did(0x02), me.clone(), make_coords(&me, 0xAA))
        .unwrap();
    let before = graph.clone();
    assert!(graph.remove(&make_did(0x03)).is_none());
    assert!(graph.get_mut(&make_did(0x03)).is_none());
    assert_eq!(graph, before);
}

/// Records are read back in any order, and of two under one key the later counts.
#[test]
fn the_later_record_of_a_key_counts() {
    let peer = make_did(0x02);
    let other = make_did(0x03);
    let record = |state: ConnectionState, of: &Did| ConnectionRecord {
        peer: of.clone(),
        state,
        presented_local_did: None,
        our_offer: None,
        their_store: None,
    };
    let parked = ConnectionState::PendingRendezvous(Suspended::RequestorOffered);
    let graph = SocialGraph::from_records(vec![
        (other.as_str().to_string(), record(ConnectionState::Denied, &other)),
        (peer.as_str().to_string(), record(ConnectionState::Requested, &peer)),
        (peer.as_str().to_string(), record(parked, &peer)),
    ]);
    assert_eq!(graph.len(), 2);
    assert_eq!(graph.get(&peer).unwrap().state(), parked);
    assert_eq!(graph.get(&other).unwrap().state(), ConnectionState::Denied);
    assert_eq!(SocialGraph::from_records(graph.to_records()), graph);
}

/// A default graph is an empty one.
#[test]
fn the_default_graph_is_empty() {
    assert_eq!(SocialGraph::default(), SocialGraph::new());
    assert_eq!(SocialGraph::new().iter().count(), 0);
}

/// A record holds the fields of its connection.
#[test]
fn a_record_holds_the_fields_of_its_connection() {
    let me = make_did(0x01);
    let mut graph = SocialGraph::new();
    let connection = graph
        .initiate(make_did(0x02), me.clone(), make_coords(&me, 0xAA))
        .unwrap();
    let record = connection.to_record();
    assert_eq!(record.peer, connection.peer);
    assert_eq!(record.state, connection.state());
    assert_eq!(record.presented_local_did, Some(me.clone()));
    assert_eq!(record.our_offer, Some(make_coords(&me, 0xAA)));
    assert_eq!(record.their_store, None);
}
