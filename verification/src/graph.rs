//! The managed social-graph state: the per-peer [`Connection`]s and the operations that advance
//! them.
//!
//! A [`SocialGraph`] is, mathematically, a map from peer DID texts to connections. It owns no I/O:
//! it applies [`ConnectionEvent`]s through the [state machine](crate::state) and records the data
//! (offers, coordinates, the presented DID) beside each state.

use vstd::prelude::*;
use vstd::std_specs::iter::IteratorSpec;

use crate::error::{Error, ErrorView, Result};
use crate::identity::{Did, DidView};
use crate::order;
use crate::state::{ConnectionEvent, ConnectionState};
use crate::wire::{CoordsView, StoreCoords};

verus! {

/// One peer connection: its lifecycle state plus the data that the handshake accumulates.
#[derive(Debug, PartialEq, Eq)]
pub struct Connection {
    /// The remote peer's DID.
    pub peer: Did,
    /// Where this connection is in its lifecycle. Private: it changes only through
    /// [`Connection::apply`], so no consumer can inject a state.
    state: ConnectionState,
    /// Which of the local user's DIDs is presented to this peer; `None` until the local side has
    /// offered.
    pub presented_local_did: Option<Did>,
    /// The coordinates of the profile store that the local side offered this peer.
    pub our_offer: Option<StoreCoords>,
    /// The coordinates of the peer's profile store, recovered from their offer.
    pub their_store: Option<StoreCoords>,
}

/// A [`Connection`] as a mathematical value.
#[verifier::ext_equal]
pub struct ConnectionView {
    pub peer: DidView,
    pub state: ConnectionState,
    pub presented_local_did: Option<DidView>,
    pub our_offer: Option<CoordsView>,
    pub their_store: Option<CoordsView>,
}

/// An optional DID as a mathematical value.
pub open spec fn did_option(did: Option<Did>) -> Option<DidView> {
    match did {
        Some(did) => Some(did@),
        None => None,
    }
}

/// Optional coordinates as a mathematical value.
pub open spec fn coords_option(coords: Option<StoreCoords>) -> Option<CoordsView> {
    match coords {
        Some(coords) => Some(coords@),
        None => None,
    }
}

impl View for Connection {
    type V = ConnectionView;

    closed spec fn view(&self) -> ConnectionView {
        ConnectionView {
            peer: self.peer@,
            state: self.state,
            presented_local_did: did_option(self.presented_local_did),
            our_offer: coords_option(self.our_offer),
            their_store: coords_option(self.their_store),
        }
    }
}

impl ConnectionView {
    /// A connection on which nothing is recorded yet.
    pub open spec fn bare(peer: DidView, state: ConnectionState) -> ConnectionView {
        ConnectionView {
            peer,
            state,
            presented_local_did: None,
            our_offer: None,
            their_store: None,
        }
    }

    /// A fresh outbound connection: the local offer is on record from the start.
    pub open spec fn initiated(
        peer: DidView,
        presented_local_did: DidView,
        our_offer: CoordsView,
    ) -> ConnectionView {
        ConnectionView {
            presented_local_did: Some(presented_local_did),
            our_offer: Some(our_offer),
            ..ConnectionView::bare(peer, ConnectionState::Requested)
        }
    }

    /// A fresh inbound connection: the peer's store is on record and the local user's consent is
    /// awaited.
    pub open spec fn requested_by(peer: DidView, their_store: CoordsView) -> ConnectionView {
        ConnectionView {
            their_store: Some(their_store),
            ..ConnectionView::bare(peer, ConnectionState::AwaitingRecipientSelect)
        }
    }

    /// This connection with its state replaced.
    pub open spec fn at(self, state: ConnectionState) -> ConnectionView {
        ConnectionView { state, ..self }
    }

    /// This connection after an event, or the refusal of the event.
    pub open spec fn after(self, event: ConnectionEvent) -> core::result::Result<
        ConnectionView,
        ErrorView,
    > {
        match self.state.next(event) {
            Some(state) => Ok(self.at(state)),
            None => Err(ErrorView::IllegalTransition { state: self.state, event }),
        }
    }
}

impl Clone for Connection {
    fn clone(&self) -> (res: Connection)
        ensures
            res == *self,
    {
        Connection {
            peer: self.peer.clone(),
            state: self.state,
            presented_local_did: match &self.presented_local_did {
                Some(did) => Some(did.clone()),
                None => None,
            },
            our_offer: match &self.our_offer {
                Some(coords) => Some(coords.clone()),
                None => None,
            },
            their_store: match &self.their_store {
                Some(coords) => Some(coords.clone()),
                None => None,
            },
        }
    }
}

impl Connection {
    /// Create a connection in a given starting state for a peer.
    fn new(peer: Did, state: ConnectionState) -> (res: Connection)
        ensures
            res@ == ConnectionView::bare(peer@, state),
    {
        Connection { peer, state, presented_local_did: None, our_offer: None, their_store: None }
    }

    /// The connection's current lifecycle state.
    pub fn state(&self) -> (res: ConnectionState)
        ensures
            res == self@.state,
    {
        self.state
    }

    /// Advance this connection by one event; a refused event leaves it as it is.
    pub fn apply(&mut self, event: ConnectionEvent) -> (res: Result<()>)
        ensures
            match old(self)@.after(event) {
                Ok(connection) => res is Ok && final(self)@ == connection,
                Err(error) => res matches Err(e) && e@ == error && *final(self) == *old(self),
            },
    {
        match self.state.apply(event) {
            Ok(state) => {
                self.state = state;
                Ok(())
            },
            Err(error) => Err(error),
        }
    }

    /// Record what the local side offers this peer.
    pub(crate) fn present(&mut self, local_did: Did, our_offer: StoreCoords)
        ensures
            final(self)@ == (ConnectionView {
                presented_local_did: Some(local_did@),
                our_offer: Some(our_offer@),
                ..old(self)@
            }),
    {
        self.presented_local_did = Some(local_did);
        self.our_offer = Some(our_offer);
    }

    /// Record, or forget, where the peer's profile store is.
    pub(crate) fn locate(&mut self, their_store: Option<StoreCoords>)
        ensures
            final(self)@ == (ConnectionView { their_store: coords_option(their_store), ..old(self)@ }),
    {
        self.their_store = their_store;
    }

    /// The coordinates of the peer's profile store, if they are on record.
    pub(crate) fn their_store(&self) -> (res: Option<StoreCoords>)
        ensures
            coords_option(res) == self@.their_store,
    {
        match &self.their_store {
            Some(coords) => Some(coords.clone()),
            None => None,
        }
    }
}

/// A [`SocialGraph`] as a mathematical value: the connections by peer DID text.
pub type GraphView = Map<Seq<char>, ConnectionView>;

/// The local node's peer connections, keyed by peer DID and kept in key order.
#[derive(Debug, PartialEq, Eq)]
pub struct SocialGraph {
    keys: Vec<String>,
    connections: Vec<Connection>,
}

impl View for SocialGraph {
    type V = GraphView;

    closed spec fn view(&self) -> GraphView {
        Map::new(
            |key: Seq<char>| self.keys().contains(key),
            |key: Seq<char>| self.connections@[self.keys().index_of(key)]@,
        )
    }
}

impl SocialGraph {
    #[verifier::type_invariant]
    closed spec fn wf(self) -> bool {
        &&& self.keys@.len() == self.connections@.len()
        &&& order::ascending(self.keys())
    }

    /// The keys in the order in which the graph lists its connections.
    pub closed spec fn keys(self) -> Seq<Seq<char>> {
        Seq::new(self.keys@.len(), |i: int| self.keys@[i]@)
    }

    /// The connection at an index is the one that the map holds under the key at that index.
    proof fn entry(self, i: int)
        requires
            self.wf(),
            0 <= i < self.keys@.len(),
        ensures
            self@.contains_key(self.keys()[i]),
            self@[self.keys()[i]] == self.connections@[i]@,
    {
        let keys = self.keys();
        let j = keys.index_of(keys[i]);
        assert(keys.contains(keys[i]));
        if i < j {
            order::before_is_irreflexive(keys[i]);
        } else if j < i {
            order::before_is_irreflexive(keys[j]);
        }
    }

    /// A key that is in the map is the key at some index.
    proof fn indexed(self, key: Seq<char>) -> (i: int)
        requires
            self@.contains_key(key),
        ensures
            0 <= i < self.keys@.len(),
            self.keys()[i] == key,
    {
        self.keys().index_of(key)
    }

    /// The map has as many keys as the graph lists.
    proof fn counted(self)
        requires
            self.wf(),
        ensures
            self@.dom().finite(),
            self@.len() == self.keys@.len(),
    {
        let keys = self.keys();
        assert(keys.no_duplicates()) by {
            assert forall|i: int, j: int| 0 <= i < keys.len() && 0 <= j < keys.len() && i != j implies keys[i]
                != keys[j] by {
                if i < j {
                    order::before_is_irreflexive(keys[i]);
                } else {
                    order::before_is_irreflexive(keys[j]);
                }
            }
        }
        keys.unique_seq_to_set();
        vstd::seq_lib::seq_to_set_is_finite(keys);
        assert(self@.dom() =~= keys.to_set());
    }

    /// A connection replaced at an index is replaced in the map under the key at that index.
    proof fn replaced(self, before: SocialGraph, at: int)
        requires
            before.wf(),
            self.keys() == before.keys(),
            0 <= at < before.keys@.len(),
            self.connections@ == before.connections@.update(at, self.connections@[at]),
        ensures
            self.wf(),
            self@ == before@.insert(before.keys()[at], self.connections@[at]@),
    {
        let target = before@.insert(before.keys()[at], self.connections@[at]@);
        assert(self.keys().len() == self.keys@.len());
        before.entry(at);
        assert forall|key: Seq<char>| self@.contains_key(key) implies self@[key] == target[key] by {
            let i = self.indexed(key);
            self.entry(i);
            before.entry(i);
            order::before_is_irreflexive(key);
        }
        assert(self@ =~= target);
    }

    /// Where `after` lists one more connection than this graph, its map has one more entry.
    proof fn grown(self, after: SocialGraph, at: int)
        requires
            self.wf(),
            0 <= at <= self.keys@.len(),
            after.keys@.len() == after.connections@.len(),
            order::ascending(after.keys()),
            0 <= at < after.keys@.len(),
            after.keys() == self.keys().insert(at, after.keys()[at]),
            after.connections@ == self.connections@.insert(at, after.connections@[at]),
        ensures
            after.wf(),
            after@ == self@.insert(after.keys()[at], after.connections@[at]@),
    {
        let (new_key, connection) = (after.keys()[at], after.connections@[at]@);
        let target = self@.insert(new_key, connection);
        assert forall|key: Seq<char>| after@.contains_key(key) implies target.contains_key(key)
            && after@[key] == target[key] by {
            let i = after.indexed(key);
            after.entry(i);
            if i != at {
                let j = if i < at { i } else { i - 1 };
                assert(self.keys()[j] == key);
                self.entry(j);
                order::before_is_irreflexive(key);
            }
        }
        assert forall|key: Seq<char>| target.contains_key(key) implies after@.contains_key(key) by {
            if key == new_key {
                after.entry(at);
            } else {
                let j = self.indexed(key);
                let i = if j < at { j } else { j + 1 };
                assert(after.keys()[i] == key);
                after.entry(i);
            }
        }
        assert(after@ =~= target);
    }

    /// Where a key is listed, or where it would have to be.
    fn position(&self, key: &str) -> (res: (usize, bool))
        ensures
            res.0 <= self.keys@.len(),
            forall|i: int| 0 <= i < res.0 ==> order::text_before(#[trigger] self.keys()[i], key@),
            res.1 ==> res.0 < self.keys@.len() && self.keys()[res.0 as int] == key@,
            !res.1 ==> forall|i: int|
                res.0 <= i < self.keys@.len() ==> order::text_before(
                    key@,
                    #[trigger] self.keys()[i],
                ),
            res.1 == self@.contains_key(key@),
            self.wf(),
    {
        proof {
            use_type_invariant(self);
        }
        let mut i: usize = 0;
        while i < self.keys.len()
            invariant
                i <= self.keys@.len(),
                self.wf(),
                forall|j: int| 0 <= j < i ==> order::text_before(#[trigger] self.keys()[j], key@),
            decreases self.keys@.len() - i,
        {
            match order::place(self.keys[i].as_str(), key) {
                order::Place::Before => {
                    assert(self.keys()[i as int] == self.keys@[i as int]@);
                },
                order::Place::Same => {
                    proof {
                        self.entry(i as int);
                    }
                    return (i, true);
                },
                order::Place::After => {
                    proof {
                        let listed = self.keys();
                        assert(listed[i as int] == self.keys@[i as int]@);
                        assert forall|j: int| i <= j < listed.len() implies order::text_before(
                            key@,
                            #[trigger] listed[j],
                        ) by {
                            if i < j {
                                order::before_is_transitive(key@, listed[i as int], listed[j]);
                            }
                        }
                        self.absent(key@, i as int);
                    }
                    return (i, false);
                },
            }
            i = i + 1;
        }
        proof {
            self.absent(key@, i as int);
        }
        (i, false)
    }

    /// A key that lies strictly between two neighbours is not in the map.
    proof fn absent(self, key: Seq<char>, at: int)
        requires
            forall|i: int| 0 <= i < at ==> order::text_before(#[trigger] self.keys()[i], key),
            forall|i: int|
                at <= i < self.keys@.len() ==> order::text_before(key, #[trigger] self.keys()[i]),
        ensures
            !self@.contains_key(key),
    {
        if self@.contains_key(key) {
            let i = self.indexed(key);
            order::before_is_irreflexive(key);
        }
    }

    /// An empty graph.
    pub fn new() -> (res: SocialGraph)
        ensures
            res@ == Map::<Seq<char>, ConnectionView>::empty(),
    {
        let graph = SocialGraph { keys: Vec::new(), connections: Vec::new() };
        assert(graph@ =~= Map::<Seq<char>, ConnectionView>::empty());
        graph
    }

    /// The number of connections tracked.
    pub fn len(&self) -> (res: usize)
        ensures
            self@.dom().finite(),
            res == self@.len(),
    {
        proof {
            use_type_invariant(self);
            self.counted();
        }
        self.keys.len()
    }

    /// Whether the graph tracks no connections.
    pub fn is_empty(&self) -> (res: bool)
        ensures
            res == (self@ == Map::<Seq<char>, ConnectionView>::empty()),
    {
        proof {
            use_type_invariant(self);
            if self.keys@.len() > 0 {
                self.entry(0);
            } else {
                assert(self@ =~= Map::<Seq<char>, ConnectionView>::empty());
            }
        }
        self.keys.len() == 0
    }

    /// The connection for a peer, if one exists.
    pub fn get(&self, peer: &Did) -> (res: Option<&Connection>)
        ensures
            match res {
                Some(connection) => self@.contains_key(peer@.text) && connection@
                    == self@[peer@.text],
                None => !self@.contains_key(peer@.text),
            },
    {
        let (i, found) = self.position(peer.as_str());
        if found {
            proof {
                self.entry(i as int);
            }
            Some(&self.connections[i])
        } else {
            None
        }
    }

    /// A mutable handle to a peer's connection, if one exists. What becomes of the handle becomes of
    /// that connection and of no other.
    pub fn get_mut(&mut self, peer: &Did) -> (res: Option<&mut Connection>)
        ensures
            match res {
                Some(connection) => {
                    &&& old(self)@.contains_key(peer@.text)
                    &&& connection@ == old(self)@[peer@.text]
                    &&& final(self)@ == old(self)@.insert(peer@.text, final(connection)@)
                },
                None => !old(self)@.contains_key(peer@.text) && *final(self) == *old(self),
            },
    {
        let (i, found) = self.position(peer.as_str());
        if found {
            proof {
                self.entry(i as int);
            }
            Some(&mut self.connections[i])
        } else {
            None
        }
    }

    /// The connections in the order of their keys.
    pub fn iter(&self) -> (res: core::slice::Iter<'_, Connection>)
        ensures
            order::ascending(self.keys()),
            forall|key: Seq<char>| self.keys().contains(key) <==> self@.contains_key(key),
            res.remaining().len() == self.keys().len(),
            forall|i: int|
                0 <= i < self.keys().len() ==> (#[trigger] res.remaining()[i])@
                    == self@[self.keys()[i]],
    {
        proof {
            use_type_invariant(self);
            assert forall|i: int| 0 <= i < self.keys().len() implies self@[#[trigger] self.keys()[i]]
                == self.connections@[i]@ by {
                self.entry(i);
            }
        }
        self.connections.as_slice().iter()
    }

    /// Store a connection under a key, replacing one that is already there.
    fn insert(&mut self, key: String, connection: Connection)
        ensures
            final(self)@ == old(self)@.insert(key@, connection@),
    {
        let (i, found) = self.position(key.as_str());
        let mut taken = SocialGraph::new();
        core::mem::swap(self, &mut taken);
        let ghost before = taken;
        let SocialGraph { mut keys, mut connections } = taken;
        if found {
            connections[i] = connection;
            let ghost after = SocialGraph { keys, connections };
            assert(after.keys() =~= before.keys());
            proof {
                before.entry(i as int);
                after.replaced(before, i as int);
            }
        } else {
            let ghost new_key = key@;
            keys.insert(i, key);
            connections.insert(i, connection);
            let ghost after = SocialGraph { keys, connections };
            assert(after.keys() =~= before.keys().insert(i as int, new_key));
            proof {
                order::insert_keeps_ascending(before.keys(), i as int, new_key);
                before.grown(after, i as int);
            }
        }
        *self = SocialGraph { keys, connections };
    }

    /// Insert or replace a connection under its peer's DID.
    ///
    /// Crate-internal: from outside, connections enter the graph through
    /// [`initiate`](SocialGraph::initiate) and [`receive_request`](SocialGraph::receive_request),
    /// which fix the initial state.
    pub(crate) fn upsert(&mut self, connection: Connection)
        ensures
            final(self)@ == old(self)@.insert(connection@.peer.text, connection@),
    {
        let key = connection.peer.as_str().to_owned();
        self.insert(key, connection);
    }

    /// Remove a peer's connection, returning it if present.
    pub fn remove(&mut self, peer: &Did) -> (res: Option<Connection>)
        ensures
            final(self)@ == old(self)@.remove(peer@.text),
            match res {
                Some(connection) => old(self)@.contains_key(peer@.text) && connection@ == old(
                    self,
                )@[peer@.text],
                None => !old(self)@.contains_key(peer@.text),
            },
    {
        let (i, found) = self.position(peer.as_str());
        if !found {
            assert(self@ =~= self@.remove(peer@.text));
            return None;
        }
        let mut taken = SocialGraph::new();
        core::mem::swap(self, &mut taken);
        let ghost before = taken;
        let SocialGraph { mut keys, mut connections } = taken;
        let key = keys.remove(i);
        let connection = connections.remove(i);
        let ghost after = SocialGraph { keys, connections };
        proof {
            assert(after.keys() =~= before.keys().remove(i as int));
            order::remove_keeps_ascending(before.keys(), i as int);
            assert(before.keys() =~= after.keys().insert(i as int, peer@.text));
            assert(before.connections@ =~= after.connections@.insert(i as int, connection));
            after.grown(before, i as int);
            assert(!after@.contains_key(peer@.text)) by {
                after.absent(peer@.text, i as int);
            }
            assert(after@ =~= before@.remove(peer@.text));
        }
        *self = SocialGraph { keys, connections };
        Some(connection)
    }

    /// Begin an outbound connection to a peer.
    ///
    /// Offer-first is structural: an outbound connection cannot exist without the local offer. A
    /// connection to the peer that already exists is left as it is, with an error.
    pub fn initiate(
        &mut self,
        peer: Did,
        presented_local_did: Did,
        our_offer: StoreCoords,
    ) -> (res: Result<&Connection>)
        ensures
            if old(self)@.contains_key(peer@.text) {
                &&& res matches Err(error) && error@ == already_exists()
                &&& *final(self) == *old(self)
            } else {
                let fresh = ConnectionView::initiated(peer@, presented_local_did@, our_offer@);
                &&& res matches Ok(connection) && connection@ == fresh
                &&& final(self)@ == old(self)@.insert(peer@.text, fresh)
            },
    {
        if self.get(&peer).is_some() {
            return Err(Error::Invariant("a connection to this peer already exists"));
        }
        let mut connection = Connection::new(peer.clone(), ConnectionState::initiated());
        connection.presented_local_did = Some(presented_local_did);
        connection.our_offer = Some(our_offer);
        self.upsert(connection);
        Ok(self.known(&peer))
    }

    /// Record an inbound request from a peer whose store coordinates were validated; the local
    /// user's profile selection and consent are awaited.
    ///
    /// A connection to the peer that already exists is left as it is, with an error.
    pub fn receive_request(&mut self, peer: Did, their_store: StoreCoords) -> (res: Result<
        &Connection,
    >)
        ensures
            if old(self)@.contains_key(peer@.text) {
                &&& res matches Err(error) && error@ == already_exists()
                &&& *final(self) == *old(self)
            } else {
                let fresh = ConnectionView::requested_by(peer@, their_store@);
                &&& res matches Ok(connection) && connection@ == fresh
                &&& final(self)@ == old(self)@.insert(peer@.text, fresh)
            },
    {
        if self.get(&peer).is_some() {
            return Err(Error::Invariant("a connection to this peer already exists"));
        }
        let mut connection = Connection::new(
            peer.clone(),
            ConnectionState::AwaitingRecipientSelect,
        );
        connection.their_store = Some(their_store);
        self.upsert(connection);
        Ok(self.known(&peer))
    }

    /// The connection of a peer that is in the graph.
    fn known(&self, peer: &Did) -> (res: &Connection)
        requires
            self@.contains_key(peer@.text),
        ensures
            res@ == self@[peer@.text],
    {
        let (i, _) = self.position(peer.as_str());
        proof {
            self.entry(i as int);
        }
        &self.connections[i]
    }

    /// The graph as records in key order: the form that is persisted.
    pub fn to_records(&self) -> (res: Vec<(String, ConnectionRecord)>)
        ensures
            order::ascending(self.keys()),
            forall|key: Seq<char>| self.keys().contains(key) <==> self@.contains_key(key),
            listed(res@) == listing(self@, self.keys()),
    {
        proof {
            use_type_invariant(self);
            assert forall|i: int| 0 <= i < self.keys().len() implies self@[#[trigger] self.keys()[i]]
                == self.connections@[i]@ by {
                self.entry(i);
            }
        }
        let mut records: Vec<(String, ConnectionRecord)> = Vec::new();
        let mut i: usize = 0;
        while i < self.keys.len()
            invariant
                i <= self.keys@.len(),
                self.keys@.len() == self.connections@.len(),
                records@.len() == i,
                forall|j: int|
                    0 <= j < i ==> (#[trigger] records@[j]).0@ == self.keys()[j] && records@[j].1@
                        == self.connections@[j]@,
            decreases self.keys@.len() - i,
        {
            records.push((self.keys[i].clone(), self.connections[i].to_record()));
            i = i + 1;
        }
        assert(listed(records@) =~= listing(self@, self.keys()));
        records
    }

    /// The graph that a list of records makes up; of two records under one key the later counts.
    pub fn from_records(records: Vec<(String, ConnectionRecord)>) -> (res: SocialGraph)
        ensures
            res@ == collected(listed(records@)),
    {
        let mut graph = SocialGraph::new();
        let mut i: usize = 0;
        while i < records.len()
            invariant
                i <= records@.len(),
                graph@ == collected(listed(records@).take(i as int)),
            decreases records@.len() - i,
        {
            let ghost done = listed(records@).take(i + 1);
            assert(done.drop_last() =~= listed(records@).take(i as int));
            graph.insert(records[i].0.clone(), Connection::from_record(&records[i].1));
            i = i + 1;
        }
        assert(listed(records@).take(i as int) =~= listed(records@));
        graph
    }
}

impl Clone for SocialGraph {
    fn clone(&self) -> (res: SocialGraph)
        ensures
            res@ == self@,
    {
        proof {
            use_type_invariant(self);
        }
        let mut keys: Vec<String> = Vec::new();
        let mut connections: Vec<Connection> = Vec::new();
        let mut i: usize = 0;
        while i < self.keys.len()
            invariant
                i <= self.keys@.len(),
                self.keys@.len() == self.connections@.len(),
                keys@.len() == i,
                connections@.len() == i,
                forall|j: int| 0 <= j < i ==> keys@[j] == self.keys@[j],
                forall|j: int| 0 <= j < i ==> (#[trigger] connections@[j])@ == self.connections@[j]@,
            decreases self.keys@.len() - i,
        {
            keys.push(self.keys[i].clone());
            connections.push(self.connections[i].clone());
            i = i + 1;
        }
        let ghost copy = SocialGraph { keys, connections };
        assert(copy.keys() =~= self.keys());
        assert(copy@ =~= self@);
        SocialGraph { keys, connections }
    }
}

impl Default for SocialGraph {
    fn default() -> (res: SocialGraph)
        ensures
            res@ == Map::<Seq<char>, ConnectionView>::empty(),
    {
        SocialGraph::new()
    }
}

/// The refusal of a second connection to one peer.
pub open spec fn already_exists() -> ErrorView {
    ErrorView::Invariant("a connection to this peer already exists"@)
}

/// A [`Connection`] at rest: the same data, with every field open, for a store to write and read.
#[derive(Debug, PartialEq, Eq)]
pub struct ConnectionRecord {
    /// The remote peer's DID.
    pub peer: Did,
    /// The lifecycle state.
    pub state: ConnectionState,
    /// The DID presented to the peer.
    pub presented_local_did: Option<Did>,
    /// The store offered to the peer.
    pub our_offer: Option<StoreCoords>,
    /// The peer's store.
    pub their_store: Option<StoreCoords>,
}

impl View for ConnectionRecord {
    type V = ConnectionView;

    open spec fn view(&self) -> ConnectionView {
        ConnectionView {
            peer: self.peer@,
            state: self.state,
            presented_local_did: did_option(self.presented_local_did),
            our_offer: coords_option(self.our_offer),
            their_store: coords_option(self.their_store),
        }
    }
}

impl Connection {
    /// The record that holds this connection's own fields. The private state makes the connection
    /// opaque to contracts of other modules, which speak of its fields by way of the record.
    pub closed spec fn fields(self) -> ConnectionRecord {
        ConnectionRecord {
            peer: self.peer,
            state: self.state,
            presented_local_did: self.presented_local_did,
            our_offer: self.our_offer,
            their_store: self.their_store,
        }
    }

    /// Each field of a connection is a part of its view.
    pub proof fn view_of_fields(self)
        ensures
            self@.peer == self.fields().peer@,
            self@.state == self.fields().state,
            self@.presented_local_did == did_option(self.fields().presented_local_did),
            self@.our_offer == coords_option(self.fields().our_offer),
            self@.their_store == coords_option(self.fields().their_store),
    {
    }

    /// This connection's fields as a record, which is open to every reader.
    pub fn to_record(&self) -> (res: ConnectionRecord)
        ensures
            res == self.fields(),
            res@ == self@,
    {
        let copy = self.clone();
        ConnectionRecord {
            peer: copy.peer,
            state: copy.state,
            presented_local_did: copy.presented_local_did,
            our_offer: copy.our_offer,
            their_store: copy.their_store,
        }
    }

    /// The connection that a record describes.
    fn from_record(record: &ConnectionRecord) -> (res: Connection)
        ensures
            res@ == record@,
    {
        Connection {
            peer: record.peer.clone(),
            state: record.state,
            presented_local_did: match &record.presented_local_did {
                Some(did) => Some(did.clone()),
                None => None,
            },
            our_offer: match &record.our_offer {
                Some(coords) => Some(coords.clone()),
                None => None,
            },
            their_store: match &record.their_store {
                Some(coords) => Some(coords.clone()),
                None => None,
            },
        }
    }
}

/// A list of records as mathematical values.
pub open spec fn listed(records: Seq<(String, ConnectionRecord)>) -> Seq<
    (Seq<char>, ConnectionView),
> {
    Seq::new(records.len(), |i: int| (records[i].0@, records[i].1@))
}

/// The entries of a graph in the order of a list of keys.
pub open spec fn listing(graph: GraphView, keys: Seq<Seq<char>>) -> Seq<
    (Seq<char>, ConnectionView),
> {
    Seq::new(keys.len(), |i: int| (keys[i], graph[keys[i]]))
}

/// The graph that a list of entries makes up, the later entry of two counting.
pub open spec fn collected(entries: Seq<(Seq<char>, ConnectionView)>) -> GraphView
    decreases entries.len(),
{
    if entries.len() == 0 {
        Map::empty()
    } else {
        collected(entries.drop_last()).insert(entries.last().0, entries.last().1)
    }
}

/// A graph that was written out as records, in key order, is read back as it was.
pub proof fn records_round_trip(graph: GraphView, keys: Seq<Seq<char>>)
    requires
        order::ascending(keys),
        forall|key: Seq<char>| keys.contains(key) <==> graph.contains_key(key),
    ensures
        collected(listing(graph, keys)) == graph,
{
    collected_entries(graph, keys);
    assert(collected(listing(graph, keys)) =~= graph);
}

/// Collecting a listing gives the graph restricted to the listed keys.
proof fn collected_entries(graph: GraphView, keys: Seq<Seq<char>>)
    ensures
        forall|key: Seq<char>| #[trigger]
            collected(listing(graph, keys)).contains_key(key) <==> keys.contains(key),
        forall|key: Seq<char>|
            keys.contains(key) ==> #[trigger] collected(listing(graph, keys))[key] == graph[key],
    decreases keys.len(),
{
    if keys.len() > 0 {
        let fewer = keys.drop_last();
        collected_entries(graph, fewer);
        let entries = listing(graph, keys);
        assert(entries.drop_last() =~= listing(graph, fewer));
        assert(collected(entries) == collected(listing(graph, fewer)).insert(
            keys.last(),
            graph[keys.last()],
        ));
        assert forall|key: Seq<char>| #[trigger]
            keys.contains(key) <==> fewer.contains(key) || key == keys.last() by {
            if keys.contains(key) {
                let i = keys.index_of(key);
                if i < fewer.len() {
                    assert(fewer[i] == key);
                }
            }
            if fewer.contains(key) {
                let i = fewer.index_of(key);
                assert(keys[i] == key);
            }
            if key == keys.last() {
                assert(keys[keys.len() - 1] == key);
            }
        }
    }
}

/// The order in which a graph lists its connections is determined by the graph: two ascending lists
/// of the same keys are one list.
pub proof fn listing_order_is_determined(a: Seq<Seq<char>>, b: Seq<Seq<char>>)
    requires
        order::ascending(a),
        order::ascending(b),
        forall|key: Seq<char>| a.contains(key) <==> b.contains(key),
    ensures
        a == b,
    decreases a.len(),
{
    if a.len() == 0 {
        if b.len() > 0 {
            assert(b.contains(b[0]));
        }
    } else {
        assert(a.contains(a.last()));
        assert(b.len() > 0);
        greatest_is_last(a, b);
        greatest_is_last(b, a);
        let (x, y) = (a.last(), b.last());
        if x != y {
            order::before_is_transitive(x, y, x);
            order::before_is_irreflexive(x);
        }
        let (fewer_a, fewer_b) = (a.drop_last(), b.drop_last());
        assert forall|key: Seq<char>| fewer_a.contains(key) implies fewer_b.contains(key) by {
            without_last(a, b, key);
        }
        assert forall|key: Seq<char>| fewer_b.contains(key) implies fewer_a.contains(key) by {
            without_last(b, a, key);
        }
        listing_order_is_determined(fewer_a, fewer_b);
        assert(a =~= fewer_a.push(x));
        assert(b =~= fewer_b.push(y));
    }
}

/// The last key of an ascending list comes at or before the last of any ascending list that has it.
proof fn greatest_is_last(a: Seq<Seq<char>>, b: Seq<Seq<char>>)
    requires
        a.len() > 0,
        b.len() > 0,
        order::ascending(b),
        forall|key: Seq<char>| a.contains(key) ==> b.contains(key),
    ensures
        a.last() == b.last() || order::text_before(a.last(), b.last()),
{
    assert(a.contains(a.last()));
    let i = b.index_of(a.last());
    assert(b[i] == a.last());
    assert(b[b.len() - 1] == b.last());
}

/// With the last key, which they share, taken from both lists, they still have the same keys.
proof fn without_last(a: Seq<Seq<char>>, b: Seq<Seq<char>>, key: Seq<char>)
    requires
        a.len() > 0,
        b.len() > 0,
        a.last() == b.last(),
        order::ascending(a),
        b.contains(key) || !a.contains(key),
        a.drop_last().contains(key),
    ensures
        b.drop_last().contains(key),
{
    let i = a.drop_last().index_of(key);
    assert(a[i] == key);
    assert(a.contains(key));
    assert(a[a.len() - 1] == a.last());
    order::before_is_irreflexive(key);
    let j = b.index_of(key);
    assert(b[j] == key);
    assert(b.drop_last()[j] == key);
}

} // verus!
