//! What the graph and its connections do, stated of the calls of them, and how one call sees what
//! another did.

use vstd::prelude::*;
use vstd::std_specs::iter::IteratorSpec;
use vstd::utf8::*;

use crate::error::{ErrorView, Result};
use crate::graph::{Connection, ConnectionRecord, ConnectionView, SocialGraph};
use crate::identity::Did;
use crate::order::text_before;
use crate::state::{ConnectionEvent, ConnectionState};
use crate::wire::StoreCoords;

verus! {

/// A new graph knows nobody.
pub proof fn new_graph_is_empty(
    graph: SocialGraph,
    other: SocialGraph,
    peer: &Did,
    found: Option<&Connection>,
    len: usize,
    empty: bool,
)
    requires
        call_ensures(SocialGraph::new, (), graph),
        call_ensures(<SocialGraph as Default>::default, (), other),
        call_ensures(SocialGraph::get, (&graph, peer), found),
        call_ensures(SocialGraph::len, (&graph,), len),
        call_ensures(SocialGraph::is_empty, (&graph,), empty),
    ensures
        found is None,
        len == 0,
        empty,
        other@ == graph@,
{
}

/// The number of connections is zero exactly if the graph is empty.
pub proof fn empty_means_none(graph: &SocialGraph, len: usize, empty: bool)
    requires
        call_ensures(SocialGraph::len, (graph,), len),
        call_ensures(SocialGraph::is_empty, (graph,), empty),
    ensures
        empty <==> len == 0,
        graph@.dom().finite(),
        len == graph@.dom().len(),
{
    if graph@.len() == 0 {
        assert(graph@.dom() =~= Set::empty());
        assert(graph@ =~= Map::empty());
    } else {
        if empty {
            assert(graph@.dom() =~= Set::empty());
        }
    }
}

/// An outbound connection is begun with a peer that is not known, whoever else is. It is then found
/// under that peer: not reached yet, with the DID that was presented and the offer as given, and
/// without a store of the peer's. Nobody else's connection changes, and there is one more.
pub proof fn initiation_adds_the_peer(
    graph: &mut SocialGraph,
    peer: Did,
    presented: Did,
    offer: StoreCoords,
    res: Result<&Connection>,
    later: &SocialGraph,
    other: &Did,
    found: Option<&Connection>,
    len_before: usize,
    len_after: usize,
)
    requires
        !old(graph)@.contains_key(peer@.text),
        call_ensures(SocialGraph::len, (&*old(graph),), len_before),
        call_ensures(SocialGraph::initiate, (graph, peer, presented, offer), res),
        *later == *final(graph),
        call_ensures(SocialGraph::get, (later, other), found),
        call_ensures(SocialGraph::len, (later,), len_after),
    ensures
        ({
            let fresh = ConnectionView {
                peer: peer@,
                state: ConnectionState::Requested,
                presented_local_did: Some(presented@),
                our_offer: Some(offer@),
                their_store: None,
            };
            &&& res matches Ok(connection)
            &&& connection@ == fresh
            &&& other@.text == peer@.text ==> (found matches Some(there) && there@ == fresh)
        }),
        other@.text != peer@.text ==> {
            &&& found is Some <==> old(graph)@.contains_key(other@.text)
            &&& found matches Some(there) ==> there@ == old(graph)@[other@.text]
        },
        len_after == len_before + 1,
{
    assert(final(graph)@.dom() =~= old(graph)@.dom().insert(peer@.text));
}

/// A request is received from a peer that is not known, whoever else is. The peer is then found as
/// awaiting consent, with its store as given, and with nothing presented or offered to it. Nobody
/// else's connection changes, and there is one more.
pub proof fn received_request_adds_the_peer(
    graph: &mut SocialGraph,
    peer: Did,
    store: StoreCoords,
    res: Result<&Connection>,
    later: &SocialGraph,
    other: &Did,
    found: Option<&Connection>,
    len_before: usize,
    len_after: usize,
)
    requires
        !old(graph)@.contains_key(peer@.text),
        call_ensures(SocialGraph::len, (&*old(graph),), len_before),
        call_ensures(SocialGraph::receive_request, (graph, peer, store), res),
        *later == *final(graph),
        call_ensures(SocialGraph::get, (later, other), found),
        call_ensures(SocialGraph::len, (later,), len_after),
    ensures
        ({
            let fresh = ConnectionView {
                peer: peer@,
                state: ConnectionState::AwaitingRecipientSelect,
                presented_local_did: None,
                our_offer: None,
                their_store: Some(store@),
            };
            &&& res matches Ok(connection)
            &&& connection@ == fresh
            &&& other@.text == peer@.text ==> (found matches Some(there) && there@ == fresh)
        }),
        other@.text != peer@.text ==> {
            &&& found is Some <==> old(graph)@.contains_key(other@.text)
            &&& found matches Some(there) ==> there@ == old(graph)@[other@.text]
        },
        len_after == len_before + 1,
{
    assert(final(graph)@.dom() =~= old(graph)@.dom().insert(peer@.text));
}

/// A second connection to one peer is refused, either way it is begun, and changes nothing.
pub proof fn second_connection_is_refused(
    graph: &mut SocialGraph,
    peer: Did,
    presented: Did,
    offer: StoreCoords,
    initiated: Result<&Connection>,
    other: &mut SocialGraph,
    store: StoreCoords,
    received: Result<&Connection>,
)
    requires
        old(graph)@.contains_key(peer@.text),
        old(other)@.contains_key(peer@.text),
        call_ensures(SocialGraph::initiate, (graph, peer, presented, offer), initiated),
        call_ensures(SocialGraph::receive_request, (other, peer, store), received),
    ensures
        initiated matches Err(error) && error@ == ErrorView::Invariant(
            "a connection to this peer already exists"@,
        ),
        received matches Err(error) && error@ == ErrorView::Invariant(
            "a connection to this peer already exists"@,
        ),
        *final(graph) == *old(graph),
        *final(other) == *old(other),
{
}

/// Looking a peer up finds the connection that the graph holds for it, and none exactly if it holds
/// none.
pub proof fn lookup_finds_the_peer(graph: &SocialGraph, peer: &Did, found: Option<&Connection>)
    requires
        call_ensures(SocialGraph::get, (graph, peer), found),
    ensures
        found is Some <==> graph@.contains_key(peer@.text),
        found matches Some(connection) ==> connection@ == graph@[peer@.text],
{
}

/// A mutable handle is to the very connection that a lookup finds; what is done through it is done
/// to that connection, and to nobody else's.
pub proof fn handle_changes_one_connection(
    graph: &mut SocialGraph,
    peer: &Did,
    found: Option<&Connection>,
    handle: Option<&mut Connection>,
)
    requires
        call_ensures(SocialGraph::get, (&*old(graph), peer), found),
        call_ensures(SocialGraph::get_mut, (graph, peer), handle),
    ensures
        handle is Some <==> found is Some,
        match handle {
            Some(connection) => {
                &&& connection@ == found->0@
                &&& final(graph)@.contains_key(peer@.text)
                &&& final(graph)@[peer@.text] == final(connection)@
                &&& forall|key: Seq<char>|
                    key != peer@.text ==> {
                        &&& #[trigger] final(graph)@.contains_key(key) == old(
                            graph,
                        )@.contains_key(key)
                        &&& old(graph)@.contains_key(key) ==> final(graph)@[key] == old(graph)@[key]
                    }
            },
            None => *final(graph) == *old(graph),
        },
{
}

/// Removing a peer returns the connection that a lookup finds. The peer is then not known any more,
/// nobody else's connection changes, and beginning a connection to it anew succeeds.
pub proof fn removal_forgets_the_peer(
    graph: &mut SocialGraph,
    peer: &Did,
    found: Option<&Connection>,
    removed: Option<Connection>,
    later: &SocialGraph,
    other: &Did,
    found_later: Option<&Connection>,
)
    requires
        call_ensures(SocialGraph::get, (&*old(graph), peer), found),
        call_ensures(SocialGraph::remove, (graph, peer), removed),
        *later == *final(graph),
        call_ensures(SocialGraph::get, (later, other), found_later),
    ensures
        match found {
            Some(connection) => removed matches Some(taken) && taken@ == connection@,
            None => removed is None && final(graph)@ == old(graph)@,
        },
        other@.text == peer@.text ==> found_later is None,
        other@.text != peer@.text ==> {
            &&& found_later is Some <==> old(graph)@.contains_key(other@.text)
            &&& found_later matches Some(there) ==> there@ == old(graph)@[other@.text]
        },
{
    if found is None {
        assert(final(graph)@ =~= old(graph)@);
    }
}

/// Removing a peer that was just added gives back the graph as it was.
pub proof fn removal_undoes_initiation(
    graph: &mut SocialGraph,
    peer: Did,
    presented: Did,
    offer: StoreCoords,
    res: Result<&Connection>,
    later: &mut SocialGraph,
    removed: Option<Connection>,
)
    requires
        !old(graph)@.contains_key(peer@.text),
        call_ensures(SocialGraph::initiate, (graph, peer, presented, offer), res),
        old(later)@ == final(graph)@,
        call_ensures(SocialGraph::remove, (later, &peer), removed),
    ensures
        final(later)@ == old(graph)@,
        removed is Some,
{
    assert(final(later)@ =~= old(graph)@);
}

/// Walking the graph meets every connection, once, in the order of the UTF-8 bytes of the peers'
/// texts.
pub proof fn walk_meets_everyone_in_order(
    graph: &SocialGraph,
    walk: core::slice::Iter<'_, Connection>,
)
    requires
        call_ensures(SocialGraph::iter, (graph,), walk),
    ensures
        walk.remaining().len() == graph.keys().len(),
        forall|i: int|
            0 <= i < walk.remaining().len() ==> {
                &&& graph@.contains_key(graph.keys()[i])
                &&& (#[trigger] walk.remaining()[i])@ == graph@[graph.keys()[i]]
            },
        forall|i: int, j: int|
            0 <= i < j < walk.remaining().len() ==> text_before(
                #[trigger] graph.keys()[i],
                #[trigger] graph.keys()[j],
            ),
        forall|key: Seq<char>| #[trigger] graph@.contains_key(key) ==> graph.keys().contains(key),
{
    assert forall|i: int| 0 <= i < graph.keys().len() implies graph@.contains_key(
        #[trigger] graph.keys()[i],
    ) by {
        assert(graph.keys().contains(graph.keys()[i]));
    }
}

/// One text comes before another exactly if its UTF-8 bytes do, lexicographically: it is a proper
/// beginning of the other, or the first byte in which they differ is smaller. Of two texts that
/// are not the same, one comes before the other, and not both.
pub proof fn texts_are_ordered_by_their_bytes(a: Seq<char>, b: Seq<char>, at: int)
    requires
        0 <= at,
        at <= encode_utf8(a).len(),
        at <= encode_utf8(b).len(),
        forall|i: int| 0 <= i < at ==> encode_utf8(a)[i] == encode_utf8(b)[i],
    ensures
        at == encode_utf8(a).len() && at < encode_utf8(b).len() ==> text_before(a, b),
        at < encode_utf8(a).len() && at < encode_utf8(b).len() && encode_utf8(a)[at] < encode_utf8(
            b,
        )[at] ==> text_before(a, b),
        text_before(a, b) ==> !text_before(b, a) && a != b,
{
    if at < encode_utf8(b).len() && (at == encode_utf8(a).len() || encode_utf8(a)[at] < encode_utf8(
        b,
    )[at]) {
        assert(crate::order::first_difference(encode_utf8(a), encode_utf8(b), at));
    }
    if text_before(a, b) {
        crate::order::before_is_irreflexive(a);
        if text_before(b, a) {
            crate::order::before_is_transitive(a, b, a);
        }
    }
}

/// A graph that was written out as records is read back from them as it was.
pub proof fn records_are_read_back(
    graph: &SocialGraph,
    records: Vec<(String, ConnectionRecord)>,
    back: SocialGraph,
)
    requires
        call_ensures(SocialGraph::to_records, (graph,), records),
        call_ensures(SocialGraph::from_records, (records,), back),
    ensures
        back@ == graph@,
{
    crate::graph::records_round_trip(graph@, graph.keys());
}

/// The records of a graph are its connections under the peers' texts, in the order of a walk.
pub proof fn records_are_the_walk(
    graph: &SocialGraph,
    records: Vec<(String, ConnectionRecord)>,
    walk: core::slice::Iter<'_, Connection>,
)
    requires
        call_ensures(SocialGraph::to_records, (graph,), records),
        call_ensures(SocialGraph::iter, (graph,), walk),
    ensures
        records@.len() == walk.remaining().len(),
        forall|i: int|
            0 <= i < records@.len() ==> {
                &&& (#[trigger] records@[i]).0@ == graph.keys()[i]
                &&& records@[i].1@ == walk.remaining()[i]@
            },
{
    let (a, b) = (
        crate::graph::listed(records@),
        crate::graph::listing(graph@, graph.keys()),
    );
    assert(a.len() == b.len());
    assert forall|i: int| 0 <= i < records@.len() implies {
        &&& (#[trigger] records@[i]).0@ == graph.keys()[i]
        &&& records@[i].1@ == walk.remaining()[i]@
    } by {
        assert(a[i] == b[i]);
        assert(walk.remaining()[i]@ == graph@[graph.keys()[i]]);
    }
}

/// A graph read from records holds, under each key, the connection of the last record with that
/// key, and nothing else.
pub proof fn last_record_of_a_key_counts(
    records: Vec<(String, ConnectionRecord)>,
    graph: SocialGraph,
    i: int,
)
    requires
        call_ensures(SocialGraph::from_records, (records,), graph),
        0 <= i < records@.len(),
        forall|j: int| i < j < records@.len() ==> (#[trigger] records@[j]).0@ != records@[i].0@,
    ensures
        graph@.contains_key(records@[i].0@),
        graph@[records@[i].0@] == records@[i].1@,
{
    let entries = crate::graph::listed(records@);
    assert forall|j: int| i < j < entries.len() implies (#[trigger] entries[j]).0
        != entries[i].0 by {
        assert(records@[j].0@ != records@[i].0@);
    }
    last_entry_counts(entries, i);
}

/// The part of [`last_record_of_a_key_counts`] over entries.
proof fn last_entry_counts(entries: Seq<(Seq<char>, ConnectionView)>, i: int)
    requires
        0 <= i < entries.len(),
        forall|j: int| i < j < entries.len() ==> (#[trigger] entries[j]).0 != entries[i].0,
    ensures
        crate::graph::collected(entries).contains_key(entries[i].0),
        crate::graph::collected(entries)[entries[i].0] == entries[i].1,
    decreases entries.len(),
{
    if i < entries.len() - 1 {
        let fewer = entries.drop_last();
        assert forall|j: int| i < j < fewer.len() implies (#[trigger] fewer[j]).0 != fewer[i].0 by {
            assert(entries[j].0 != entries[i].0);
        }
        last_entry_counts(fewer, i);
        assert(entries[entries.len() - 1].0 != entries[i].0);
    }
}

/// A graph read from records knows nobody that no record names.
pub proof fn no_record_no_connection(
    records: Vec<(String, ConnectionRecord)>,
    graph: SocialGraph,
    key: Seq<char>,
)
    requires
        call_ensures(SocialGraph::from_records, (records,), graph),
        forall|j: int| 0 <= j < records@.len() ==> (#[trigger] records@[j]).0@ != key,
    ensures
        !graph@.contains_key(key),
{
    let entries = crate::graph::listed(records@);
    assert forall|j: int| 0 <= j < entries.len() implies (#[trigger] entries[j]).0 != key by {
        assert(records@[j].0@ != key);
    }
    no_entry_counts(entries, key);
}

/// The part of [`no_record_no_connection`] over entries.
proof fn no_entry_counts(entries: Seq<(Seq<char>, ConnectionView)>, key: Seq<char>)
    requires
        forall|j: int| 0 <= j < entries.len() ==> (#[trigger] entries[j]).0 != key,
    ensures
        !crate::graph::collected(entries).contains_key(key),
    decreases entries.len(),
{
    if entries.len() > 0 {
        assert(entries[entries.len() - 1].0 != key);
        no_entry_counts(entries.drop_last(), key);
    }
}

/// A copy of a graph or of a connection is the same.
pub proof fn copies_are_the_same(
    graph: &SocialGraph,
    graph_copy: SocialGraph,
    connection: &Connection,
    connection_copy: Connection,
)
    requires
        call_ensures(<SocialGraph as Clone>::clone, (graph,), graph_copy),
        call_ensures(<Connection as Clone>::clone, (connection,), connection_copy),
    ensures
        graph_copy@ == graph@,
        connection_copy@ == connection@,
{
}

/// An event moves a connection as it moves its state, and changes nothing else of it; one that the
/// state refuses is refused with that error, and changes nothing.
pub proof fn event_moves_the_state_alone(
    connection: &mut Connection,
    event: ConnectionEvent,
    res: Result<()>,
    state: ConnectionState,
    step: Result<ConnectionState>,
)
    requires
        call_ensures(Connection::state, (&*old(connection),), state),
        call_ensures(ConnectionState::apply, (state, event), step),
        call_ensures(Connection::apply, (connection, event), res),
    ensures
        match step {
            Ok(next) => {
                &&& res is Ok
                &&& final(connection)@ == (ConnectionView { state: next, ..old(connection)@ })
            },
            Err(error) => {
                &&& res matches Err(e) && e@ == error@
                &&& *final(connection) == *old(connection)
            },
        },
{
}

/// A record holds the parts of its connection.
pub proof fn record_holds_the_parts(
    connection: &Connection,
    record: ConnectionRecord,
    state: ConnectionState,
)
    requires
        call_ensures(Connection::to_record, (connection,), record),
        call_ensures(Connection::state, (connection,), state),
    ensures
        record.peer@ == connection@.peer,
        record.state == state,
        state == connection@.state,
        match record.presented_local_did {
            Some(did) => connection@.presented_local_did == Some(did@),
            None => connection@.presented_local_did is None,
        },
        match record.our_offer {
            Some(coords) => connection@.our_offer == Some(coords@),
            None => connection@.our_offer is None,
        },
        match record.their_store {
            Some(coords) => connection@.their_store == Some(coords@),
            None => connection@.their_store is None,
        },
{
}

} // verus!
