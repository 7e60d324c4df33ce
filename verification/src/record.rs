//! What a [manager](crate::manager) is to its contracts: the graph, the record of the calls it made
//! at the seams, and the histories of the seams themselves.
//!
//! What [`flow`](crate::flow) says of the recorded calls is carried over to the histories here: which
//! seams an operation is heard at, how often, and which it leaves alone.

use vstd::prelude::*;

use crate::flow::Run;
use crate::graph::GraphView;
use crate::identity::DidView;
use crate::seams::{made_on, Reply, Seam, SeamCall};
use crate::state::ConnectionState;
use crate::wire::{CoordsView, EnvelopeView, MessageView};

verus! {

/// A manager as a mathematical value.
#[verifier::ext_equal]
pub struct ManagerView {
    /// The connections by peer DID text.
    pub graph: GraphView,
    /// The calls that the manager made at the seams so far, in order.
    pub calls: Seq<SeamCall>,
    /// The history of the transport.
    pub transport: Seq<SeamCall>,
    /// The history of the sealer.
    pub sealer: Seq<SeamCall>,
    /// The history of the subscriber.
    pub subscriber: Seq<SeamCall>,
    /// The history of the persistence.
    pub persistence: Seq<SeamCall>,
}

impl ManagerView {
    /// The history of a seam.
    pub open spec fn history(self, seam: Seam) -> Seq<SeamCall> {
        match seam {
            Seam::Transport => self.transport,
            Seam::Sealer => self.sealer,
            Seam::Subscriber => self.subscriber,
            Seam::Persistence => self.persistence,
        }
    }

    /// The calls made since an earlier moment.
    pub open spec fn calls_since(self, before: ManagerView) -> Seq<SeamCall> {
        self.calls.skip(before.calls.len() as int)
    }

    /// Since an earlier moment the record was only added to, and the history of each seam has grown
    /// by those of the added calls that are made on it, in order, and by nothing else.
    pub open spec fn follows(self, before: ManagerView) -> bool {
        &&& before.calls.len() <= self.calls.len()
        &&& self.calls.take(before.calls.len() as int) == before.calls
        &&& forall|seam: Seam| #[trigger]
            self.history(seam) == before.history(seam) + made_on(self.calls_since(before), seam)
    }

    /// What happened since an earlier moment, as one run with a result.
    pub open spec fn run_since(self, before: ManagerView, result: Reply<()>) -> Run {
        Run {
            before: before.graph,
            calls: self.calls_since(before),
            after: self.graph,
            result,
        }
    }

    /// Where the graph has a peer's connection, if it has one.
    pub open spec fn state_of(self, peer: DidView) -> Option<ConnectionState> {
        if self.graph.contains_key(peer.text) {
            Some(self.graph[peer.text].state)
        } else {
            None
        }
    }

    /// The manager after one more call.
    pub open spec fn called(self, call: SeamCall) -> ManagerView {
        let calls = self.calls.push(call);
        match call.seam() {
            Seam::Transport => ManagerView { calls, transport: self.transport.push(call), ..self },
            Seam::Sealer => ManagerView { calls, sealer: self.sealer.push(call), ..self },
            Seam::Subscriber => ManagerView {
                calls,
                subscriber: self.subscriber.push(call),
                ..self
            },
            Seam::Persistence => ManagerView {
                calls,
                persistence: self.persistence.push(call),
                ..self
            },
        }
    }

    /// The manager with another graph.
    pub open spec fn with_graph(self, graph: GraphView) -> ManagerView {
        ManagerView { graph, ..self }
    }
}

/// Nothing happens in no time.
pub broadcast proof fn follows_itself(view: ManagerView)
    ensures
        #[trigger] view.follows(view),
{
    assert(view.calls_since(view) =~= Seq::empty());
    assert(view.calls.take(view.calls.len() as int) =~= view.calls);
    assert forall|seam: Seam| #[trigger]
        view.history(seam) == view.history(seam) + made_on(view.calls_since(view), seam) by {
        assert(view.history(seam) =~= view.history(seam) + Seq::<SeamCall>::empty());
    }
}

/// One more call follows on what was.
pub broadcast proof fn follows_with_call(before: ManagerView, view: ManagerView, call: SeamCall)
    requires
        view.follows(before),
    ensures
        #[trigger] view.called(call).follows(before),
{
    let after = view.called(call);
    assert(after.calls_since(before) =~= view.calls_since(before).push(call));
    assert forall|seam: Seam| #[trigger]
        after.history(seam) == before.history(seam) + made_on(after.calls_since(before), seam) by {
        crate::seams::made_on_push(view.calls_since(before), call, seam);
        assert(view.history(seam) == before.history(seam) + made_on(
            view.calls_since(before),
            seam,
        ));
    }
    assert(after.calls.take(before.calls.len() as int) =~= view.calls.take(
        before.calls.len() as int,
    ));
}

/// A change of the graph alone follows on what was.
pub broadcast proof fn follows_with_graph(before: ManagerView, view: ManagerView, graph: GraphView)
    requires
        view.follows(before),
    ensures
        #[trigger] view.with_graph(graph).follows(before),
{
    let after = view.with_graph(graph);
    assert forall|seam: Seam| #[trigger]
        after.history(seam) == before.history(seam) + made_on(after.calls_since(before), seam) by {
        assert(after.history(seam) == view.history(seam));
    }
}

/// What follows step by step.
pub broadcast group group_follows {
    follows_itself,
    follows_with_call,
    follows_with_graph,
}

/// Two stretches make up one.
pub proof fn follows_through(a: ManagerView, b: ManagerView, c: ManagerView)
    requires
        b.follows(a),
        c.follows(b),
    ensures
        c.follows(a),
        c.calls_since(a) == b.calls_since(a) + c.calls_since(b),
{
    let (x, y, z) = (a.calls, b.calls, c.calls);
    assert forall|i: int| 0 <= i < y.len() implies z[i] == y[i] by {
        assert(z.take(y.len() as int)[i] == z[i]);
    }
    assert forall|i: int| 0 <= i < x.len() implies z[i] == x[i] by {
        assert(y.take(x.len() as int)[i] == y[i]);
    }
    assert(c.calls_since(a) =~= b.calls_since(a) + c.calls_since(b));
    assert(z.take(x.len() as int) =~= x);
    assert forall|seam: Seam| #[trigger]
        c.history(seam) == a.history(seam) + made_on(c.calls_since(a), seam) by {
        crate::seams::made_on_add(b.calls_since(a), c.calls_since(b), seam);
        assert(b.history(seam) == a.history(seam) + made_on(b.calls_since(a), seam));
    }
}

/// Calls none of which is on a seam come to none on that seam.
proof fn made_elsewhere(calls: Seq<SeamCall>, seam: Seam)
    requires
        forall|i: int| 0 <= i < calls.len() ==> (#[trigger] calls[i]).seam() != seam,
    ensures
        made_on(calls, seam) == Seq::<SeamCall>::empty(),
    decreases calls.len(),
{
    if calls.len() > 0 {
        made_elsewhere(calls.drop_last(), seam);
    }
}

/// A seam that no recorded call was made on was left alone: its history is what it was.
pub proof fn seam_without_calls_is_left_alone(before: ManagerView, after: ManagerView, seam: Seam)
    requires
        after.follows(before),
        forall|i: int|
            0 <= i < after.calls_since(before).len() ==> (#[trigger] after.calls_since(
                before,
            )[i]).seam() != seam,
    ensures
        after.history(seam) == before.history(seam),
{
    made_elsewhere(after.calls_since(before), seam);
    assert(after.history(seam) =~= before.history(seam));
}

/// Nothing is subscribed to ahead of consent: an operation of the local user on a peer whose request
/// does not await consent, and which is not connected, leaves the subscriber alone.
pub proof fn subscriber_is_left_alone_without_consent(
    before: ManagerView,
    after: ManagerView,
    result: Reply<()>,
    peer: DidView,
    presented_local_did: DidView,
    our_coords: CoordsView,
)
    requires
        after.follows(before),
        after.run_since(before, result).started_by_user(peer, presented_local_did, our_coords),
        before.state_of(peer) != Some(ConnectionState::AwaitingRecipientSelect),
        before.state_of(peer) != Some(ConnectionState::Connected),
    ensures
        after.subscriber == before.subscriber,
{
    seam_without_calls_is_left_alone(before, after, Seam::Subscriber);
    assert(after.history(Seam::Subscriber) == before.history(Seam::Subscriber));
}

/// Nothing is subscribed to ahead of the handshake: a message from a peer that was not sent a
/// request, and which is not connected, leaves the subscriber alone.
pub proof fn subscriber_is_left_alone_without_request(
    before: ManagerView,
    after: ManagerView,
    result: Reply<()>,
    our_secret: Seq<u8>,
    envelope: EnvelopeView,
)
    requires
        after.follows(before),
        after.run_since(before, result).incoming(our_secret, envelope),
        before.state_of(envelope.sender) != Some(ConnectionState::RequestorOffered),
        before.state_of(envelope.sender) != Some(ConnectionState::Connected),
    ensures
        after.subscriber == before.subscriber,
{
    seam_without_calls_is_left_alone(before, after, Seam::Subscriber);
    assert(after.history(Seam::Subscriber) == before.history(Seam::Subscriber));
}

/// Handling a message leaves the transport alone: nothing is sent, and nobody's presence is asked.
pub proof fn transport_is_left_alone_by_messages(
    before: ManagerView,
    after: ManagerView,
    result: Reply<()>,
    our_secret: Seq<u8>,
    envelope: EnvelopeView,
)
    requires
        after.follows(before),
        after.run_since(before, result).incoming(our_secret, envelope),
    ensures
        after.transport == before.transport,
{
    seam_without_calls_is_left_alone(before, after, Seam::Transport);
    assert(after.history(Seam::Transport) == before.history(Seam::Transport));
}

/// The `i`-th call as a sequence, if there is one and it is on a seam.
pub open spec fn nth_on(calls: Seq<SeamCall>, i: int, seam: Seam) -> Seq<SeamCall> {
    if i < calls.len() && calls[i].seam() == seam {
        seq![calls[i]]
    } else {
        Seq::empty()
    }
}

/// The history of a seam after up to four calls, one by one. (No operation makes more than four.)
pub proof fn history_one_by_one(before: ManagerView, after: ManagerView, seam: Seam)
    requires
        after.follows(before),
        after.calls_since(before).len() <= 4,
    ensures
        ({
            let calls = after.calls_since(before);
            after.history(seam) == before.history(seam) + nth_on(calls, 0, seam) + nth_on(
                calls,
                1,
                seam,
            ) + nth_on(calls, 2, seam) + nth_on(calls, 3, seam)
        }),
{
    reveal_with_fuel(made_on, 5);
    assert(after.history(seam) == before.history(seam) + made_on(after.calls_since(before), seam));
}

/// At which seam a request that succeeds is heard: the sealer once; the transport once for the
/// peer's presence and, only if the peer is online, once more for the one envelope; the persistence
/// once, at last; the subscriber never.
pub proof fn request_at_the_seams(
    before: ManagerView,
    after: ManagerView,
    result: Reply<()>,
    peer: DidView,
    presented_local_did: DidView,
    our_coords: CoordsView,
)
    requires
        after.follows(before),
        after.run_since(before, result).request(peer, presented_local_did, our_coords),
        result is Ok,
    ensures
        ({
            let calls = after.calls_since(before);
            let online = calls[1] == (SeamCall::IsPeerOnline { peer, reply: Ok(true) });
            &&& calls[0] is Seal
            &&& calls[1] is IsPeerOnline
            &&& after.sealer == before.sealer.push(calls[0])
            &&& online ==> calls[2] is Send && after.transport == before.transport.push(
                calls[1],
            ).push(calls[2])
            &&& !online ==> after.transport == before.transport.push(calls[1])
            &&& after.subscriber == before.subscriber
            &&& after.persistence == before.persistence.push(calls.last())
        }),
{
    history_one_by_one(before, after, Seam::Transport);
    history_one_by_one(before, after, Seam::Sealer);
    history_one_by_one(before, after, Seam::Subscriber);
    history_one_by_one(before, after, Seam::Persistence);
}

/// At which seam an approval that succeeds is heard: at each of the four, once, in the order seal,
/// subscribe, send, store.
pub proof fn approval_at_the_seams(
    before: ManagerView,
    after: ManagerView,
    result: Reply<()>,
    peer: DidView,
    presented_local_did: DidView,
    our_coords: CoordsView,
)
    requires
        after.follows(before),
        after.run_since(before, result).approve(peer, presented_local_did, our_coords),
        result is Ok,
    ensures
        ({
            let calls = after.calls_since(before);
            &&& calls.len() == 4
            &&& calls[0] is Seal && after.sealer == before.sealer.push(calls[0])
            &&& calls[1] is Subscribe && after.subscriber == before.subscriber.push(calls[1])
            &&& calls[2] is Send && after.transport == before.transport.push(calls[2])
            &&& calls[3] is Store && after.persistence == before.persistence.push(calls[3])
        }),
{
    history_one_by_one(before, after, Seam::Transport);
    history_one_by_one(before, after, Seam::Sealer);
    history_one_by_one(before, after, Seam::Subscriber);
    history_one_by_one(before, after, Seam::Persistence);
}

/// At which seam a denial is heard, whatever comes of it: one notice at the transport, nothing at the
/// sealer and the subscriber.
pub proof fn denial_at_the_seams(
    before: ManagerView,
    after: ManagerView,
    result: Reply<()>,
    peer: DidView,
    presented_local_did: DidView,
)
    requires
        after.follows(before),
        after.run_since(before, result).deny(peer, presented_local_did),
    ensures
        after.calls_since(before)[0] is Send,
        after.transport == before.transport.push(after.calls_since(before)[0]),
        after.sealer == before.sealer,
        after.subscriber == before.subscriber,
{
    history_one_by_one(before, after, Seam::Transport);
    history_one_by_one(before, after, Seam::Sealer);
    history_one_by_one(before, after, Seam::Subscriber);
    history_one_by_one(before, after, Seam::Persistence);
}

/// At which seam a revocation is heard: if it succeeds, one notice at the transport; if the
/// connection may not be revoked, nothing anywhere.
pub proof fn revocation_at_the_seams(
    before: ManagerView,
    after: ManagerView,
    result: Reply<()>,
    peer: DidView,
    presented_local_did: DidView,
)
    requires
        after.follows(before),
        after.run_since(before, result).revoke(peer, presented_local_did),
    ensures
        result is Ok ==> exists|i: int|
            {
                &&& 0 <= i < after.calls_since(before).len()
                &&& #[trigger] after.calls_since(before)[i] is Send
                &&& after.transport == before.transport.push(after.calls_since(before)[i])
            },
        before.state_of(peer) != Some(ConnectionState::Connected) ==> {
            &&& after.transport == before.transport
            &&& after.sealer == before.sealer
            &&& after.subscriber == before.subscriber
            &&& after.persistence == before.persistence
        },
{
    history_one_by_one(before, after, Seam::Transport);
    history_one_by_one(before, after, Seam::Sealer);
    history_one_by_one(before, after, Seam::Subscriber);
    history_one_by_one(before, after, Seam::Persistence);
}

/// At which seam a resumption is heard: at the persistence and nowhere else.
pub proof fn resumption_at_the_seams(
    before: ManagerView,
    after: ManagerView,
    result: Reply<()>,
    peer: DidView,
)
    requires
        after.follows(before),
        after.run_since(before, result).resume(peer),
    ensures
        after.transport == before.transport,
        after.sealer == before.sealer,
        after.subscriber == before.subscriber,
{
    history_one_by_one(before, after, Seam::Transport);
    history_one_by_one(before, after, Seam::Sealer);
    history_one_by_one(before, after, Seam::Subscriber);
    history_one_by_one(before, after, Seam::Persistence);
}

/// At which seam a message is heard. At the sealer, a message with an offer is heard once, and a bare
/// or malformed one never. At the subscriber an acceptance is heard at most once, and a request or a
/// denial never.
pub proof fn message_at_the_seams(
    before: ManagerView,
    after: ManagerView,
    result: Reply<()>,
    our_secret: Seq<u8>,
    envelope: EnvelopeView,
)
    requires
        after.follows(before),
        after.run_since(before, result).incoming(our_secret, envelope),
    ensures
        ({
            let calls = after.calls_since(before);
            match crate::wire::decoded_message(envelope.payload) {
                Ok(MessageView::Request(_)) => {
                    &&& calls[0] is Open && after.sealer == before.sealer.push(calls[0])
                    &&& after.subscriber == before.subscriber
                },
                Ok(MessageView::Accept(_)) => {
                    &&& calls[0] is Open && after.sealer == before.sealer.push(calls[0])
                    &&& after.subscriber == before.subscriber || {
                        &&& calls[1] is Subscribe
                        &&& after.subscriber == before.subscriber.push(calls[1])
                    }
                },
                Ok(MessageView::Deny) => after.sealer == before.sealer && after.subscriber
                    == before.subscriber,
                Ok(MessageView::Revoke) => after.sealer == before.sealer,
                Err(_) => {
                    &&& after.sealer == before.sealer
                    &&& after.subscriber == before.subscriber
                    &&& after.persistence == before.persistence
                },
            }
        }),
{
    history_one_by_one(before, after, Seam::Transport);
    history_one_by_one(before, after, Seam::Sealer);
    history_one_by_one(before, after, Seam::Subscriber);
    history_one_by_one(before, after, Seam::Persistence);
}

} // verus!
