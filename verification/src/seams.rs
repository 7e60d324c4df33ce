//! The four injected seams, the core's only contact with the outside world.
//!
//! The core holds no keys, opens no sockets, watches no chain and touches no disk. What it cannot
//! do purely is a trait that the application implements: [`Transport`], [`EnvelopeSealer`],
//! [`StoreSubscriber`] and [`Persistence`].
//!
//! A seam may answer a call in whatever way it likes. To speak of what happened at the seams, a
//! [`SeamCall`] records one call with what was handed over and what came back. Every seam has a
//! `history`, the calls that were made on it so far: a call adds itself to the history of its seam,
//! and nothing else does. So whoever holds a seam can say exactly which calls were made on it, and
//! which were not. An implementation that is to be verified gives its own history, with a ghost field
//! that it adds to; the default is one fixed value, which no call can be added to. What a seam may
//! answer an implementation may narrow down by `answers`, which is any call unless it says more.

use vstd::prelude::*;

use crate::error::{ErrorView, Result};
use crate::graph::{GraphView, SocialGraph};
use crate::identity::{Bytes32, Did, DidView, SecretKey};
use crate::wire::{CoordsView, EnvelopeView, SealedEnvelope, StoreCoords};

verus! {

/// What a seam answered, as a mathematical value.
pub type Reply<T> = core::result::Result<T, ErrorView>;

/// One call on a seam: what was handed over, and what came back.
#[verifier::ext_equal]
#[allow(inconsistent_fields)]
pub enum SeamCall {
    /// [`Transport::send`].
    Send { envelope: EnvelopeView, reply: Reply<()> },
    /// [`Transport::is_peer_online`].
    IsPeerOnline { peer: DidView, reply: Reply<bool> },
    /// [`EnvelopeSealer::seal`].
    Seal { recipient: DidView, plaintext: Seq<u8>, reply: Reply<Seq<u8>> },
    /// [`EnvelopeSealer::open`].
    Open { our_secret: Seq<u8>, ciphertext: Seq<u8>, reply: Reply<OpenedView> },
    /// [`StoreSubscriber::subscribe`].
    Subscribe { coords: CoordsView, reply: Reply<()> },
    /// [`StoreSubscriber::unsubscribe`].
    Unsubscribe { coords: CoordsView, reply: Reply<()> },
    /// [`Persistence::load`].
    Load { reply: Reply<GraphView> },
    /// [`Persistence::store`].
    Store { graph: GraphView, reply: Reply<()> },
}

/// The four seams.
#[derive(Clone, Copy, PartialEq, Eq, Structural)]
pub enum Seam {
    /// [`Transport`].
    Transport,
    /// [`EnvelopeSealer`].
    Sealer,
    /// [`StoreSubscriber`].
    Subscriber,
    /// [`Persistence`].
    Persistence,
}

impl SeamCall {
    /// The seam that a call is made on.
    pub open spec fn seam(self) -> Seam {
        match self {
            SeamCall::Send { .. } | SeamCall::IsPeerOnline { .. } => Seam::Transport,
            SeamCall::Seal { .. } | SeamCall::Open { .. } => Seam::Sealer,
            SeamCall::Subscribe { .. } | SeamCall::Unsubscribe { .. } => Seam::Subscriber,
            SeamCall::Load { .. } | SeamCall::Store { .. } => Seam::Persistence,
        }
    }
}

/// Those of a sequence of calls that are made on one seam, in order.
pub open spec fn made_on(calls: Seq<SeamCall>, seam: Seam) -> Seq<SeamCall>
    decreases calls.len(),
{
    if calls.len() == 0 {
        Seq::empty()
    } else if calls.last().seam() == seam {
        made_on(calls.drop_last(), seam).push(calls.last())
    } else {
        made_on(calls.drop_last(), seam)
    }
}

/// A call more is a call more on its own seam, and none on the others.
pub proof fn made_on_push(calls: Seq<SeamCall>, call: SeamCall, seam: Seam)
    ensures
        made_on(calls.push(call), seam) == if call.seam() == seam {
            made_on(calls, seam).push(call)
        } else {
            made_on(calls, seam)
        },
{
    assert(calls.push(call).drop_last() =~= calls);
}

/// The calls of two stretches on one seam are those of the first and then those of the second.
pub proof fn made_on_add(a: Seq<SeamCall>, b: Seq<SeamCall>, seam: Seam)
    ensures
        made_on(a + b, seam) == made_on(a, seam) + made_on(b, seam),
    decreases b.len(),
{
    if b.len() == 0 {
        assert(a + b =~= a);
        assert(made_on(a, seam) + made_on(b, seam) =~= made_on(a, seam));
    } else {
        made_on_add(a, b.drop_last(), seam);
        assert((a + b).drop_last() =~= a + b.drop_last());
        assert(made_on(a + b, seam) =~= made_on(a, seam) + made_on(b, seam));
    }
}

/// Delivers sealed envelopes to peers over the live channel, and reports peer presence for the
/// synchronous rendezvous. It relays ciphertext and never sees plaintext.
pub trait Transport {
    /// The calls made on this transport so far.
    open spec fn history(&self) -> Seq<SeamCall> {
        arbitrary()
    }

    /// Whether a call on this kind of transport may end so.
    open spec fn answers(call: SeamCall) -> bool {
        true
    }

    /// Deliver a sealed envelope to its recipient.
    fn send(&mut self, envelope: &SealedEnvelope) -> (res: Result<()>)
        ensures
            final(self).history() == old(self).history().push(
                (SeamCall::Send { envelope: envelope@, reply: crate::error::outcome(res) }),
            ),
            Self::answers(
                (SeamCall::Send { envelope: envelope@, reply: crate::error::outcome(res) }),
            ),
    ;

    /// Whether the given peer is currently reachable.
    fn is_peer_online(&mut self, peer: &Did) -> (res: Result<bool>)
        ensures
            final(self).history() == old(self).history().push(
                (SeamCall::IsPeerOnline { peer: peer@, reply: crate::error::outcome(res) }),
            ),
            Self::answers(
                (SeamCall::IsPeerOnline { peer: peer@, reply: crate::error::outcome(res) }),
            ),
    ;
}

/// A successfully opened and authenticated envelope.
#[derive(Debug, PartialEq, Eq)]
pub struct OpenedEnvelope {
    /// The launcher id of the identity that sealed the envelope.
    pub sender: Bytes32,
    /// The recovered plaintext.
    pub plaintext: Vec<u8>,
}

/// An [`OpenedEnvelope`] as a mathematical value.
#[verifier::ext_equal]
pub struct OpenedView {
    pub sender: Seq<u8>,
    pub plaintext: Seq<u8>,
}

impl View for OpenedEnvelope {
    type V = OpenedView;

    open spec fn view(&self) -> OpenedView {
        OpenedView { sender: self.sender@, plaintext: self.plaintext@ }
    }
}

/// Seals plaintext to a recipient's BLS identity key and opens ciphertext addressed to us.
///
/// The two directions need different key material. Sealing takes only the recipient's DID: the
/// implementation resolves it to the recipient's public key. Opening is a Diffie-Hellman
/// decapsulation and takes our own [`SecretKey`] by reference: the application lends it for the
/// call, and the core neither stores nor derives it.
///
/// Both calls may advance the sealer's own anti-replay state.
pub trait EnvelopeSealer {
    /// The calls made on this sealer so far.
    open spec fn history(&self) -> Seq<SeamCall> {
        arbitrary()
    }

    /// Whether a call on this kind of sealer may end so.
    open spec fn answers(call: SeamCall) -> bool {
        true
    }

    /// Seal `plaintext` so that only `recipient`'s identity key can open it.
    fn seal(&mut self, recipient: &Did, plaintext: &[u8]) -> (res: Result<Vec<u8>>)
        ensures
            final(self).history() == old(self).history().push(
                (SeamCall::Seal {
                    recipient: recipient@,
                    plaintext: plaintext@,
                    reply: crate::error::outcome(res),
                }),
            ),
            Self::answers(
                (SeamCall::Seal {
                    recipient: recipient@,
                    plaintext: plaintext@,
                    reply: crate::error::outcome(res),
                }),
            ),
    ;

    /// Open ciphertext addressed to us, authenticating who sealed it.
    fn open(&mut self, our_secret: &SecretKey, ciphertext: &[u8]) -> (res: Result<OpenedEnvelope>)
        ensures
            final(self).history() == old(self).history().push(
                (SeamCall::Open {
                    our_secret: our_secret@,
                    ciphertext: ciphertext@,
                    reply: crate::error::outcome(res),
                }),
            ),
            Self::answers(
                (SeamCall::Open {
                    our_secret: our_secret@,
                    ciphertext: ciphertext@,
                    reply: crate::error::outcome(res),
                }),
            ),
    ;
}

/// Maintains the local copy of a connected peer's profile store by subscribing to it. The core
/// decides when; the seam does the chain work.
pub trait StoreSubscriber {
    /// The calls made on this subscriber so far.
    open spec fn history(&self) -> Seq<SeamCall> {
        arbitrary()
    }

    /// Whether a call on this kind of subscriber may end so.
    open spec fn answers(call: SeamCall) -> bool {
        true
    }

    /// Begin maintaining the store at `coords`.
    fn subscribe(&mut self, coords: &StoreCoords) -> (res: Result<()>)
        ensures
            final(self).history() == old(self).history().push(
                (SeamCall::Subscribe { coords: coords@, reply: crate::error::outcome(res) }),
            ),
            Self::answers(
                (SeamCall::Subscribe { coords: coords@, reply: crate::error::outcome(res) }),
            ),
    ;

    /// Stop maintaining the store at `coords`.
    fn unsubscribe(&mut self, coords: &StoreCoords) -> (res: Result<()>)
        ensures
            final(self).history() == old(self).history().push(
                (SeamCall::Unsubscribe { coords: coords@, reply: crate::error::outcome(res) }),
            ),
            Self::answers(
                (SeamCall::Unsubscribe { coords: coords@, reply: crate::error::outcome(res) }),
            ),
    ;
}

/// Loads and stores the social graph, sealed at rest.
pub trait Persistence {
    /// The calls made on this persistence so far.
    open spec fn history(&self) -> Seq<SeamCall> {
        arbitrary()
    }

    /// Whether a call on this kind of persistence may end so.
    open spec fn answers(call: SeamCall) -> bool {
        true
    }

    /// Load the persisted graph, or a fresh empty graph if none exists yet.
    fn load(&mut self) -> (res: Result<SocialGraph>)
        ensures
            final(self).history() == old(self).history().push(
                (SeamCall::Load { reply: crate::error::outcome(res) }),
            ),
            Self::answers((SeamCall::Load { reply: crate::error::outcome(res) })),
    ;

    /// Persist the current graph.
    fn store(&mut self, graph: &SocialGraph) -> (res: Result<()>)
        ensures
            final(self).history() == old(self).history().push(
                (SeamCall::Store { graph: graph@, reply: crate::error::outcome(res) }),
            ),
            Self::answers((SeamCall::Store { graph: graph@, reply: crate::error::outcome(res) })),
    ;
}

} // verus!
