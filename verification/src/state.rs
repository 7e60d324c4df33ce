//! The connection state machine: a pure transition function on `(state, event)`.
//!
//! Every state is described from the local node's perspective for one peer. A connection is one of
//! two symmetric journeys plus their terminal and suspended states:
//!
//! - **Outbound** (the local node is the requestor): `Requested`, `RequestorOffered`, `Connected`.
//! - **Inbound** (the local node is the recipient): `AwaitingRecipientSelect`, `RecipientOffered`,
//!   `Connected`.
//!
//! [`ConnectionState::next`] is the whole machine as a mathematical function;
//! [`ConnectionState::apply`] computes it. The protocol's promises about the handshake (it is
//! offer-first, symmetric, synchronous, mutual, and consent is mandatory and revocable) are the
//! proof functions at the end of this module.

use vstd::prelude::*;

use crate::error::{Error, Result};

verus! {

/// The lifecycle of one peer connection, from the local node's perspective.
#[derive(Debug, Clone, Copy, PartialEq, Eq, Structural)]
pub enum ConnectionState {
    /// Outbound: a request with the local offer attached exists, but it is not yet delivered.
    Requested,
    /// Outbound: the request reached the peer; their accept or deny is awaited.
    RequestorOffered,
    /// Inbound: a peer's request arrived; the local user must select a profile and approve, or
    /// deny. No profile is served until this resolves.
    AwaitingRecipientSelect,
    /// Inbound: the local user approved and sent an offer back; mutual confirmation is awaited.
    RecipientOffered,
    /// Mutual and live: both ends offered, both subscribed to the other's store, and the handshake
    /// completed while both were online.
    Connected,
    /// A handshake is in flight but the counterpart is offline; it resumes into the [`Suspended`]
    /// state when both are online again.
    PendingRendezvous(Suspended),
    /// Terminal: the request was declined by one side.
    Denied,
    /// Terminal: a live connection was revoked by either side.
    Revoked,
}

/// The states that a connection may be suspended from while it awaits a synchronous rendezvous.
///
/// Only in-flight states have a suspended form, so a parked terminal or live connection has no
/// representation.
#[derive(Debug, Clone, Copy, PartialEq, Eq, Structural)]
pub enum Suspended {
    /// Suspended from [`ConnectionState::Requested`].
    Requested,
    /// Suspended from [`ConnectionState::RequestorOffered`].
    RequestorOffered,
    /// Suspended from [`ConnectionState::RecipientOffered`].
    RecipientOffered,
}

/// The triggers that drive a connection between states. An event carries no payload: the data of a
/// handshake lives on the [`Connection`](crate::graph::Connection), and the machine decides only
/// the next state.
#[derive(Debug, Clone, Copy, PartialEq, Eq, Structural)]
pub enum ConnectionEvent {
    /// Outbound: the local node created a request with its own offer attached.
    RequestSent,
    /// Outbound: the request was delivered to the peer.
    RequestDelivered,
    /// Inbound: a peer's request, with their offer, was received.
    RequestReceived,
    /// Inbound: the local user selected a profile and approved the request.
    Approved,
    /// The request was declined, by the local user (inbound) or by the peer (outbound).
    Denied,
    /// Outbound: the peer's acceptance, with their offer, arrived.
    AcceptReceived,
    /// Inbound: the requestor confirmed that it holds the local profile.
    MutualConfirmed,
    /// The counterpart went offline mid-handshake.
    PeerWentOffline,
    /// The counterpart is online again.
    PeerCameOnline,
    /// A live connection was revoked by either side.
    Revoked,
}

impl Suspended {
    /// The state that a parked connection resumes into.
    pub open spec fn resumed(self) -> ConnectionState {
        match self {
            Suspended::Requested => ConnectionState::Requested,
            Suspended::RequestorOffered => ConnectionState::RequestorOffered,
            Suspended::RecipientOffered => ConnectionState::RecipientOffered,
        }
    }

    /// The suspended form of a state: the one that resumes into it, if there is any.
    pub open spec fn parked(state: ConnectionState) -> Option<Suspended> {
        match state {
            ConnectionState::Requested => Some(Suspended::Requested),
            ConnectionState::RequestorOffered => Some(Suspended::RequestorOffered),
            ConnectionState::RecipientOffered => Some(Suspended::RecipientOffered),
            _ => None,
        }
    }

    /// The concrete state to resume into once both peers are online again.
    pub fn resume(self) -> (res: ConnectionState)
        ensures
            res == self.resumed(),
    {
        match self {
            Suspended::Requested => ConnectionState::Requested,
            Suspended::RequestorOffered => ConnectionState::RequestorOffered,
            Suspended::RecipientOffered => ConnectionState::RecipientOffered,
        }
    }

    /// The suspended form of a state, or `None` if the state cannot be parked.
    pub fn of(state: ConnectionState) -> (res: Option<Suspended>)
        ensures
            res == Suspended::parked(state),
    {
        match state {
            ConnectionState::Requested => Some(Suspended::Requested),
            ConnectionState::RequestorOffered => Some(Suspended::RequestorOffered),
            ConnectionState::RecipientOffered => Some(Suspended::RecipientOffered),
            _ => None,
        }
    }

    /// The variant's name.
    pub open spec fn name(self) -> Seq<char> {
        match self {
            Suspended::Requested => "Requested"@,
            Suspended::RequestorOffered => "RequestorOffered"@,
            Suspended::RecipientOffered => "RecipientOffered"@,
        }
    }
}

impl ConnectionState {
    /// The state that `event` leads to from this one, or `None` where the machine does not accept
    /// the event.
    pub open spec fn next(self, event: ConnectionEvent) -> Option<ConnectionState> {
        match (self, event) {
            (ConnectionState::Requested, ConnectionEvent::RequestDelivered) => Some(
                ConnectionState::RequestorOffered,
            ),
            (ConnectionState::RequestorOffered, ConnectionEvent::AcceptReceived) => Some(
                ConnectionState::Connected,
            ),
            (ConnectionState::RequestorOffered, ConnectionEvent::Denied) => Some(
                ConnectionState::Denied,
            ),
            (ConnectionState::AwaitingRecipientSelect, ConnectionEvent::Approved) => Some(
                ConnectionState::RecipientOffered,
            ),
            (ConnectionState::AwaitingRecipientSelect, ConnectionEvent::Denied) => Some(
                ConnectionState::Denied,
            ),
            (ConnectionState::RecipientOffered, ConnectionEvent::MutualConfirmed) => Some(
                ConnectionState::Connected,
            ),
            (state, ConnectionEvent::PeerWentOffline) => match Suspended::parked(state) {
                Some(suspended) => Some(ConnectionState::PendingRendezvous(suspended)),
                None => None,
            },
            (
                ConnectionState::PendingRendezvous(suspended),
                ConnectionEvent::PeerCameOnline,
            ) => Some(suspended.resumed()),
            (ConnectionState::Connected, ConnectionEvent::Revoked) => Some(
                ConnectionState::Revoked,
            ),
            _ => None,
        }
    }

    /// The state after a whole sequence of events, or `None` if one of them is not accepted.
    pub open spec fn run(self, events: Seq<ConnectionEvent>) -> Option<ConnectionState>
        decreases events.len(),
    {
        if events.len() == 0 {
            Some(self)
        } else {
            match self.run(events.drop_last()) {
                Some(state) => state.next(events.last()),
                None => None,
            }
        }
    }

    /// The initial state of a connection that the local node initiates.
    pub fn initiated() -> (res: ConnectionState)
        ensures
            res == ConnectionState::Requested,
    {
        ConnectionState::Requested
    }

    /// Apply an event and return the next state, or [`Error::IllegalTransition`] if the event is
    /// not accepted in this state.
    pub fn apply(self, event: ConnectionEvent) -> (res: Result<ConnectionState>)
        ensures
            match self.next(event) {
                Some(state) => res == Ok::<ConnectionState, Error>(state),
                None => res == Err::<ConnectionState, Error>(
                    Error::IllegalTransition { state: self, event },
                ),
            },
    {
        let next = match (self, event) {
            // Outbound requestor journey.
            (ConnectionState::Requested, ConnectionEvent::RequestDelivered) => {
                ConnectionState::RequestorOffered
            },
            (ConnectionState::RequestorOffered, ConnectionEvent::AcceptReceived) => {
                ConnectionState::Connected
            },
            (ConnectionState::RequestorOffered, ConnectionEvent::Denied) => ConnectionState::Denied,
            // Inbound recipient journey.
            (ConnectionState::AwaitingRecipientSelect, ConnectionEvent::Approved) => {
                ConnectionState::RecipientOffered
            },
            (ConnectionState::AwaitingRecipientSelect, ConnectionEvent::Denied) => {
                ConnectionState::Denied
            },
            (ConnectionState::RecipientOffered, ConnectionEvent::MutualConfirmed) => {
                ConnectionState::Connected
            },
            // Synchronous rendezvous: park any in-flight state, resume it when both are online.
            (state, ConnectionEvent::PeerWentOffline) => match Suspended::of(state) {
                Some(suspended) => ConnectionState::PendingRendezvous(suspended),
                None => return Err(illegal(self, event)),
            },
            (ConnectionState::PendingRendezvous(suspended), ConnectionEvent::PeerCameOnline) => {
                suspended.resume()
            },
            // Revocation of a live connection.
            (ConnectionState::Connected, ConnectionEvent::Revoked) => ConnectionState::Revoked,
            _ => return Err(illegal(self, event)),
        };
        Ok(next)
    }

    /// Whether this is a terminal state.
    pub fn is_terminal(self) -> (res: bool)
        ensures
            res == self.terminal(),
    {
        matches!(self, ConnectionState::Denied | ConnectionState::Revoked)
    }

    /// Whether both ends hold each other's profile.
    pub fn is_connected(self) -> (res: bool)
        ensures
            res == (self == ConnectionState::Connected),
    {
        matches!(self, ConnectionState::Connected)
    }

    /// A declined or a revoked connection.
    pub open spec fn terminal(self) -> bool {
        self == ConnectionState::Denied || self == ConnectionState::Revoked
    }

    /// The variant's name, with the suspended state in brackets for a parked connection.
    pub open spec fn name(self) -> Seq<char> {
        match self {
            ConnectionState::Requested => "Requested"@,
            ConnectionState::RequestorOffered => "RequestorOffered"@,
            ConnectionState::AwaitingRecipientSelect => "AwaitingRecipientSelect"@,
            ConnectionState::RecipientOffered => "RecipientOffered"@,
            ConnectionState::Connected => "Connected"@,
            ConnectionState::PendingRendezvous(suspended) => "PendingRendezvous("@
                + suspended.name() + ")"@,
            ConnectionState::Denied => "Denied"@,
            ConnectionState::Revoked => "Revoked"@,
        }
    }

    /// The state's name as error messages spell it.
    pub fn label(self) -> (res: &'static str)
        ensures
            res@ == self.name(),
    {
        match self {
            ConnectionState::Requested => "Requested",
            ConnectionState::RequestorOffered => "RequestorOffered",
            ConnectionState::AwaitingRecipientSelect => "AwaitingRecipientSelect",
            ConnectionState::RecipientOffered => "RecipientOffered",
            ConnectionState::Connected => "Connected",
            ConnectionState::PendingRendezvous(suspended) => {
                proof {
                    reveal_strlit("PendingRendezvous(");
                    reveal_strlit(")");
                    reveal_strlit("Requested");
                    reveal_strlit("RequestorOffered");
                    reveal_strlit("RecipientOffered");
                    reveal_strlit("PendingRendezvous(Requested)");
                    reveal_strlit("PendingRendezvous(RequestorOffered)");
                    reveal_strlit("PendingRendezvous(RecipientOffered)");
                }
                match suspended {
                    Suspended::Requested => "PendingRendezvous(Requested)",
                    Suspended::RequestorOffered => "PendingRendezvous(RequestorOffered)",
                    Suspended::RecipientOffered => "PendingRendezvous(RecipientOffered)",
                }
            },
            ConnectionState::Denied => "Denied",
            ConnectionState::Revoked => "Revoked",
        }
    }
}

impl ConnectionEvent {
    /// The variant's name.
    pub open spec fn name(self) -> Seq<char> {
        match self {
            ConnectionEvent::RequestSent => "RequestSent"@,
            ConnectionEvent::RequestDelivered => "RequestDelivered"@,
            ConnectionEvent::RequestReceived => "RequestReceived"@,
            ConnectionEvent::Approved => "Approved"@,
            ConnectionEvent::Denied => "Denied"@,
            ConnectionEvent::AcceptReceived => "AcceptReceived"@,
            ConnectionEvent::MutualConfirmed => "MutualConfirmed"@,
            ConnectionEvent::PeerWentOffline => "PeerWentOffline"@,
            ConnectionEvent::PeerCameOnline => "PeerCameOnline"@,
            ConnectionEvent::Revoked => "Revoked"@,
        }
    }

    /// The event's name as error messages spell it.
    pub fn label(self) -> (res: &'static str)
        ensures
            res@ == self.name(),
    {
        match self {
            ConnectionEvent::RequestSent => "RequestSent",
            ConnectionEvent::RequestDelivered => "RequestDelivered",
            ConnectionEvent::RequestReceived => "RequestReceived",
            ConnectionEvent::Approved => "Approved",
            ConnectionEvent::Denied => "Denied",
            ConnectionEvent::AcceptReceived => "AcceptReceived",
            ConnectionEvent::MutualConfirmed => "MutualConfirmed",
            ConnectionEvent::PeerWentOffline => "PeerWentOffline",
            ConnectionEvent::PeerCameOnline => "PeerCameOnline",
            ConnectionEvent::Revoked => "Revoked",
        }
    }
}

/// Build the [`Error::IllegalTransition`] for a rejected `(state, event)` pair.
fn illegal(state: ConnectionState, event: ConnectionEvent) -> (res: Error)
    ensures
        res == (Error::IllegalTransition { state, event }),
{
    Error::IllegalTransition { state, event }
}

/// The terminal states are exactly those in which no event is accepted.
pub proof fn terminal_states_accept_no_event(state: ConnectionState)
    ensures
        state.terminal() <==> forall|event: ConnectionEvent| state.next(event) is None,
{
    let witness = match state {
        ConnectionState::Requested => ConnectionEvent::RequestDelivered,
        ConnectionState::RequestorOffered => ConnectionEvent::AcceptReceived,
        ConnectionState::AwaitingRecipientSelect => ConnectionEvent::Approved,
        ConnectionState::RecipientOffered => ConnectionEvent::MutualConfirmed,
        ConnectionState::PendingRendezvous(_) => ConnectionEvent::PeerCameOnline,
        _ => ConnectionEvent::Revoked,
    };
    if !state.terminal() {
        assert(state.next(witness) is Some);
    }
}

/// Once a connection is terminal it stays as it is: no non-empty sequence of events leads on.
pub proof fn terminal_states_are_final(state: ConnectionState, events: Seq<ConnectionEvent>)
    requires
        state.terminal(),
        events.len() > 0,
    ensures
        state.run(events) is None,
    decreases events.len(),
{
    if events.len() == 1 {
        assert(events.drop_last().len() == 0);
    } else {
        terminal_states_are_final(state, events.drop_last());
    }
}

/// A connection becomes live only out of an offered state, by a live confirmation from the peer.
pub proof fn connected_only_from_an_offered_state(state: ConnectionState, event: ConnectionEvent)
    ensures
        state.next(event) == Some(ConnectionState::Connected) <==> {
            ||| state == ConnectionState::RequestorOffered && event
                == ConnectionEvent::AcceptReceived
            ||| state == ConnectionState::RecipientOffered && event
                == ConnectionEvent::MutualConfirmed
        },
{
}

/// The requestor's journey is offer-first and mutual: a request that ends connected was first
/// delivered, with its own offer, and then answered by the peer's acceptance.
pub proof fn outbound_journey_is_offer_first(events: Seq<ConnectionEvent>)
    requires
        ConnectionState::Requested.run(events) == Some(ConnectionState::Connected),
    ensures
        exists|i: int, j: int|
            #![trigger events[i], events[j]]
            0 <= i < j < events.len() && events[i] == ConnectionEvent::RequestDelivered && events[j]
                == ConnectionEvent::AcceptReceived,
{
    let before = events.drop_last();
    outbound_states(before);
    let i = choose|i: int|
        0 <= i < before.len() && before[i] == ConnectionEvent::RequestDelivered;
    let j = events.len() - 1;
    assert(events[i] == ConnectionEvent::RequestDelivered);
    assert(events[j] == ConnectionEvent::AcceptReceived);
}

/// The states on an outbound journey: the inbound ones are never reached, and the offered state
/// (live or parked) is reached only after a delivery.
proof fn outbound_states(events: Seq<ConnectionEvent>)
    ensures
        match ConnectionState::Requested.run(events) {
            Some(state) => {
                &&& state != ConnectionState::AwaitingRecipientSelect
                &&& state != ConnectionState::RecipientOffered
                &&& state != ConnectionState::PendingRendezvous(Suspended::RecipientOffered)
                &&& state == ConnectionState::RequestorOffered || state
                    == ConnectionState::PendingRendezvous(Suspended::RequestorOffered) ==> exists|
                    i: int,
                |
                    0 <= i < events.len() && events[i] == ConnectionEvent::RequestDelivered
            },
            None => true,
        },
    decreases events.len(),
{
    if events.len() > 0 {
        let before = events.drop_last();
        outbound_states(before);
        match ConnectionState::Requested.run(before) {
            Some(state) => {
                if state == ConnectionState::Requested && events.last()
                    == ConnectionEvent::RequestDelivered {
                    assert(events[events.len() - 1] == ConnectionEvent::RequestDelivered);
                } else if exists|i: int|
                    0 <= i < before.len() && before[i] == ConnectionEvent::RequestDelivered {
                    let i = choose|i: int|
                        0 <= i < before.len() && before[i] == ConnectionEvent::RequestDelivered;
                    assert(events[i] == ConnectionEvent::RequestDelivered);
                }
            },
            None => {},
        }
    }
}

/// The recipient's journey needs consent and is mutual: a request that ends connected was first
/// approved by the local user and then confirmed by the requestor.
pub proof fn inbound_journey_needs_consent(events: Seq<ConnectionEvent>)
    requires
        ConnectionState::AwaitingRecipientSelect.run(events) == Some(ConnectionState::Connected),
    ensures
        exists|i: int, j: int|
            #![trigger events[i], events[j]]
            0 <= i < j < events.len() && events[i] == ConnectionEvent::Approved && events[j]
                == ConnectionEvent::MutualConfirmed,
{
    let before = events.drop_last();
    inbound_states(before);
    let i = choose|i: int| 0 <= i < before.len() && before[i] == ConnectionEvent::Approved;
    let j = events.len() - 1;
    assert(events[i] == ConnectionEvent::Approved);
    assert(events[j] == ConnectionEvent::MutualConfirmed);
}

/// The states on an inbound journey: the outbound ones are never reached, and the offered state
/// (live or parked) is reached only after an approval.
proof fn inbound_states(events: Seq<ConnectionEvent>)
    ensures
        match ConnectionState::AwaitingRecipientSelect.run(events) {
            Some(state) => {
                &&& state != ConnectionState::Requested
                &&& state != ConnectionState::RequestorOffered
                &&& state != ConnectionState::PendingRendezvous(Suspended::Requested)
                &&& state != ConnectionState::PendingRendezvous(Suspended::RequestorOffered)
                &&& state == ConnectionState::RecipientOffered || state
                    == ConnectionState::PendingRendezvous(Suspended::RecipientOffered) ==> exists|
                    i: int,
                |
                    0 <= i < events.len() && events[i] == ConnectionEvent::Approved
            },
            None => true,
        },
    decreases events.len(),
{
    if events.len() > 0 {
        let before = events.drop_last();
        inbound_states(before);
        match ConnectionState::AwaitingRecipientSelect.run(before) {
            Some(state) => {
                if state == ConnectionState::AwaitingRecipientSelect && events.last()
                    == ConnectionEvent::Approved {
                    assert(events[events.len() - 1] == ConnectionEvent::Approved);
                } else if exists|i: int|
                    0 <= i < before.len() && before[i] == ConnectionEvent::Approved {
                    let i = choose|i: int|
                        0 <= i < before.len() && before[i] == ConnectionEvent::Approved;
                    assert(events[i] == ConnectionEvent::Approved);
                }
            },
            None => {},
        }
    }
}

/// Parking and resuming restores the exact state that was parked.
pub proof fn resume_restores_the_parked_state(state: ConnectionState, parked: ConnectionState)
    requires
        state.next(ConnectionEvent::PeerWentOffline) == Some(parked),
    ensures
        parked.next(ConnectionEvent::PeerCameOnline) == Some(state),
{
}

/// Parking and resuming are inverse to each other: a state parks into a parked one exactly where the
/// parked one resumes into it, and so it is with the states' suspended forms. The states that have
/// none are those that are not in flight.
pub proof fn parking_and_resuming_are_inverse(
    state: ConnectionState,
    parked: ConnectionState,
    suspended: Suspended,
)
    ensures
        state.next(ConnectionEvent::PeerWentOffline) == Some(parked) <==> parked.next(
            ConnectionEvent::PeerCameOnline,
        ) == Some(state),
        Suspended::parked(state) == Some(suspended) <==> suspended.resumed() == state,
        Suspended::parked(state) is None <==> {
            ||| state == ConnectionState::AwaitingRecipientSelect
            ||| state == ConnectionState::Connected
            ||| state is PendingRendezvous
            ||| state == ConnectionState::Denied
            ||| state == ConnectionState::Revoked
        },
{
}

/// Only a handshake in flight can be parked, and a parked connection accepts nothing but the
/// peer's return.
pub proof fn only_in_flight_states_are_parked(state: ConnectionState)
    ensures
        state.next(ConnectionEvent::PeerWentOffline) is Some <==> {
            ||| state == ConnectionState::Requested
            ||| state == ConnectionState::RequestorOffered
            ||| state == ConnectionState::RecipientOffered
        },
        forall|suspended: Suspended, event: ConnectionEvent|
            #[trigger] ConnectionState::PendingRendezvous(suspended).next(event) is Some <==> event
                == ConnectionEvent::PeerCameOnline,
{
}

/// Consent is mandatory: an inbound request is resolved by approval or denial and by nothing else.
pub proof fn consent_is_mandatory(event: ConnectionEvent)
    ensures
        ConnectionState::AwaitingRecipientSelect.next(event) == (match event {
            ConnectionEvent::Approved => Some(ConnectionState::RecipientOffered),
            ConnectionEvent::Denied => Some(ConnectionState::Denied),
            _ => None,
        }),
{
}

/// Consent is revocable, and only a live connection can be revoked.
pub proof fn only_a_live_connection_is_revoked(state: ConnectionState, event: ConnectionEvent)
    ensures
        state.next(event) == Some(ConnectionState::Revoked) <==> state == ConnectionState::Connected
            && event == ConnectionEvent::Revoked,
{
}

} // verus!
