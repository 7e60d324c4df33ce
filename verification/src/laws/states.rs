//! What the connection state machine and the errors do, stated of the calls of them.

use vstd::prelude::*;

use crate::error::{Error, ErrorView, Result};
use crate::manager::seam;
use crate::state::{ConnectionEvent, ConnectionState, Suspended};

verus! {

/// An event takes a connection from one state to another.
pub open spec fn step(from: ConnectionState, event: ConnectionEvent, to: ConnectionState) -> bool {
    match event {
        ConnectionEvent::RequestSent => false,
        ConnectionEvent::RequestReceived => false,
        ConnectionEvent::RequestDelivered => from == ConnectionState::Requested && to
            == ConnectionState::RequestorOffered,
        ConnectionEvent::AcceptReceived => from == ConnectionState::RequestorOffered && to
            == ConnectionState::Connected,
        ConnectionEvent::Approved => from == ConnectionState::AwaitingRecipientSelect && to
            == ConnectionState::RecipientOffered,
        ConnectionEvent::MutualConfirmed => from == ConnectionState::RecipientOffered && to
            == ConnectionState::Connected,
        ConnectionEvent::Denied => {
            &&& from == ConnectionState::RequestorOffered || from
                == ConnectionState::AwaitingRecipientSelect
            &&& to == ConnectionState::Denied
        },
        ConnectionEvent::Revoked => from == ConnectionState::Connected && to
            == ConnectionState::Revoked,
        ConnectionEvent::PeerWentOffline => {
            ||| from == ConnectionState::Requested && to == ConnectionState::PendingRendezvous(
                Suspended::Requested,
            )
            ||| from == ConnectionState::RequestorOffered && to
                == ConnectionState::PendingRendezvous(Suspended::RequestorOffered)
            ||| from == ConnectionState::RecipientOffered && to
                == ConnectionState::PendingRendezvous(Suspended::RecipientOffered)
        },
        ConnectionEvent::PeerCameOnline => {
            ||| to == ConnectionState::Requested && from == ConnectionState::PendingRendezvous(
                Suspended::Requested,
            )
            ||| to == ConnectionState::RequestorOffered && from
                == ConnectionState::PendingRendezvous(Suspended::RequestorOffered)
            ||| to == ConnectionState::RecipientOffered && from
                == ConnectionState::PendingRendezvous(Suspended::RecipientOffered)
        },
    }
}

/// An event is accepted exactly where there is a step for it, and leads where the step leads;
/// anywhere else it is refused, with the state and the event.
pub proof fn events_take_steps(
    state: ConnectionState,
    event: ConnectionEvent,
    res: Result<ConnectionState>,
)
    requires
        call_ensures(ConnectionState::apply, (state, event), res),
    ensures
        forall|to: ConnectionState| #[trigger]
            step(state, event, to) <==> res == Ok::<_, Error>(to),
        res matches Err(error) ==> error@ == (ErrorView::IllegalTransition { state, event }),
{
}

/// A connection that the local node initiates begins as not reached yet.
pub proof fn outbound_connections_begin_unreached(state: ConnectionState)
    requires
        call_ensures(ConnectionState::initiated, (), state),
    ensures
        state == ConnectionState::Requested,
{
}

/// A state is terminal exactly if no event is accepted in it.
pub proof fn terminal_means_no_event(state: ConnectionState, res: bool)
    requires
        call_ensures(ConnectionState::is_terminal, (state,), res),
    ensures
        res <==> forall|event: ConnectionEvent, to: ConnectionState| !#[trigger] step(
            state,
            event,
            to,
        ),
{
    assert(step(
        ConnectionState::Requested,
        ConnectionEvent::RequestDelivered,
        ConnectionState::RequestorOffered,
    ));
    assert(step(
        ConnectionState::RequestorOffered,
        ConnectionEvent::Denied,
        ConnectionState::Denied,
    ));
    assert(step(
        ConnectionState::AwaitingRecipientSelect,
        ConnectionEvent::Denied,
        ConnectionState::Denied,
    ));
    assert(step(
        ConnectionState::RecipientOffered,
        ConnectionEvent::MutualConfirmed,
        ConnectionState::Connected,
    ));
    assert(step(ConnectionState::Connected, ConnectionEvent::Revoked, ConnectionState::Revoked));
    assert(step(
        ConnectionState::PendingRendezvous(Suspended::Requested),
        ConnectionEvent::PeerCameOnline,
        ConnectionState::Requested,
    ));
    assert(step(
        ConnectionState::PendingRendezvous(Suspended::RequestorOffered),
        ConnectionEvent::PeerCameOnline,
        ConnectionState::RequestorOffered,
    ));
    assert(step(
        ConnectionState::PendingRendezvous(Suspended::RecipientOffered),
        ConnectionEvent::PeerCameOnline,
        ConnectionState::RecipientOffered,
    ));
}

/// A state is live exactly if the connection can be revoked from it.
pub proof fn live_means_revocable(state: ConnectionState, res: bool)
    requires
        call_ensures(ConnectionState::is_connected, (state,), res),
    ensures
        res <==> step(state, ConnectionEvent::Revoked, ConnectionState::Revoked),
        res <==> state == ConnectionState::Connected,
{
}

/// The suspended form of a state is the one that resumes into it, and there is none exactly where
/// the peer's going offline is refused.
pub proof fn suspended_forms_resume(
    state: ConnectionState,
    form: Option<Suspended>,
    suspended: Suspended,
    resumed: ConnectionState,
)
    requires
        call_ensures(Suspended::of, (state,), form),
        call_ensures(Suspended::resume, (suspended,), resumed),
    ensures
        form == Some(suspended) <==> resumed == state,
        step(
            ConnectionState::PendingRendezvous(suspended),
            ConnectionEvent::PeerCameOnline,
            resumed,
        ),
        match form {
            Some(parked) => step(
                state,
                ConnectionEvent::PeerWentOffline,
                ConnectionState::PendingRendezvous(parked),
            ),
            None => forall|to: ConnectionState| !#[trigger] step(
                state,
                ConnectionEvent::PeerWentOffline,
                to,
            ),
        },
{
}

/// A state is labelled by its name.
pub proof fn states_are_labelled(state: ConnectionState, res: &'static str)
    requires
        call_ensures(ConnectionState::label, (state,), res),
    ensures
        res@ == (match state {
            ConnectionState::Requested => "Requested"@,
            ConnectionState::RequestorOffered => "RequestorOffered"@,
            ConnectionState::AwaitingRecipientSelect => "AwaitingRecipientSelect"@,
            ConnectionState::RecipientOffered => "RecipientOffered"@,
            ConnectionState::Connected => "Connected"@,
            ConnectionState::PendingRendezvous(Suspended::Requested) => "PendingRendezvous("@
                + "Requested"@ + ")"@,
            ConnectionState::PendingRendezvous(Suspended::RequestorOffered) => "PendingRendezvous("@
                + "RequestorOffered"@ + ")"@,
            ConnectionState::PendingRendezvous(Suspended::RecipientOffered) => "PendingRendezvous("@
                + "RecipientOffered"@ + ")"@,
            ConnectionState::Denied => "Denied"@,
            ConnectionState::Revoked => "Revoked"@,
        }),
{
}

/// An event is labelled by its name.
pub proof fn events_are_labelled(event: ConnectionEvent, res: &'static str)
    requires
        call_ensures(ConnectionEvent::label, (event,), res),
    ensures
        res@ == (match event {
            ConnectionEvent::RequestSent => "RequestSent"@,
            ConnectionEvent::RequestDelivered => "RequestDelivered"@,
            ConnectionEvent::RequestReceived => "RequestReceived"@,
            ConnectionEvent::Approved => "Approved"@,
            ConnectionEvent::Denied => "Denied"@,
            ConnectionEvent::AcceptReceived => "AcceptReceived"@,
            ConnectionEvent::MutualConfirmed => "MutualConfirmed"@,
            ConnectionEvent::PeerWentOffline => "PeerWentOffline"@,
            ConnectionEvent::PeerCameOnline => "PeerCameOnline"@,
            ConnectionEvent::Revoked => "Revoked"@,
        }),
{
}

/// The text of an error is its kind and its message, or the labels of the event and the state.
pub proof fn errors_are_spelled_out(
    error: &Error,
    text: String,
    state_label: &'static str,
    event_label: &'static str,
)
    requires
        call_ensures(Error::to_string, (error,), text),
        error@ matches ErrorView::IllegalTransition { state, event } ==> {
            &&& call_ensures(ConnectionState::label, (state,), state_label)
            &&& call_ensures(ConnectionEvent::label, (event,), event_label)
        },
    ensures
        text@ == (match error@ {
            ErrorView::IllegalTransition { state, event } => "illegal transition: "@ + event_label@
                + " is not valid in state "@ + state_label@,
            ErrorView::Invariant(message) => "invariant violated: "@ + message,
            ErrorView::Seam(message) => "seam failure: "@ + message,
            ErrorView::Wire(message) => "malformed wire bytes: "@ + message,
        }),
{
}

/// What comes out of a seam is passed on as a seam failure: one is kept as it is, and any other
/// error becomes one that carries its text. Passing it on again changes nothing.
pub proof fn seam_failures_are_passed_on(
    error: Error,
    text: String,
    once: Error,
    twice: Error,
)
    requires
        call_ensures(Error::to_string, (&error,), text),
        call_ensures(seam, (error,), once),
        call_ensures(seam, (once,), twice),
    ensures
        once@ == (match error@ {
            ErrorView::Seam(message) => ErrorView::Seam(message),
            _ => ErrorView::Seam(text@),
        }),
        twice@ == once@,
{
}

} // verus!
