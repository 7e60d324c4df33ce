//! Exhaustive coverage of the pure connection state machine: every legal transition, the rendezvous
//! park/resume, and rejection of every illegal `(state, event)` pair.

use dig_social_graph::{ConnectionEvent as E, ConnectionState as S, Error, Suspended};

/// The full outbound requestor journey to a mutual connection.
#[test]
fn outbound_journey_reaches_connected() {
    let s = S::initiated();
    assert_eq!(s, S::Requested);
    let s = s.apply(E::RequestDelivered).unwrap();
    assert_eq!(s, S::RequestorOffered);
    let s = s.apply(E::AcceptReceived).unwrap();
    assert_eq!(s, S::Connected);
    assert!(s.is_connected());
}

/// The full inbound recipient journey to a mutual connection.
#[test]
fn inbound_journey_reaches_connected() {
    let s = S::AwaitingRecipientSelect
        .apply(E::Approved)
        .unwrap()
        .apply(E::MutualConfirmed)
        .unwrap();
    assert_eq!(s, S::Connected);
}

/// Either side may decline; both denial paths terminate.
#[test]
fn denial_paths_terminate() {
    assert_eq!(S::RequestorOffered.apply(E::Denied).unwrap(), S::Denied);
    assert_eq!(
        S::AwaitingRecipientSelect.apply(E::Denied).unwrap(),
        S::Denied
    );
    assert!(S::Denied.is_terminal());
}

/// A live connection can be revoked, and revocation is terminal.
#[test]
fn connected_can_be_revoked() {
    let s = S::Connected.apply(E::Revoked).unwrap();
    assert_eq!(s, S::Revoked);
    assert!(s.is_terminal());
    assert!(!s.is_connected());
}

/// Every in-flight state parks on peer-offline and resumes to exactly the same state.
#[test]
fn in_flight_states_park_and_resume() {
    for (state, suspended) in [
        (S::Requested, Suspended::Requested),
        (S::RequestorOffered, Suspended::RequestorOffered),
        (S::RecipientOffered, Suspended::RecipientOffered),
    ] {
        let parked = state.apply(E::PeerWentOffline).unwrap();
        assert_eq!(parked, S::PendingRendezvous(suspended));
        let resumed = parked.apply(E::PeerCameOnline).unwrap();
        assert_eq!(resumed, state, "resume must restore the exact parked state");
    }
}

/// Terminal and connected states cannot be parked for rendezvous.
#[test]
fn non_in_flight_states_cannot_park() {
    for state in [
        S::Connected,
        S::Denied,
        S::Revoked,
        S::AwaitingRecipientSelect,
    ] {
        assert!(matches!(
            state.apply(E::PeerWentOffline),
            Err(Error::IllegalTransition { .. })
        ));
    }
}

/// A representative sweep of illegal pairs is rejected rather than silently ignored.
#[test]
fn illegal_transitions_are_rejected() {
    let illegal = [
        (S::Requested, E::AcceptReceived),
        (S::Requested, E::Approved),
        (S::AwaitingRecipientSelect, E::AcceptReceived),
        (S::RecipientOffered, E::AcceptReceived),
        (S::Connected, E::AcceptReceived),
        (S::Connected, E::Approved),
        (S::Denied, E::Revoked),
        (S::Revoked, E::PeerCameOnline),
        (S::RequestorOffered, E::PeerCameOnline),
    ];
    for (state, event) in illegal {
        let err = state.apply(event).unwrap_err();
        match err {
            Error::IllegalTransition { state: s, event: e } => {
                assert_eq!(s, state);
                assert_eq!(e, event);
            }
            other => panic!("expected IllegalTransition, got {other:?}"),
        }
    }
}

/// The error renders both the state and the event for debuggability.
#[test]
fn illegal_transition_error_is_descriptive() {
    let err = S::Connected.apply(E::Approved).unwrap_err();
    let text = err.to_string();
    assert!(text.contains("Connected"));
    assert!(text.contains("Approved"));
}

/// Every pair of the transition table, and nothing else, is accepted.
#[test]
fn the_transition_table_is_exact() {
    let states = [
        S::Requested,
        S::RequestorOffered,
        S::AwaitingRecipientSelect,
        S::RecipientOffered,
        S::Connected,
        S::PendingRendezvous(Suspended::Requested),
        S::PendingRendezvous(Suspended::RequestorOffered),
        S::PendingRendezvous(Suspended::RecipientOffered),
        S::Denied,
        S::Revoked,
    ];
    let events = [
        E::RequestSent,
        E::RequestDelivered,
        E::RequestReceived,
        E::Approved,
        E::Denied,
        E::AcceptReceived,
        E::MutualConfirmed,
        E::PeerWentOffline,
        E::PeerCameOnline,
        E::Revoked,
    ];
    let table = [
        (S::Requested, E::RequestDelivered, S::RequestorOffered),
        (S::RequestorOffered, E::AcceptReceived, S::Connected),
        (S::RequestorOffered, E::Denied, S::Denied),
        (S::AwaitingRecipientSelect, E::Approved, S::RecipientOffered),
        (S::AwaitingRecipientSelect, E::Denied, S::Denied),
        (S::RecipientOffered, E::MutualConfirmed, S::Connected),
        (S::Requested, E::PeerWentOffline, S::PendingRendezvous(Suspended::Requested)),
        (
            S::RequestorOffered,
            E::PeerWentOffline,
            S::PendingRendezvous(Suspended::RequestorOffered),
        ),
        (
            S::RecipientOffered,
            E::PeerWentOffline,
            S::PendingRendezvous(Suspended::RecipientOffered),
        ),
        (S::PendingRendezvous(Suspended::Requested), E::PeerCameOnline, S::Requested),
        (
            S::PendingRendezvous(Suspended::RequestorOffered),
            E::PeerCameOnline,
            S::RequestorOffered,
        ),
        (
            S::PendingRendezvous(Suspended::RecipientOffered),
            E::PeerCameOnline,
            S::RecipientOffered,
        ),
        (S::Connected, E::Revoked, S::Revoked),
    ];
    for state in states {
        for event in events {
            let expected = table
                .iter()
                .find(|(from, on, _)| *from == state && *on == event)
                .map(|(_, _, to)| *to);
            match (state.apply(event), expected) {
                (Ok(next), Some(to)) => assert_eq!(next, to),
                (Err(Error::IllegalTransition { state: s, event: e }), None) => {
                    assert_eq!((s, e), (state, event));
                }
                (other, _) => panic!("{state:?} on {event:?} gave {other:?}"),
            }
        }
    }
}

/// A terminal state is one in which no event is accepted.
#[test]
fn terminal_means_no_event_is_accepted() {
    let events = [
        E::RequestSent,
        E::RequestDelivered,
        E::RequestReceived,
        E::Approved,
        E::Denied,
        E::AcceptReceived,
        E::MutualConfirmed,
        E::PeerWentOffline,
        E::PeerCameOnline,
        E::Revoked,
    ];
    for state in [
        S::Requested,
        S::RequestorOffered,
        S::AwaitingRecipientSelect,
        S::RecipientOffered,
        S::Connected,
        S::PendingRendezvous(Suspended::Requested),
        S::Denied,
        S::Revoked,
    ] {
        let stuck = events.iter().all(|event| state.apply(*event).is_err());
        assert_eq!(stuck, state.is_terminal(), "{state:?}");
    }
}

/// The labels agree with the variants' debug names.
#[test]
fn labels_are_the_variant_names() {
    for state in [
        S::Requested,
        S::RequestorOffered,
        S::AwaitingRecipientSelect,
        S::RecipientOffered,
        S::Connected,
        S::PendingRendezvous(Suspended::Requested),
        S::PendingRendezvous(Suspended::RequestorOffered),
        S::PendingRendezvous(Suspended::RecipientOffered),
        S::Denied,
        S::Revoked,
    ] {
        assert_eq!(state.label(), format!("{state:?}"));
    }
    for event in [
        E::RequestSent,
        E::RequestDelivered,
        E::RequestReceived,
        E::Approved,
        E::Denied,
        E::AcceptReceived,
        E::MutualConfirmed,
        E::PeerWentOffline,
        E::PeerCameOnline,
        E::Revoked,
    ] {
        assert_eq!(event.label(), format!("{event:?}"));
    }
}

/// The text of each kind of error.
#[test]
fn error_texts_are_exact() {
    let parked = S::PendingRendezvous(Suspended::Requested);
    assert_eq!(
        parked.apply(E::Approved).unwrap_err().to_string(),
        "illegal transition: Approved is not valid in state PendingRendezvous(Requested)"
    );
    assert_eq!(Error::Invariant("broken").to_string(), "invariant violated: broken");
    assert_eq!(Error::Seam("down".to_string()).to_string(), "seam failure: down");
    assert_eq!(Error::Wire("short").to_string(), "malformed wire bytes: short");
}

/// Parking and resuming are inverse: what a parked state resumes into parks into it again.
#[test]
fn parking_undoes_resuming() {
    for suspended in [
        Suspended::Requested,
        Suspended::RequestorOffered,
        Suspended::RecipientOffered,
    ] {
        let parked = S::PendingRendezvous(suspended);
        let resumed = parked.apply(E::PeerCameOnline).unwrap();
        assert_eq!(resumed.apply(E::PeerWentOffline).unwrap(), parked);
    }
}

/// The states in flight have a suspended form, which resumes into them; the others have none.
#[test]
fn only_states_in_flight_have_a_suspended_form() {
    for suspended in [
        Suspended::Requested,
        Suspended::RequestorOffered,
        Suspended::RecipientOffered,
    ] {
        assert_eq!(Suspended::of(suspended.resume()), Some(suspended));
        assert_eq!(Suspended::of(S::PendingRendezvous(suspended)), None);
    }
    for state in [
        S::AwaitingRecipientSelect,
        S::Connected,
        S::Denied,
        S::Revoked,
    ] {
        assert_eq!(Suspended::of(state), None);
    }
}
