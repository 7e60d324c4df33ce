//! The failures of the social-graph core.
//!
//! There are four kinds: [`Error::IllegalTransition`] (an event applied to a state that does not
//! accept it), [`Error::Invariant`] (a caller invariant was violated), [`Error::Seam`] (an injected
//! seam reported a failure), and [`Error::Wire`] (a byte buffer did not decode as the expected wire
//! type).

use vstd::prelude::*;

use crate::state::{ConnectionEvent, ConnectionState};

verus! {

/// The crate result alias.
pub type Result<T> = core::result::Result<T, Error>;

/// Everything the social-graph core can fail with.
#[derive(Debug)]
pub enum Error {
    /// A [`ConnectionEvent`] was applied to a [`ConnectionState`] that does not accept it.
    IllegalTransition {
        /// The state the connection was in.
        state: ConnectionState,
        /// The event that was not accepted.
        event: ConnectionEvent,
    },
    /// A caller invariant was violated.
    Invariant(&'static str),
    /// An injected seam (transport, sealer, subscriber, persistence) failed. The message is the
    /// seam's own.
    Seam(String),
    /// A byte buffer could not be decoded as the expected canonical wire type.
    Wire(&'static str),
}

/// An [`Error`] as a mathematical value: the same variants, with each message as a sequence of
/// characters.
#[verifier::ext_equal]
pub enum ErrorView {
    IllegalTransition { state: ConnectionState, event: ConnectionEvent },
    Invariant(Seq<char>),
    Seam(Seq<char>),
    Wire(Seq<char>),
}

impl View for Error {
    type V = ErrorView;

    open spec fn view(&self) -> ErrorView {
        match *self {
            Error::IllegalTransition { state, event } => ErrorView::IllegalTransition {
                state,
                event,
            },
            Error::Invariant(message) => ErrorView::Invariant(message@),
            Error::Seam(message) => ErrorView::Seam(message@),
            Error::Wire(message) => ErrorView::Wire(message@),
        }
    }
}

/// A result as a mathematical value.
pub open spec fn outcome<T: View>(res: Result<T>) -> core::result::Result<T::V, ErrorView> {
    match res {
        Ok(value) => Ok(value@),
        Err(error) => Err(error@),
    }
}

impl ErrorView {
    /// The one-line text of an error.
    pub open spec fn text(self) -> Seq<char> {
        match self {
            ErrorView::IllegalTransition { state, event } => "illegal transition: "@ + event.name()
                + " is not valid in state "@ + state.name(),
            ErrorView::Invariant(message) => "invariant violated: "@ + message,
            ErrorView::Seam(message) => "seam failure: "@ + message,
            ErrorView::Wire(message) => "malformed wire bytes: "@ + message,
        }
    }

    /// The error as the caller of a seam sees it: a seam failure as it is, any other kind as a seam
    /// failure that carries its text.
    pub open spec fn at_the_seam(self) -> ErrorView {
        match self {
            ErrorView::Seam(_) => self,
            _ => ErrorView::Seam(self.text()),
        }
    }
}

impl Error {
    /// The error as a one-line text.
    pub fn to_string(&self) -> (res: String)
        ensures
            res@ == self@.text(),
    {
        let mut out = String::new();
        match self {
            Error::IllegalTransition { state, event } => {
                out.append("illegal transition: ");
                out.append(event.label());
                out.append(" is not valid in state ");
                out.append(state.label());
            },
            Error::Invariant(message) => {
                out.append("invariant violated: ");
                out.append(message);
            },
            Error::Seam(message) => {
                out.append("seam failure: ");
                out.append(message.as_str());
            },
            Error::Wire(message) => {
                out.append("malformed wire bytes: ");
                out.append(message);
            },
        }
        proof {
            assert(Seq::<char>::empty() + "illegal transition: "@ == "illegal transition: "@);
            assert(Seq::<char>::empty() + "invariant violated: "@ == "invariant violated: "@);
            assert(Seq::<char>::empty() + "seam failure: "@ == "seam failure: "@);
            assert(Seq::<char>::empty() + "malformed wire bytes: "@ == "malformed wire bytes: "@);
        }
        out
    }
}

/// Turning an error into a seam failure gives a seam failure, and doing it again changes nothing: a
/// text is named once.
pub proof fn seam_failures_are_named_once(error: ErrorView)
    ensures
        error.at_the_seam() is Seam,
        error.at_the_seam().at_the_seam() == error.at_the_seam(),
{
}

} // verus!
