//! # dig-social-graph: the networkless core of the DIG social graph
//!
//! The pure, deterministic heart of dig-app's social connections, with its behaviour stated in
//! contracts and proved by Verus. It owns the connection state machine, the peer-exchange wire
//! types, and the store-maintenance policy. It opens no sockets, watches no chain and touches no
//! disk: every effect that needs the outside world is one of four injected [seams].
//!
//! ## The connection
//!
//! Two peers become connected only when each holds the other's profile. Four protocol decisions
//! shape the handshake (see [`state`]):
//!
//! - **Offer-first**: the requestor presents their own profile first.
//! - **Symmetric**: both sides select a profile and consent.
//! - **Synchronous**: completion requires both peers online; an offline peer parks the connection.
//! - **Mutual**: a connection is live only after both ends have offered and subscribed to each
//!   other's store.
//!
//! Consent is mandatory and revocable.
//!
//! ## What crosses the wire is a coordinate
//!
//! A peer ships [`StoreCoords`], the DID, launcher id and committed root that locate its profile
//! store, sealed to the recipient. The receiver subscribes to that store and verifies the profile
//! itself.
//!
//! ## The modules
//!
//! - [`state`]: the connection state machine.
//! - [`wire`]: the wire types and their canonical byte forms.
//! - [`graph`]: the per-peer connections.
//! - [`seams`]: the four seams.
//! - [`manager`]: the orchestrator over the seams; [`flow`] states what each of its operations does
//!   and what holds of all of them, and [`record`] how that is tied to the seams.
//! - [`sealer`]: the dig-message-backed sealer; [`message`] holds the calls into that crate.
//! - [`identity`]: DIDs, chain ids and identity keys.
//! - [`codec`]: the text forms of identifiers at rest.
//! - [`error`]: the failures.
//! - [`bytes`], [`order`]: byte fields and the order of texts.
//! - [`laws`]: what the library promises of its operations, call by call.

pub mod bytes;
pub mod codec;
pub mod error;
pub mod flow;
pub mod graph;
pub mod identity;
pub mod laws;
pub mod manager;
pub mod message;
pub mod order;
pub mod record;
pub mod seams;
pub mod sealer;
pub mod state;
pub mod wire;

pub use error::{Error, Result};
pub use graph::{Connection, ConnectionRecord, SocialGraph};
pub use identity::{Bytes32, Did, SecretKey};
pub use manager::SocialGraphManager;
pub use seams::{EnvelopeSealer, OpenedEnvelope, Persistence, StoreSubscriber, Transport};
pub use state::{ConnectionEvent, ConnectionState, Suspended};
pub use wire::{
    ConnectAccept, ConnectDeny, ConnectRequest, Revoke, SealedEnvelope, SealedOffer, SocialMessage,
    StoreCoords,
};
