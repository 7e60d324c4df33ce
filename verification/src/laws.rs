//! What the library promises of its operations, call by call.
//!
//! Each law speaks of calls that were made (`call_ensures` of a function, its arguments and its
//! result) and states what then holds of the arguments and the results: when success is owed, what is
//! recorded, what is handed to the seams, why a call is refused, and how two calls relate.
//!
//! - [`operations`]: the manager's operations; [`messages`]: the handling of a message, and what
//!   becomes at one end of what the other sends.
//! - [`sealing`]: the sealer.
//! - [`graphs`], [`states`], [`wire`], [`identifiers`]: the graph, the state machine and the errors,
//!   the byte forms, and the identifiers with their text forms.

pub mod graphs;
pub mod identifiers;
pub mod messages;
pub mod operations;
pub mod sealing;
pub mod states;
pub mod wire;
