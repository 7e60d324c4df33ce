# dig-social-graph

The networkless core of the DIG social graph, verified with Verus: the connection state machine, the
peer-exchange wire types, the per-peer graph, and the policy that drives four injected seams
(transport, sealer, store subscription, persistence). It opens no sockets, watches no chain and
touches no disk of its own.

## Layout

- `src/`: the verified library. `src/lib.rs` lists its modules. What it relies on without proof are
  the calls into `dig-identity`, `dig-message`, `chia-sdk-utils`, `hex` and the standard library's
  clock; each stands in a function of its own, with what is claimed of it in its doc comment.
- `tests/`: the library run with those crates, on concrete values.
- `app/`: adapters that the library cannot hold: the serde form of its types, its errors as standard
  errors, and key resolution over a chain source.

## What is proved

- The transition function of a connection, and that a handshake is offer-first, mutual and
  synchronous, with mandatory and revocable consent (`src/state.rs`).
- The canonical byte forms, their round trips, and that every other buffer is refused, with the
  reason (`src/wire.rs`).
- The graph as a map from peer to connection, listed in key order, and its form at rest
  (`src/graph.rs`).
- For each operation of the manager, which calls it makes at the seams, in which order, and with what
  outcome for every way in which the seams may answer; and that these are all the calls there are,
  since the history of each seam grows by them and by nothing else. Over all operations, that none
  touches another peer, that nothing is subscribed to ahead of consent, that a connection is live only
  once it is subscribed, that a recorded store is the sender's own, and that an ended connection is
  beyond recall (`src/manager.rs`, `src/flow.rs`, `src/record.rs`).
- That a sealed offer opens for its recipient, authenticates its sender, is refused outside the
  freshness window, and is refused when replayed, after whatever else was sealed and opened while the
  guard has room for its senders; by the keys that were looked up and the times that were read, given
  what is claimed of dig-message (`src/sealer.rs`, `src/message.rs`).

The seams, the key resolver and the clock are traits for the application to implement. All that their
contracts ask is that a call shows up in the history of the value it is made on; what a call answers
is up to the implementation. One that is itself to be verified gives its own history.
