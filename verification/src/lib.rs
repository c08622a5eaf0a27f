//! Session lifecycle and replication handshake for a client/server game.
//!
//! The library models the logic that takes a client from the main menu to a
//! fully spawned avatar in a replicated world: the per-client session state
//! machine, the handshake messages that drive it, the server-side spawn
//! manager that creates exactly one avatar per client, and the host-mode
//! coordination that lets a client run its own embedded server and shut it
//! down again. Transports are pluggable: an in-process channel pair and a
//! conditioned network link are modelled by the same queue semantics, so the
//! handshake logic cannot observe which one carries its messages.

use vstd::prelude::*;

pub mod app_build;
pub mod assets;
pub mod channel;
pub mod game_state;
pub mod host;
pub mod launch_options;
pub mod protocol;
pub mod replication;
pub mod server;
pub mod sim;
pub mod transport;

verus! {

/// Replication group id reserved for predicted avatar entities, so that
/// position and rotation updates for an avatar are never split across
/// delivery batches.
pub const REPLICATION_GROUP_PREDICTED: u64 = 42;

} // verus!
