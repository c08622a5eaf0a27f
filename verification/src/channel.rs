//! The real in-process transport: a pair of unbounded multi-producer,
//! multi-consumer queues, one per direction, shared between a client and the
//! server embedded in the same process.
//!
//! The queue endpoints are opaque to verification; what arrives on them is
//! decided by the other thread. The session logic therefore never relies on
//! what a read returns: every received value is handled by functions that
//! are verified for all possible messages.

use vstd::prelude::*;

use crate::protocol::{ClientToServer, ServerToClient};
use crate::transport::FromClient;

verus! {

#[verifier::external_type_specification]
#[verifier::external_body]
#[verifier::reject_recursive_types(T)]
pub struct ExSender<T>(crossbeam_channel::Sender<T>);

#[verifier::external_type_specification]
#[verifier::external_body]
#[verifier::reject_recursive_types(T)]
pub struct ExReceiver<T>(crossbeam_channel::Receiver<T>);

/// Relies on crossbeam_channel::unbounded: creates a connected channel of
/// unbounded capacity whose sends never block.
#[verifier::external_body]
fn channel_unbounded<T>() -> (endpoints: (
    crossbeam_channel::Sender<T>,
    crossbeam_channel::Receiver<T>,
)) {
    crossbeam_channel::unbounded()
}

/// Relies on crossbeam_channel::Sender::send: on a channel of unbounded
/// capacity it never blocks, and it errs exactly when every receiver has
/// been dropped.
#[verifier::external_body]
fn channel_send<T>(sender: &crossbeam_channel::Sender<T>, message: T) -> (ok: bool) {
    sender.send(message).is_ok()
}

/// Relies on crossbeam_channel::Receiver::try_recv: non-blocking; yields a
/// message only if one is waiting. An empty and a disconnected channel both
/// read as nothing-to-deliver here; disconnects surface through transport
/// events, not through this poll.
#[verifier::external_body]
fn channel_try_recv<T>(receiver: &crossbeam_channel::Receiver<T>) -> (message: Option<T>) {
    receiver.try_recv().ok()
}

/// The client's half of a local channel pair.
pub struct LocalChannelClient {
    to_server: crossbeam_channel::Sender<FromClient>,
    from_server: crossbeam_channel::Receiver<ServerToClient>,
}

/// The server's half of a local channel pair.
pub struct LocalChannelServer {
    from_clients: crossbeam_channel::Receiver<FromClient>,
    to_client: crossbeam_channel::Sender<ServerToClient>,
}

/// Create the two matched endpoints of an in-process transport: one queue
/// carrying client-to-server traffic, one carrying server-to-client traffic.
/// The server half may move to another thread; the queues are safe for
/// concurrent use from both sides.
pub fn local_channel_pair() -> (endpoints: (LocalChannelClient, LocalChannelServer)) {
    let (to_server_send, to_server_recv) = channel_unbounded::<FromClient>();
    let (from_server_send, from_server_recv) = channel_unbounded::<ServerToClient>();
    (
        LocalChannelClient { to_server: to_server_send, from_server: from_server_recv },
        LocalChannelServer { from_clients: to_server_recv, to_client: from_server_send },
    )
}

impl LocalChannelClient {
    /// Send a message to the embedded server. A false result means the
    /// server side is gone; the caller treats that as a disconnect.
    pub fn send(&self, from: u64, message: ClientToServer) -> (ok: bool) {
        channel_send(&self.to_server, FromClient { from, message })
    }

    /// Non-blocking poll for server traffic.
    pub fn try_receive(&self) -> (message: Option<ServerToClient>) {
        channel_try_recv(&self.from_server)
    }
}

impl LocalChannelServer {
    /// Send a message to the hosting client. A false result means the client
    /// side is gone; the caller treats that as a disconnect.
    pub fn send(&self, message: ServerToClient) -> (ok: bool) {
        channel_send(&self.to_client, message)
    }

    /// Non-blocking poll for client traffic.
    pub fn try_receive(&self) -> (message: Option<FromClient>) {
        channel_try_recv(&self.from_clients)
    }
}

} // verus!
