//! Wire protocol for the session handshake.
//!
//! Three application-level messages exist: the server's welcome (naming the
//! level that is currently active), the client's level-load-complete
//! acknowledgement, and the host's shutdown request for an embedded server.
//! All three ride a reliable-but-unordered logical channel, kept apart from
//! the best-effort state-sync traffic.

use vstd::prelude::*;

verus! {

/// Identifier of a loadable level. `Void` means nothing is loaded.
#[derive(Clone, Copy, Debug, PartialEq, Eq, Structural)]
pub enum Level {
    Void,
    Example,
}

impl Default for Level {
    /// No level is loaded until the server says otherwise.
    fn default() -> (r: Level)
        ensures
            r == Level::Void,
    {
        Level::Void
    }
}

/// Sent by the server exactly once per successful connection, immediately
/// after the transport reports the connection established. Carries the
/// authoritative current level.
#[derive(Clone, Copy, Debug, PartialEq, Eq, Structural)]
pub struct ServerWelcome {
    pub current_level: Level,
}

/// Sent by the client exactly once per connection, after it finished loading
/// the level named in the welcome. Receipt is the sole trigger for avatar
/// creation on the server.
#[derive(Clone, Copy, Debug, PartialEq, Eq, Structural)]
pub struct ClientLevelLoadComplete;

/// Sent by a hosting client to its embedded server when leaving the session.
/// Carries no payload beyond the sender's identity, which the transport
/// envelope supplies.
#[derive(Clone, Copy, Debug, PartialEq, Eq, Structural)]
pub struct HostRequestShutdown;

/// Replicated component tagging an avatar entity with its owning client id.
#[derive(Clone, Copy, Debug, PartialEq, Eq, Structural)]
pub struct Player(pub u64);

/// Delivery guarantee of a logical channel.
#[derive(Clone, Copy, Debug, PartialEq, Eq, Structural)]
pub enum ChannelMode {
    /// Delivered exactly once, in no particular order relative to other
    /// traffic. The handshake messages ride this mode.
    UnorderedReliable,
    /// Best effort; messages may be lost. State-sync traffic rides this mode
    /// and is corrected by prediction and interpolation.
    Unreliable,
}

impl ChannelMode {
    pub open spec fn is_reliable(self) -> bool {
        self == ChannelMode::UnorderedReliable
    }
}

/// Channel marker for handshake traffic.
#[derive(Clone, Copy, Debug, PartialEq, Eq, Structural)]
pub struct UnorderedReliable;

impl UnorderedReliable {
    /// Handshake messages must not be dropped, but need no ordering.
    pub fn mode(&self) -> (m: ChannelMode)
        ensures
            m == ChannelMode::UnorderedReliable,
            m.is_reliable(),
    {
        ChannelMode::UnorderedReliable
    }
}

/// Channel marker for control traffic such as the host's shutdown request;
/// it carries the same delivery guarantee as the handshake channel.
#[derive(Clone, Copy, Debug, PartialEq, Eq, Structural)]
pub struct Reliable;

impl Reliable {
    /// Control messages must not be dropped, but need no ordering.
    pub fn mode(&self) -> (m: ChannelMode)
        ensures
            m == ChannelMode::UnorderedReliable,
            m.is_reliable(),
    {
        ChannelMode::UnorderedReliable
    }
}

/// A message travelling from server to client.
#[derive(Clone, Copy, Debug, PartialEq, Eq, Structural)]
pub enum ServerToClient {
    Welcome(ServerWelcome),
}

/// A message travelling from client to server. The transport envelope adds
/// the sender's client id.
#[derive(Clone, Copy, Debug, PartialEq, Eq, Structural)]
pub enum ClientToServer {
    LevelLoadComplete(ClientLevelLoadComplete),
    RequestShutdown(HostRequestShutdown),
}

} // verus!
