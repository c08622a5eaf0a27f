//! Replication targets and the avatar entity.
//!
//! An avatar is the replicated in-world object representing a connected
//! player. Its owning client receives it in predicted mode, every other
//! client in interpolated mode, and all of its updates travel in one fixed
//! replication group so they are never split across delivery batches.

use vstd::prelude::*;

use crate::REPLICATION_GROUP_PREDICTED;
use crate::protocol::Player;

verus! {

/// The set of peers a replication rule applies to.
#[derive(Clone, Copy, Debug, PartialEq, Eq, Structural)]
pub enum NetworkTarget {
    All,
    Single(u64),
    AllExceptSingle(u64),
}

impl NetworkTarget {
    /// Whether the target set contains the given client id.
    pub open spec fn spec_includes(self, client_id: u64) -> bool {
        match self {
            NetworkTarget::All => true,
            NetworkTarget::Single(id) => id == client_id,
            NetworkTarget::AllExceptSingle(id) => id != client_id,
        }
    }

    /// Whether the target set contains the given client id.
    pub fn includes(&self, client_id: u64) -> (r: bool)
        ensures
            r == self.spec_includes(client_id),
    {
        match self {
            NetworkTarget::All => true,
            NetworkTarget::Single(id) => *id == client_id,
            NetworkTarget::AllExceptSingle(id) => *id != client_id,
        }
    }
}

/// Who receives an entity in predicted mode and who in interpolated mode.
#[derive(Clone, Copy, Debug, PartialEq, Eq, Structural)]
pub struct SyncTarget {
    pub prediction: NetworkTarget,
    pub interpolation: NetworkTarget,
}

/// How long a replicated entity outlives the connection that controls it.
#[derive(Clone, Copy, Debug, PartialEq, Eq, Structural)]
pub enum Lifetime {
    /// Torn down together with the owning connection's session.
    SessionBased,
    /// Kept until explicitly despawned.
    Persistent,
}

/// A spatial position, in whole world units.
#[derive(Clone, Copy, Debug, PartialEq, Eq, Structural)]
pub struct Position3 {
    pub x: i64,
    pub y: i64,
    pub z: i64,
}

/// The server-side avatar entity replicated to clients.
#[derive(Clone, Copy, Debug, PartialEq, Eq, Structural)]
pub struct Avatar {
    /// Ownership tag: the client id this avatar belongs to.
    pub player: Player,
    pub position: Position3,
    /// Replication group; fixed for avatars so prediction and interpolation
    /// stay atomic per client.
    pub group: u64,
    /// The connection whose disappearance tears this entity down.
    pub controlled_by: NetworkTarget,
    pub lifetime: Lifetime,
    pub sync: SyncTarget,
}

impl Avatar {
    /// The exact avatar the spawn manager creates for a client: owned by the
    /// client, starting above the ground plane, predicted only by its owner
    /// and interpolated by everyone else, in the reserved replication group.
    pub open spec fn spec_for_owner(owner: u64) -> Avatar {
        Avatar {
            player: Player(owner),
            position: Position3 { x: 0, y: 6, z: 0 },
            group: REPLICATION_GROUP_PREDICTED,
            controlled_by: NetworkTarget::Single(owner),
            lifetime: Lifetime::SessionBased,
            sync: SyncTarget {
                prediction: NetworkTarget::Single(owner),
                interpolation: NetworkTarget::AllExceptSingle(owner),
            },
        }
    }

    /// Build the avatar for a freshly acknowledged client.
    pub fn for_owner(owner: u64) -> (a: Avatar)
        ensures
            a == Avatar::spec_for_owner(owner),
    {
        Avatar {
            player: Player(owner),
            position: Position3 { x: 0, y: 6, z: 0 },
            group: REPLICATION_GROUP_PREDICTED,
            controlled_by: NetworkTarget::Single(owner),
            lifetime: Lifetime::SessionBased,
            sync: SyncTarget {
                prediction: NetworkTarget::Single(owner),
                interpolation: NetworkTarget::AllExceptSingle(owner),
            },
        }
    }

    /// An avatar is never predicted and interpolated by the same peer: its
    /// owner predicts it, everyone else interpolates it.
    pub proof fn lemma_sync_targets_disjoint(owner: u64, client: u64)
        ensures
            !(Avatar::spec_for_owner(owner).sync.prediction.spec_includes(client)
                && Avatar::spec_for_owner(owner).sync.interpolation.spec_includes(client)),
            Avatar::spec_for_owner(owner).sync.prediction.spec_includes(client)
                <==> client == owner,
    {
    }
}

} // verus!
