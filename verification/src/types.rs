//! Data model of the coordination layer: identifiers, operations, state
//! snapshots, errors and the durable mutations handed to consensus.

use vstd::prelude::*;

verus! {

/// Identifier of a cluster node.
pub type PeerId = u64;

/// Identifier of a shard, stable within one collection.
pub type ShardId = u32;

/// Numeric handle of a user-defined sharding key. The boundary layer interns
/// whatever textual or numeric key the user supplied into one of these before
/// an operation reaches this library; only equality of keys matters here.
pub type ShardKey = u64;

/// How shard ownership is decided for a collection.
#[derive(Clone, Copy, Debug, PartialEq, Eq, Structural)]
pub enum ShardingMethod {
    /// The system computes shard ownership; shard keys are forbidden.
    Auto,
    /// Placement is driven by explicit user shard keys.
    Custom,
}

/// How the bytes of one shard transfer move between two peers.
#[derive(Clone, Copy, Debug, PartialEq, Eq, Structural)]
pub enum ShardTransferMethod {
    StreamRecords,
    Snapshot,
    WalDelta,
}

/// Identifies one in-flight transfer; at most one active transfer exists per
/// key at any time (enforced by the consensus state, only checked here).
#[derive(Clone, Copy, Debug, PartialEq, Eq, Structural)]
pub struct ShardTransferKey {
    pub shard_id: ShardId,
    pub to: PeerId,
    pub from: PeerId,
}

/// A transfer record: its key, a `sync` flag (true = additive replication,
/// false = destructive move) and an optional method tag.
#[derive(Clone, Copy, Debug, PartialEq, Eq)]
pub struct ShardTransfer {
    pub shard_id: ShardId,
    pub to: PeerId,
    pub from: PeerId,
    pub sync: bool,
    pub method: Option<ShardTransferMethod>,
}

/// A restart request for an in-flight transfer, switching its method.
#[derive(Clone, Copy, Debug, PartialEq, Eq)]
pub struct ShardTransferRestart {
    pub shard_id: ShardId,
    pub to: PeerId,
    pub from: PeerId,
    pub method: ShardTransferMethod,
}

/// A tagged administrative intent against one collection. The variant set is
/// closed: every dispatcher over it matches exhaustively, so a new kind of
/// operation forces every call site to be updated.
#[derive(Clone, Debug, PartialEq)]
pub enum ClusterOperation {
    MoveShard {
        shard_id: ShardId,
        from_peer_id: PeerId,
        to_peer_id: PeerId,
        method: Option<ShardTransferMethod>,
    },
    ReplicateShard {
        shard_id: ShardId,
        from_peer_id: PeerId,
        to_peer_id: PeerId,
        method: Option<ShardTransferMethod>,
    },
    AbortTransfer {
        shard_id: ShardId,
        from_peer_id: PeerId,
        to_peer_id: PeerId,
    },
    DropReplica {
        shard_id: ShardId,
        peer_id: PeerId,
    },
    CreateShardingKey {
        shard_key: ShardKey,
        shards_number: Option<u32>,
        replication_factor: Option<u32>,
        placement: Option<Vec<PeerId>>,
    },
    DropShardingKey {
        shard_key: ShardKey,
    },
    RestartTransfer {
        shard_id: ShardId,
        from_peer_id: PeerId,
        to_peer_id: PeerId,
        method: ShardTransferMethod,
    },
}

/// An immutable point-in-time read of one collection's replicated state,
/// taken once at the start of an operation. It may be stale by commit time;
/// the consensus layer's own conflict detection is the source of truth.
#[derive(Clone, Debug)]
pub struct CollectionStateSnapshot {
    /// Sharding method as configured; absent means the default applies.
    pub sharding_method: Option<ShardingMethod>,
    /// Default number of shards for a new shard key.
    pub shard_number: u32,
    /// Default replication factor for a new shard key.
    pub replication_factor: u32,
    /// Shard keys currently present in the mapping.
    pub shard_keys: Vec<ShardKey>,
    /// Shards known to the collection.
    pub shards: Vec<ShardId>,
    /// Transfers currently in flight.
    pub transfers: Vec<ShardTransferKey>,
}

impl CollectionStateSnapshot {
    /// The sharding method in force: `Auto` when none was configured.
    pub open spec fn effective_sharding_method(&self) -> ShardingMethod {
        match self.sharding_method {
            None => ShardingMethod::Auto,
            Some(m) => m,
        }
    }
}

/// Failure taxonomy of the storage boundary.
#[derive(Clone, Copy, Debug, PartialEq, Eq, Structural)]
pub enum StorageErrorKind {
    /// The caller's intent is invalid or contradicts current state.
    BadRequest,
    /// A referenced entity is absent.
    NotFound,
    /// The consensus layer did not confirm commit within the requested bound.
    Timeout,
    /// A collaborator failure passed through unchanged.
    Internal,
}

/// Why an operation was rejected. Each variant names the exact identifier
/// that caused the failure, sufficient for a caller to diagnose it.
#[derive(Clone, Copy, Debug, PartialEq, Eq, Structural)]
pub enum ClusterError {
    /// A referenced peer is not a member of the cluster.
    PeerNotFound { peer_id: PeerId },
    /// A referenced shard does not exist in the collection.
    ShardNotFound { shard_id: ShardId },
    /// Abort or Restart named a transfer that is not in flight.
    TransferNotFound { key: ShardTransferKey },
    /// Shard keys can only be created or dropped under Custom sharding.
    AutoShardingMethod,
    /// The shard key to create is already present in the mapping.
    ShardKeyExists { shard_key: ShardKey },
    /// The shard key to drop is not present in the mapping.
    ShardKeyNotFound { shard_key: ShardKey },
    /// An explicit placement list was supplied but empty; omitting the list
    /// requests automatic placement instead.
    EmptyPlacement { shard_key: ShardKey },
}

impl ClusterError {
    /// Taxonomy class of this rejection. Only a missing transfer is reported
    /// as not-found; every other rejection is a bad request, a missing shard
    /// key at drop time included.
    pub open spec fn spec_kind(&self) -> StorageErrorKind {
        match *self {
            ClusterError::TransferNotFound { .. } => StorageErrorKind::NotFound,
            _ => StorageErrorKind::BadRequest,
        }
    }

    /// Taxonomy class of this rejection.
    pub fn kind(&self) -> (k: StorageErrorKind)
        ensures
            k == self.spec_kind(),
    {
        match *self {
            ClusterError::TransferNotFound { .. } => StorageErrorKind::NotFound,
            _ => StorageErrorKind::BadRequest,
        }
    }
}

/// One elementary change to a collection's replica set.
#[derive(Clone, Copy, Debug, PartialEq, Eq)]
pub enum ReplicaChange {
    /// Remove the replica of the given shard held by the given peer.
    Remove(ShardId, PeerId),
}

/// A transfer-level mutation inside a `Mutation::TransferShard`.
#[derive(Clone, Debug, PartialEq)]
pub enum TransferMutation {
    /// Begin a new transfer.
    Start { transfer: ShardTransfer },
    /// Abort an in-flight transfer, with the operator-supplied reason.
    Abort { transfer: ShardTransferKey, reason: String },
    /// Restart an in-flight transfer with a new method.
    Restart { transfer: ShardTransferRestart },
}

/// The single durable mutation emitted for one validated operation. The
/// boundary layer attaches the collection name and submits it to consensus;
/// nothing is submitted for a rejected operation.
#[derive(Clone, Debug, PartialEq)]
pub enum Mutation {
    TransferShard(TransferMutation),
    UpdateCollection { replica_changes: Vec<ReplicaChange> },
    CreateShardKey { shard_key: ShardKey, placement: Vec<Vec<PeerId>> },
    DropShardKey { shard_key: ShardKey },
}

} // verus!
