//! Validation and translation of cluster operations: every administrative
//! intent is checked against a point-in-time snapshot before exactly one
//! durable mutation is built for it; a rejected intent yields no mutation.

use vstd::prelude::*;

use crate::placement::{even_placement_of, generate_even_placement, rows_view};
use crate::types::{
    ClusterError, ClusterOperation, CollectionStateSnapshot, Mutation, PeerId, ReplicaChange,
    ShardId, ShardTransfer, ShardTransferKey, ShardTransferRestart, ShardingMethod,
    TransferMutation,
};

verus! {

/// The first peer of `list`, in list order, that is missing from `peers`;
/// `None` when every listed peer is a member.
pub open spec fn first_unknown_peer(peers: Seq<PeerId>, list: Seq<PeerId>) -> Option<PeerId>
    decreases list.len(),
{
    if list.len() == 0 {
        None
    } else if !peers.contains(list[0]) {
        Some(list[0])
    } else {
        first_unknown_peer(peers, list.drop_first())
    }
}

/// The checks of the operation validator, in the order they are evaluated:
/// the first failing check names the rejection, and `None` means the
/// operation passed every check that applies to its kind.
///
/// Peer references are checked against current membership, shard references
/// against the collection's shard set, transfer references against the
/// in-flight transfers, and shard-key operations against the sharding
/// method and the key mapping of the snapshot.
pub open spec fn spec_validate(
    state: CollectionStateSnapshot,
    peers: Seq<PeerId>,
    op: ClusterOperation,
) -> Option<ClusterError> {
    match op {
        ClusterOperation::MoveShard { shard_id, from_peer_id, to_peer_id, .. } => {
            spec_validate_transfer_start(state, peers, shard_id, from_peer_id, to_peer_id)
        },
        ClusterOperation::ReplicateShard { shard_id, from_peer_id, to_peer_id, .. } => {
            spec_validate_transfer_start(state, peers, shard_id, from_peer_id, to_peer_id)
        },
        ClusterOperation::AbortTransfer { shard_id, from_peer_id, to_peer_id } => {
            let key = ShardTransferKey { shard_id, to: to_peer_id, from: from_peer_id };
            if !state.transfers@.contains(key) {
                Some(ClusterError::TransferNotFound { key })
            } else {
                None
            }
        },
        ClusterOperation::DropReplica { shard_id, peer_id } => {
            if !state.shards@.contains(shard_id) {
                Some(ClusterError::ShardNotFound { shard_id })
            } else if !peers.contains(peer_id) {
                Some(ClusterError::PeerNotFound { peer_id })
            } else {
                None
            }
        },
        ClusterOperation::CreateShardingKey { shard_key, placement, .. } => {
            if state.effective_sharding_method() == ShardingMethod::Auto {
                Some(ClusterError::AutoShardingMethod)
            } else if state.shard_keys@.contains(shard_key) {
                Some(ClusterError::ShardKeyExists { shard_key })
            } else {
                match placement {
                    Some(p) => {
                        if p@.len() == 0 {
                            Some(ClusterError::EmptyPlacement { shard_key })
                        } else {
                            match first_unknown_peer(peers, p@) {
                                Some(peer_id) => Some(ClusterError::PeerNotFound { peer_id }),
                                None => None,
                            }
                        }
                    },
                    None => None,
                }
            }
        },
        ClusterOperation::DropShardingKey { shard_key } => {
            if state.effective_sharding_method() == ShardingMethod::Auto {
                Some(ClusterError::AutoShardingMethod)
            } else if !state.shard_keys@.contains(shard_key) {
                Some(ClusterError::ShardKeyNotFound { shard_key })
            } else {
                None
            }
        },
        ClusterOperation::RestartTransfer { shard_id, from_peer_id, to_peer_id, .. } => {
            let key = ShardTransferKey { shard_id, to: to_peer_id, from: from_peer_id };
            if !state.transfers@.contains(key) {
                Some(ClusterError::TransferNotFound { key })
            } else {
                None
            }
        },
    }
}

/// Checks shared by the two transfer-starting operations: the shard must
/// exist, then the target peer, then the source peer must be members.
pub open spec fn spec_validate_transfer_start(
    state: CollectionStateSnapshot,
    peers: Seq<PeerId>,
    shard_id: ShardId,
    from_peer_id: PeerId,
    to_peer_id: PeerId,
) -> Option<ClusterError> {
    if !state.shards@.contains(shard_id) {
        Some(ClusterError::ShardNotFound { shard_id })
    } else if !peers.contains(to_peer_id) {
        Some(ClusterError::PeerNotFound { peer_id: to_peer_id })
    } else if !peers.contains(from_peer_id) {
        Some(ClusterError::PeerNotFound { peer_id: from_peer_id })
    } else {
        None
    }
}

/// What the translator emits for a validated operation: a deterministic,
/// total mapping to exactly one durable mutation. Shard ids and peer ids in
/// the mutation equal those of the validated input exactly — no field is
/// substituted or lost. The one non-deterministic case is an automatic
/// placement draw for a new shard key, pinned down up to the random
/// permutation by `even_placement_of`.
pub open spec fn spec_translate_matches(
    state: CollectionStateSnapshot,
    peers: Seq<PeerId>,
    op: ClusterOperation,
    m: Mutation,
) -> bool {
    match op {
        ClusterOperation::MoveShard { shard_id, from_peer_id, to_peer_id, method } => {
            m == Mutation::TransferShard(
                TransferMutation::Start {
                    transfer: ShardTransfer {
                        shard_id,
                        to: to_peer_id,
                        from: from_peer_id,
                        sync: false,
                        method,
                    },
                },
            )
        },
        ClusterOperation::ReplicateShard { shard_id, from_peer_id, to_peer_id, method } => {
            m == Mutation::TransferShard(
                TransferMutation::Start {
                    transfer: ShardTransfer {
                        shard_id,
                        to: to_peer_id,
                        from: from_peer_id,
                        sync: true,
                        method,
                    },
                },
            )
        },
        ClusterOperation::AbortTransfer { shard_id, from_peer_id, to_peer_id } => {
            &&& m matches Mutation::TransferShard(TransferMutation::Abort { transfer, reason })
            &&& transfer == (ShardTransferKey { shard_id, to: to_peer_id, from: from_peer_id })
            &&& reason@ == "user request"@
        },
        ClusterOperation::DropReplica { shard_id, peer_id } => {
            &&& m matches Mutation::UpdateCollection { replica_changes }
            &&& replica_changes@ == seq![ReplicaChange::Remove(shard_id, peer_id)]
        },
        ClusterOperation::CreateShardingKey {
            shard_key,
            shards_number,
            replication_factor,
            placement,
        } => {
            let pool = match placement {
                Some(p) => p@,
                None => peers,
            };
            let shards = match shards_number {
                Some(n) => n,
                None => state.shard_number,
            };
            let factor = match replication_factor {
                Some(f) => f,
                None => state.replication_factor,
            };
            &&& m matches Mutation::CreateShardKey { shard_key: key, placement: rows }
            &&& key == shard_key
            &&& even_placement_of(pool, shards as int, factor as int, rows_view(rows@))
        },
        ClusterOperation::DropShardingKey { shard_key } => {
            m == Mutation::DropShardKey { shard_key }
        },
        ClusterOperation::RestartTransfer { shard_id, from_peer_id, to_peer_id, method } => {
            m == Mutation::TransferShard(
                TransferMutation::Restart {
                    transfer: ShardTransferRestart {
                        shard_id,
                        to: to_peer_id,
                        from: from_peer_id,
                        method,
                    },
                },
            )
        },
    }
}

/// Whether the given id stands in the list of known peer ids (also used for
/// the numeric shard-key mapping).
fn contains_id(ids: &Vec<PeerId>, id: PeerId) -> (b: bool)
    ensures
        b == ids@.contains(id),
{
    let mut k: usize = 0;
    while k < ids.len()
        invariant
            k <= ids@.len(),
            forall|t: int| 0 <= t < k as int ==> ids@[t] != id,
        decreases ids@.len() - k,
    {
        if ids[k] == id {
            return true;
        }
        k = k + 1;
    }
    false
}

/// Whether the given shard id stands in the collection's shard set.
fn contains_shard(shards: &Vec<ShardId>, shard_id: ShardId) -> (b: bool)
    ensures
        b == shards@.contains(shard_id),
{
    let mut k: usize = 0;
    while k < shards.len()
        invariant
            k <= shards@.len(),
            forall|t: int| 0 <= t < k as int ==> shards@[t] != shard_id,
        decreases shards@.len() - k,
    {
        if shards[k] == shard_id {
            return true;
        }
        k = k + 1;
    }
    false
}

/// Whether the given transfer key matches a currently known transfer.
fn contains_transfer(transfers: &Vec<ShardTransferKey>, key: ShardTransferKey) -> (b: bool)
    ensures
        b == transfers@.contains(key),
{
    let mut k: usize = 0;
    while k < transfers.len()
        invariant
            k <= transfers@.len(),
            forall|t: int| 0 <= t < k as int ==> transfers@[t] != key,
        decreases transfers@.len() - k,
    {
        if transfers[k] == key {
            return true;
        }
        k = k + 1;
    }
    false
}

/// Walk an explicit placement list and report the first peer that is not a
/// member of the cluster, rereading membership once per listed peer.
fn find_unknown_peer(peers: &Vec<PeerId>, list: &Vec<PeerId>) -> (r: Option<PeerId>)
    ensures
        r == first_unknown_peer(peers@, list@),
{
    proof {
        assert(list@.skip(0) =~= list@);
    }
    let mut k: usize = 0;
    while k < list.len()
        invariant
            k <= list@.len(),
            first_unknown_peer(peers@, list@) == first_unknown_peer(
                peers@,
                list@.skip(k as int),
            ),
        decreases list@.len() - k,
    {
        if !contains_id(peers, list[k]) {
            proof {
                assert(list@.skip(k as int)[0int] == list@[k as int]);
            }
            return Some(list[k]);
        }
        proof {
            assert(list@.skip(k as int)[0int] == list@[k as int]);
            assert(list@.skip(k as int).drop_first() =~= list@.skip(k as int + 1));
        }
        k = k + 1;
    }
    None
}

/// An exact copy of the membership list, taken when automatic placement
/// falls back to the full known peer set.
fn copied_peers(peers: &Vec<PeerId>) -> (r: Vec<PeerId>)
    ensures
        r@ == peers@,
{
    let mut r: Vec<PeerId> = Vec::new();
    let mut k: usize = 0;
    while k < peers.len()
        invariant
            k <= peers@.len(),
            r@ == peers@.subrange(0, k as int),
        decreases peers@.len() - k,
    {
        r.push(peers[k]);
        proof {
            assert(r@ =~= peers@.subrange(0, k as int + 1));
        }
        k = k + 1;
    }
    proof {
        assert(r@ =~= peers@);
    }
    r
}

/// Validate one cluster operation against the snapshot and current
/// membership, and translate it into its single durable mutation.
///
/// All applicable checks run before any mutation is built: a rejected
/// operation returns exactly the first failing check's error and no
/// mutation exists for it. A validated operation maps to the one mutation
/// `spec_translate_matches` describes; only an automatic placement draw for
/// a new shard key consumes randomness, every other path is deterministic.
pub fn plan_cluster_operation(
    state: &CollectionStateSnapshot,
    peers: &Vec<PeerId>,
    operation: ClusterOperation,
) -> (r: Result<Mutation, ClusterError>)
    ensures
        match spec_validate(*state, peers@, operation) {
            Some(e) => r == Err::<Mutation, ClusterError>(e),
            None => r matches Ok(m) && spec_translate_matches(*state, peers@, operation, m),
        },
{
    match operation {
        ClusterOperation::MoveShard { shard_id, from_peer_id, to_peer_id, method } => {
            if !contains_shard(&state.shards, shard_id) {
                Err(ClusterError::ShardNotFound { shard_id })
            } else if !contains_id(peers, to_peer_id) {
                Err(ClusterError::PeerNotFound { peer_id: to_peer_id })
            } else if !contains_id(peers, from_peer_id) {
                Err(ClusterError::PeerNotFound { peer_id: from_peer_id })
            } else {
                Ok(
                    Mutation::TransferShard(
                        TransferMutation::Start {
                            transfer: ShardTransfer {
                                shard_id,
                                to: to_peer_id,
                                from: from_peer_id,
                                sync: false,
                                method,
                            },
                        },
                    ),
                )
            }
        },
        ClusterOperation::ReplicateShard { shard_id, from_peer_id, to_peer_id, method } => {
            if !contains_shard(&state.shards, shard_id) {
                Err(ClusterError::ShardNotFound { shard_id })
            } else if !contains_id(peers, to_peer_id) {
                Err(ClusterError::PeerNotFound { peer_id: to_peer_id })
            } else if !contains_id(peers, from_peer_id) {
                Err(ClusterError::PeerNotFound { peer_id: from_peer_id })
            } else {
                Ok(
                    Mutation::TransferShard(
                        TransferMutation::Start {
                            transfer: ShardTransfer {
                                shard_id,
                                to: to_peer_id,
                                from: from_peer_id,
                                sync: true,
                                method,
                            },
                        },
                    ),
                )
            }
        },
        ClusterOperation::AbortTransfer { shard_id, from_peer_id, to_peer_id } => {
            let key = ShardTransferKey { shard_id, to: to_peer_id, from: from_peer_id };
            if !contains_transfer(&state.transfers, key) {
                Err(ClusterError::TransferNotFound { key })
            } else {
                Ok(
                    Mutation::TransferShard(
                        TransferMutation::Abort { transfer: key, reason: "user request".to_owned() },
                    ),
                )
            }
        },
        ClusterOperation::DropReplica { shard_id, peer_id } => {
            if !contains_shard(&state.shards, shard_id) {
                Err(ClusterError::ShardNotFound { shard_id })
            } else if !contains_id(peers, peer_id) {
                Err(ClusterError::PeerNotFound { peer_id })
            } else {
                let mut replica_changes: Vec<ReplicaChange> = Vec::new();
                replica_changes.push(ReplicaChange::Remove(shard_id, peer_id));
                proof {
                    assert(replica_changes@ =~= seq![ReplicaChange::Remove(shard_id, peer_id)]);
                }
                Ok(Mutation::UpdateCollection { replica_changes })
            }
        },
        ClusterOperation::CreateShardingKey {
            shard_key,
            shards_number,
            replication_factor,
            placement,
        } => {
            let auto = match state.sharding_method {
                None => true,
                Some(ShardingMethod::Auto) => true,
                Some(ShardingMethod::Custom) => false,
            };
            if auto {
                return Err(ClusterError::AutoShardingMethod);
            }
            if contains_id(&state.shard_keys, shard_key) {
                return Err(ClusterError::ShardKeyExists { shard_key });
            }
            let pool: Vec<PeerId> = match placement {
                Some(p) => {
                    if p.len() == 0 {
                        return Err(ClusterError::EmptyPlacement { shard_key });
                    }
                    match find_unknown_peer(peers, &p) {
                        Some(peer_id) => {
                            return Err(ClusterError::PeerNotFound { peer_id });
                        },
                        None => p,
                    }
                },
                None => copied_peers(peers),
            };
            let shards = match shards_number {
                Some(n) => n,
                None => state.shard_number,
            };
            let factor = match replication_factor {
                Some(f) => f,
                None => state.replication_factor,
            };
            let rows = generate_even_placement(pool, shards as usize, factor as usize);
            Ok(Mutation::CreateShardKey { shard_key, placement: rows })
        },
        ClusterOperation::DropShardingKey { shard_key } => {
            let auto = match state.sharding_method {
                None => true,
                Some(ShardingMethod::Auto) => true,
                Some(ShardingMethod::Custom) => false,
            };
            if auto {
                Err(ClusterError::AutoShardingMethod)
            } else if !contains_id(&state.shard_keys, shard_key) {
                Err(ClusterError::ShardKeyNotFound { shard_key })
            } else {
                Ok(Mutation::DropShardKey { shard_key })
            }
        },
        ClusterOperation::RestartTransfer { shard_id, from_peer_id, to_peer_id, method } => {
            let key = ShardTransferKey { shard_id, to: to_peer_id, from: from_peer_id };
            if !contains_transfer(&state.transfers, key) {
                Err(ClusterError::TransferNotFound { key })
            } else {
                Ok(
                    Mutation::TransferShard(
                        TransferMutation::Restart {
                            transfer: ShardTransferRestart {
                                shard_id,
                                to: to_peer_id,
                                from: from_peer_id,
                                method,
                            },
                        },
                    ),
                )
            }
        },
    }
}

} // verus!
