use std::collections::HashSet;

use shard_control::cluster::plan_cluster_operation;
use shard_control::types::{
    ClusterError, ClusterOperation, CollectionStateSnapshot, Mutation, ReplicaChange,
    ShardTransfer, ShardTransferKey, ShardTransferMethod, ShardTransferRestart, ShardingMethod,
    StorageErrorKind, TransferMutation,
};

fn snapshot(
    sharding_method: Option<ShardingMethod>,
    shard_keys: Vec<u64>,
    shards: Vec<u32>,
    transfers: Vec<ShardTransferKey>,
) -> CollectionStateSnapshot {
    CollectionStateSnapshot {
        sharding_method,
        shard_number: 3,
        replication_factor: 2,
        shard_keys,
        shards,
        transfers,
    }
}

#[test]
fn move_shard_unknown_shard_fails_bad_request() {
    let state = snapshot(None, vec![], vec![1, 2], vec![]);
    let peers = vec![100, 200];
    let op = ClusterOperation::MoveShard {
        shard_id: 9,
        from_peer_id: 100,
        to_peer_id: 200,
        method: None,
    };
    let r = plan_cluster_operation(&state, &peers, op);
    // The rejection comes back before any mutation exists at all.
    let e = r.unwrap_err();
    assert_eq!(e, ClusterError::ShardNotFound { shard_id: 9 });
    assert_eq!(e.kind(), StorageErrorKind::BadRequest);
}

#[test]
fn move_shard_unknown_peer_fails_bad_request() {
    let state = snapshot(None, vec![], vec![1], vec![]);
    let peers = vec![100];
    let op = ClusterOperation::MoveShard {
        shard_id: 1,
        from_peer_id: 100,
        to_peer_id: 999,
        method: None,
    };
    let e = plan_cluster_operation(&state, &peers, op).unwrap_err();
    assert_eq!(e, ClusterError::PeerNotFound { peer_id: 999 });
    assert_eq!(e.kind(), StorageErrorKind::BadRequest);
}

#[test]
fn move_shard_round_trip_keeps_every_field() {
    let state = snapshot(None, vec![], vec![4], vec![]);
    let peers = vec![100, 200];
    let op = ClusterOperation::MoveShard {
        shard_id: 4,
        from_peer_id: 100,
        to_peer_id: 200,
        method: Some(ShardTransferMethod::Snapshot),
    };
    let m = plan_cluster_operation(&state, &peers, op).unwrap();
    assert_eq!(
        m,
        Mutation::TransferShard(TransferMutation::Start {
            transfer: ShardTransfer {
                shard_id: 4,
                to: 200,
                from: 100,
                sync: false,
                method: Some(ShardTransferMethod::Snapshot),
            },
        })
    );
}

#[test]
fn replicate_shard_round_trip_is_additive() {
    let state = snapshot(None, vec![], vec![4], vec![]);
    let peers = vec![100, 200];
    let op = ClusterOperation::ReplicateShard {
        shard_id: 4,
        from_peer_id: 100,
        to_peer_id: 200,
        method: None,
    };
    let m = plan_cluster_operation(&state, &peers, op).unwrap();
    assert_eq!(
        m,
        Mutation::TransferShard(TransferMutation::Start {
            transfer: ShardTransfer {
                shard_id: 4,
                to: 200,
                from: 100,
                sync: true,
                method: None,
            },
        })
    );
}

#[test]
fn abort_transfer_unknown_key_fails_not_found() {
    let state = snapshot(None, vec![], vec![1], vec![]);
    let peers = vec![100, 200];
    let op = ClusterOperation::AbortTransfer {
        shard_id: 1,
        from_peer_id: 100,
        to_peer_id: 200,
    };
    let e = plan_cluster_operation(&state, &peers, op).unwrap_err();
    assert_eq!(
        e,
        ClusterError::TransferNotFound {
            key: ShardTransferKey { shard_id: 1, to: 200, from: 100 },
        }
    );
    assert_eq!(e.kind(), StorageErrorKind::NotFound);
}

#[test]
fn abort_transfer_round_trip_keeps_the_key() {
    let key = ShardTransferKey { shard_id: 1, to: 200, from: 100 };
    let state = snapshot(None, vec![], vec![1], vec![key]);
    let peers = vec![100, 200];
    let op = ClusterOperation::AbortTransfer {
        shard_id: 1,
        from_peer_id: 100,
        to_peer_id: 200,
    };
    let m = plan_cluster_operation(&state, &peers, op).unwrap();
    match m {
        Mutation::TransferShard(TransferMutation::Abort { transfer, reason }) => {
            assert_eq!(transfer, key);
            assert_eq!(reason, "user request");
        }
        other => panic!("expected an abort mutation, got {other:?}"),
    }
}

#[test]
fn abort_after_removal_fails_not_found_the_second_time() {
    let key = ShardTransferKey { shard_id: 2, to: 300, from: 100 };
    let with_transfer = snapshot(None, vec![], vec![2], vec![key]);
    let peers = vec![100, 300];
    let first = plan_cluster_operation(
        &with_transfer,
        &peers,
        ClusterOperation::AbortTransfer { shard_id: 2, from_peer_id: 100, to_peer_id: 300 },
    );
    assert!(first.is_ok());

    // After the abort committed, the transfer is gone from the snapshot:
    // re-issuing the same abort is rejected, not silently repeated.
    let without_transfer = snapshot(None, vec![], vec![2], vec![]);
    let second = plan_cluster_operation(
        &without_transfer,
        &peers,
        ClusterOperation::AbortTransfer { shard_id: 2, from_peer_id: 100, to_peer_id: 300 },
    );
    let e = second.unwrap_err();
    assert_eq!(e, ClusterError::TransferNotFound { key });
    assert_eq!(e.kind(), StorageErrorKind::NotFound);
}

#[test]
fn drop_replica_emits_a_single_removal() {
    let state = snapshot(None, vec![], vec![5], vec![]);
    let peers = vec![100];
    let op = ClusterOperation::DropReplica { shard_id: 5, peer_id: 100 };
    let m = plan_cluster_operation(&state, &peers, op).unwrap();
    assert_eq!(
        m,
        Mutation::UpdateCollection { replica_changes: vec![ReplicaChange::Remove(5, 100)] }
    );
}

#[test]
fn create_sharding_key_under_auto_fails_bad_request() {
    // Regardless of every other supplied field.
    for method in [None, Some(ShardingMethod::Auto)] {
        let state = snapshot(method, vec![], vec![1], vec![]);
        let peers = vec![100, 200];
        let op = ClusterOperation::CreateShardingKey {
            shard_key: 7,
            shards_number: Some(2),
            replication_factor: Some(2),
            placement: Some(vec![100, 200]),
        };
        let e = plan_cluster_operation(&state, &peers, op).unwrap_err();
        assert_eq!(e, ClusterError::AutoShardingMethod);
        assert_eq!(e.kind(), StorageErrorKind::BadRequest);
    }
}

#[test]
fn create_sharding_key_duplicate_fails_bad_request() {
    let state = snapshot(Some(ShardingMethod::Custom), vec![7], vec![1], vec![]);
    let peers = vec![100];
    let op = ClusterOperation::CreateShardingKey {
        shard_key: 7,
        shards_number: None,
        replication_factor: None,
        placement: None,
    };
    let e = plan_cluster_operation(&state, &peers, op).unwrap_err();
    assert_eq!(e, ClusterError::ShardKeyExists { shard_key: 7 });
    assert_eq!(e.kind(), StorageErrorKind::BadRequest);
}

#[test]
fn create_sharding_key_empty_placement_fails_bad_request() {
    let state = snapshot(Some(ShardingMethod::Custom), vec![], vec![1], vec![]);
    let peers = vec![100];
    let op = ClusterOperation::CreateShardingKey {
        shard_key: 7,
        shards_number: None,
        replication_factor: None,
        placement: Some(vec![]),
    };
    let e = plan_cluster_operation(&state, &peers, op).unwrap_err();
    assert_eq!(e, ClusterError::EmptyPlacement { shard_key: 7 });
    assert_eq!(e.kind(), StorageErrorKind::BadRequest);
}

#[test]
fn create_sharding_key_unknown_placement_peer_fails() {
    let state = snapshot(Some(ShardingMethod::Custom), vec![], vec![1], vec![]);
    let peers = vec![100, 200];
    let op = ClusterOperation::CreateShardingKey {
        shard_key: 7,
        shards_number: None,
        replication_factor: None,
        placement: Some(vec![100, 999, 200]),
    };
    let e = plan_cluster_operation(&state, &peers, op).unwrap_err();
    assert_eq!(e, ClusterError::PeerNotFound { peer_id: 999 });
}

#[test]
fn create_sharding_key_draws_automatic_placement_from_membership() {
    let state = snapshot(Some(ShardingMethod::Custom), vec![], vec![1], vec![]);
    let peers = vec![100, 200, 300];
    let op = ClusterOperation::CreateShardingKey {
        shard_key: 7,
        shards_number: None,
        replication_factor: None,
        placement: None,
    };
    let m = plan_cluster_operation(&state, &peers, op).unwrap();
    match m {
        Mutation::CreateShardKey { shard_key, placement } => {
            assert_eq!(shard_key, 7);
            // Snapshot defaults: 3 shards, replication factor 2.
            assert_eq!(placement.len(), 3);
            let members: HashSet<u64> = peers.iter().copied().collect();
            for row in placement {
                assert_eq!(row.len(), 2);
                assert_ne!(row[0], row[1]);
                assert!(members.contains(&row[0]));
                assert!(members.contains(&row[1]));
            }
        }
        other => panic!("expected a create-shard-key mutation, got {other:?}"),
    }
}

#[test]
fn create_sharding_key_uses_explicit_placement_and_overrides() {
    let state = snapshot(Some(ShardingMethod::Custom), vec![], vec![1], vec![]);
    let peers = vec![100, 200, 300, 400];
    let op = ClusterOperation::CreateShardingKey {
        shard_key: 8,
        shards_number: Some(2),
        replication_factor: Some(5),
        placement: Some(vec![100, 200]),
    };
    let m = plan_cluster_operation(&state, &peers, op).unwrap();
    match m {
        Mutation::CreateShardKey { shard_key, placement } => {
            assert_eq!(shard_key, 8);
            assert_eq!(placement.len(), 2);
            for row in placement {
                // The factor clamps to the explicit pool of two peers.
                let set: HashSet<u64> = row.into_iter().collect();
                assert_eq!(set, HashSet::from([100, 200]));
            }
        }
        other => panic!("expected a create-shard-key mutation, got {other:?}"),
    }
}

#[test]
fn drop_sharding_key_under_auto_fails_bad_request() {
    let state = snapshot(None, vec![7], vec![1], vec![]);
    let peers = vec![100];
    let op = ClusterOperation::DropShardingKey { shard_key: 7 };
    let e = plan_cluster_operation(&state, &peers, op).unwrap_err();
    assert_eq!(e, ClusterError::AutoShardingMethod);
}

#[test]
fn drop_sharding_key_missing_fails_bad_request() {
    let state = snapshot(Some(ShardingMethod::Custom), vec![], vec![1], vec![]);
    let peers = vec![100];
    let op = ClusterOperation::DropShardingKey { shard_key: 7 };
    let e = plan_cluster_operation(&state, &peers, op).unwrap_err();
    assert_eq!(e, ClusterError::ShardKeyNotFound { shard_key: 7 });
    assert_eq!(e.kind(), StorageErrorKind::BadRequest);
}

#[test]
fn drop_sharding_key_emits_the_drop_mutation() {
    let state = snapshot(Some(ShardingMethod::Custom), vec![7], vec![1], vec![]);
    let peers = vec![100];
    let op = ClusterOperation::DropShardingKey { shard_key: 7 };
    let m = plan_cluster_operation(&state, &peers, op).unwrap();
    assert_eq!(m, Mutation::DropShardKey { shard_key: 7 });
}

#[test]
fn restart_transfer_unknown_key_fails_not_found() {
    let state = snapshot(None, vec![], vec![1], vec![]);
    let peers = vec![100, 200];
    let op = ClusterOperation::RestartTransfer {
        shard_id: 1,
        from_peer_id: 100,
        to_peer_id: 200,
        method: ShardTransferMethod::WalDelta,
    };
    let e = plan_cluster_operation(&state, &peers, op).unwrap_err();
    assert_eq!(
        e,
        ClusterError::TransferNotFound {
            key: ShardTransferKey { shard_id: 1, to: 200, from: 100 },
        }
    );
    assert_eq!(e.kind(), StorageErrorKind::NotFound);
}

#[test]
fn restart_transfer_round_trip_keeps_every_field() {
    let key = ShardTransferKey { shard_id: 1, to: 200, from: 100 };
    let state = snapshot(None, vec![], vec![1], vec![key]);
    let peers = vec![100, 200];
    let op = ClusterOperation::RestartTransfer {
        shard_id: 1,
        from_peer_id: 100,
        to_peer_id: 200,
        method: ShardTransferMethod::StreamRecords,
    };
    let m = plan_cluster_operation(&state, &peers, op).unwrap();
    assert_eq!(
        m,
        Mutation::TransferShard(TransferMutation::Restart {
            transfer: ShardTransferRestart {
                shard_id: 1,
                to: 200,
                from: 100,
                method: ShardTransferMethod::StreamRecords,
            },
        })
    );
}
