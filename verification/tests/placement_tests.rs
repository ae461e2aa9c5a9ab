use std::collections::HashSet;

use shard_control::placement::generate_even_placement;

#[test]
fn test_generate_even_placement() {
    let pool = vec![1, 2, 3];
    let placement = generate_even_placement(pool, 3, 2);

    assert_eq!(placement.len(), 3);
    for shard_placement in placement {
        assert_eq!(shard_placement.len(), 2);
        assert_ne!(shard_placement[0], shard_placement[1]);
    }

    let pool = vec![1, 2, 3];
    let placement = generate_even_placement(pool, 3, 3);

    assert_eq!(placement.len(), 3);
    for shard_placement in placement {
        assert_eq!(shard_placement.len(), 3);
        let set: HashSet<_> = shard_placement.into_iter().collect();
        assert_eq!(set.len(), 3);
    }

    let pool = vec![1, 2, 3, 4, 5, 6];
    let placement = generate_even_placement(pool, 3, 2);

    assert_eq!(placement.len(), 3);
    let flat_placement: Vec<_> = placement.into_iter().flatten().collect();
    let set: HashSet<_> = flat_placement.into_iter().collect();
    assert_eq!(set.len(), 6);

    let pool = vec![1, 2, 3, 4, 5];
    let placement = generate_even_placement(pool, 3, 10);

    assert_eq!(placement.len(), 3);
    for shard_placement in placement {
        assert_eq!(shard_placement.len(), 5);
    }
}

#[test]
fn full_replication_assigns_whole_pool_to_each_shard() {
    let placement = generate_even_placement(vec![1, 2, 3], 4, 3);
    assert_eq!(placement.len(), 4);
    for shard_placement in placement {
        let set: HashSet<u64> = shard_placement.into_iter().collect();
        assert_eq!(set, HashSet::from([1, 2, 3]));
    }
}

#[test]
fn placement_draws_only_from_the_pool() {
    let pool = vec![10, 20, 30, 40];
    let allowed: HashSet<u64> = pool.iter().copied().collect();
    let placement = generate_even_placement(pool, 7, 2);
    assert_eq!(placement.len(), 7);
    for shard_placement in placement {
        assert_eq!(shard_placement.len(), 2);
        for peer in shard_placement {
            assert!(allowed.contains(&peer));
        }
    }
}

#[test]
fn zero_shards_yield_empty_placement() {
    let placement = generate_even_placement(vec![1, 2, 3], 0, 2);
    assert!(placement.is_empty());
}

#[test]
fn single_peer_pool_fills_every_shard_with_that_peer() {
    let placement = generate_even_placement(vec![9], 3, 5);
    assert_eq!(placement.len(), 3);
    for shard_placement in placement {
        assert_eq!(shard_placement, vec![9]);
    }
}

#[test]
fn empty_pool_yields_degenerate_empty_entries() {
    let placement = generate_even_placement(Vec::new(), 2, 3);
    assert_eq!(placement.len(), 2);
    for shard_placement in placement {
        assert!(shard_placement.is_empty());
    }
}
