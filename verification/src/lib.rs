//! Cluster control-plane core of a distributed vector database.
//!
//! This library is the pure coordination layer: it validates administrative
//! intents (move a shard, replicate a shard, abort or restart a transfer,
//! drop a replica, create or drop a custom shard key) against a point-in-time
//! state snapshot, translates each validated intent into exactly one durable
//! mutation for the consensus layer, and computes shard-to-peer placements.
//! It holds no durable state of its own; submission and all I/O live with
//! the caller.

pub mod cluster;
pub mod descriptor_set_layout;
pub mod listing;
pub mod placement;
pub mod types;
