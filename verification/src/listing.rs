//! Compute parts of the read-only listing entry points: deciding an
//! existence reply, shaping listing responses, and the placeholder returned
//! when snapshot creation runs detached. The lookups themselves are I/O and
//! live with the caller.

use vstd::prelude::*;
use itertools::Itertools;

use crate::types::{ShardId, StorageErrorKind};

verus! {

/// Reply to a collection-existence query.
#[derive(Clone, Copy, Debug, PartialEq, Eq, Structural)]
pub struct CollectionExists {
    pub exists: bool,
}

/// One collection name in a listing reply.
#[derive(Clone, Debug, PartialEq, Eq)]
pub struct CollectionDescription {
    pub name: String,
}

/// Reply listing every collection by name.
#[derive(Clone, Debug, PartialEq, Eq)]
pub struct CollectionsResponse {
    pub collections: Vec<CollectionDescription>,
}

/// One alias paired with the collection it points to.
#[derive(Clone, Debug, PartialEq, Eq)]
pub struct AliasDescription {
    pub alias_name: String,
    pub collection_name: String,
}

/// Reply listing aliases.
#[derive(Clone, Debug, PartialEq, Eq)]
pub struct CollectionsAliasesResponse {
    pub aliases: Vec<AliasDescription>,
}

/// Description of one stored snapshot; the creation time is a unix
/// timestamp when known.
#[derive(Clone, Debug, PartialEq, Eq)]
pub struct SnapshotDescription {
    pub name: String,
    pub creation_time: Option<i64>,
    pub size: u64,
    pub checksum: Option<String>,
}

/// Which shards of a collection an info request addresses.
#[derive(Clone, Copy, Debug, PartialEq, Eq, Structural)]
pub enum ShardSelector {
    All,
    OneShard(ShardId),
}

/// Decide a collection-existence reply from the outcome of looking the
/// collection up: success means it exists, a not-found failure is the valid
/// negative answer rather than an error, and every other failure kind
/// propagates unchanged.
pub fn collection_exists_outcome(lookup: Result<(), StorageErrorKind>) -> (r: Result<
    CollectionExists,
    StorageErrorKind,
>)
    ensures
        match lookup {
            Ok(()) => r == Ok::<CollectionExists, StorageErrorKind>(
                (CollectionExists { exists: true }),
            ),
            Err(k) => if k == StorageErrorKind::NotFound {
                r == Ok::<CollectionExists, StorageErrorKind>(
                    (CollectionExists { exists: false }),
                )
            } else {
                r == Err::<CollectionExists, StorageErrorKind>(k)
            },
        },
{
    match lookup {
        Ok(()) => Ok(CollectionExists { exists: true }),
        Err(k) => {
            if k == StorageErrorKind::NotFound {
                Ok(CollectionExists { exists: false })
            } else {
                Err(k)
            }
        },
    }
}

/// Which shards an info request reads: one shard when the caller named one,
/// every shard otherwise.
pub fn shard_selector(shard_selection: Option<ShardId>) -> (s: ShardSelector)
    ensures
        match shard_selection {
            None => s == ShardSelector::All,
            Some(id) => s == ShardSelector::OneShard(id),
        },
{
    match shard_selection {
        None => ShardSelector::All,
        Some(id) => ShardSelector::OneShard(id),
    }
}

/// One listing entry for the given collection name.
pub fn collection_description(name: String) -> (d: CollectionDescription)
    ensures
        d.name == name,
{
    CollectionDescription { name }
}

/// Relies on itertools' `collect_vec`: a plain `collect` into a vector,
/// keeping the order and length of the mapped names.
#[verifier::external_body]
fn descriptions_of_names(names: Vec<String>) -> (r: Vec<CollectionDescription>)
    ensures
        r@.len() == names@.len(),
        forall|i: int| 0 <= i < names@.len() ==> (#[trigger] r@[i]).name == names@[i],
{
    names.into_iter().map(collection_description).collect_vec()
}

/// The listing reply for the given collection names, one description per
/// name, in order.
pub fn list_collections_response(names: Vec<String>) -> (r: CollectionsResponse)
    ensures
        r.collections@.len() == names@.len(),
        forall|i: int| 0 <= i < names@.len() ==> (#[trigger] r.collections@[i]).name == names@[i],
{
    CollectionsResponse { collections: descriptions_of_names(names) }
}

/// The alias-listing reply for one collection: every listed alias paired
/// with the collection's own name.
pub fn collection_aliases_response(collection_name: &String, aliases: Vec<String>) -> (r:
    CollectionsAliasesResponse)
    ensures
        r.aliases@.len() == aliases@.len(),
        forall|i: int|
            0 <= i < aliases@.len() ==> (#[trigger] r.aliases@[i]).alias_name == aliases@[i]
                && r.aliases@[i].collection_name == *collection_name,
{
    let mut out: Vec<AliasDescription> = Vec::new();
    let mut k: usize = 0;
    while k < aliases.len()
        invariant
            k <= aliases@.len(),
            out@.len() == k,
            forall|t: int|
                0 <= t < k as int ==> (#[trigger] out@[t]).alias_name == aliases@[t]
                    && out@[t].collection_name == *collection_name,
        decreases aliases@.len() - k,
    {
        let alias_name = aliases[k].clone();
        out.push(AliasDescription { alias_name, collection_name: collection_name.clone() });
        k = k + 1;
    }
    CollectionsAliasesResponse { aliases: out }
}

/// The placeholder reply returned immediately when snapshot creation is
/// launched as detached work: an empty name and no recorded size, time or
/// checksum, since the outcome of the detached work is not observable.
pub fn placeholder_snapshot_description() -> (d: SnapshotDescription)
    ensures
        d.name@ == Seq::<char>::empty(),
        d.creation_time is None,
        d.size == 0,
        d.checksum is None,
{
    SnapshotDescription { name: String::new(), creation_time: None, size: 0, checksum: None }
}

} // verus!
