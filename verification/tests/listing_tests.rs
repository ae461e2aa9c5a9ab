use shard_control::listing::{
    collection_aliases_response, collection_exists_outcome, list_collections_response,
    placeholder_snapshot_description, shard_selector, CollectionExists, ShardSelector,
};
use shard_control::types::StorageErrorKind;

#[test]
fn lookup_success_means_the_collection_exists() {
    let r = collection_exists_outcome(Ok(()));
    assert_eq!(r, Ok(CollectionExists { exists: true }));
}

#[test]
fn lookup_not_found_is_a_valid_negative_answer() {
    let r = collection_exists_outcome(Err(StorageErrorKind::NotFound));
    assert_eq!(r, Ok(CollectionExists { exists: false }));
}

#[test]
fn other_lookup_failures_propagate_unchanged() {
    for kind in [
        StorageErrorKind::BadRequest,
        StorageErrorKind::Timeout,
        StorageErrorKind::Internal,
    ] {
        let r = collection_exists_outcome(Err(kind));
        assert_eq!(r, Err(kind));
    }
}

#[test]
fn shard_selector_cases() {
    assert_eq!(shard_selector(None), ShardSelector::All);
    assert_eq!(shard_selector(Some(4)), ShardSelector::OneShard(4));
}

#[test]
fn list_collections_response_keeps_names_in_order() {
    let names = vec!["alpha".to_owned(), "beta".to_owned(), "gamma".to_owned()];
    let r = list_collections_response(names);
    let listed: Vec<&str> = r.collections.iter().map(|d| d.name.as_str()).collect();
    assert_eq!(listed, vec!["alpha", "beta", "gamma"]);
}

#[test]
fn collection_aliases_response_pairs_every_alias_with_the_collection() {
    let collection = "books".to_owned();
    let r = collection_aliases_response(&collection, vec!["a1".to_owned(), "a2".to_owned()]);
    assert_eq!(r.aliases.len(), 2);
    assert_eq!(r.aliases[0].alias_name, "a1");
    assert_eq!(r.aliases[1].alias_name, "a2");
    for alias in &r.aliases {
        assert_eq!(alias.collection_name, "books");
    }
}

#[test]
fn placeholder_snapshot_description_is_empty() {
    let d = placeholder_snapshot_description();
    assert_eq!(d.name, "");
    assert_eq!(d.creation_time, None);
    assert_eq!(d.size, 0);
    assert_eq!(d.checksum, None);
}
