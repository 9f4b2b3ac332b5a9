//! The metadata-program record store, run on concrete values.

use simplespl::address::Address;
use simplespl::metadata_program::{CreatorEntry, MetadataRecord, MetadataStore};

fn record(uri: &str) -> MetadataRecord {
    MetadataRecord {
        name: String::from("Token"),
        symbol: String::from("TKN"),
        uri: String::from(uri),
        seller_fee_basis_points: 500,
        creator: Some(CreatorEntry { address: Address::new([9; 32]), verified: true, share: 100 }),
    }
}

#[test]
fn storing_twice_keeps_the_second_record() {
    let key = Address::new([1; 32]);
    let mut store = MetadataStore::new();
    store.apply_create_or_update(&key, record("https://example.com/a.json"));
    store.apply_create_or_update(&key, record("https://example.com/b.json"));
    let held = store.record_of(&key).unwrap();
    assert_eq!(held.uri, "https://example.com/b.json");
}

#[test]
fn storing_under_one_key_leaves_others_alone() {
    let key_a = Address::new([1; 32]);
    let key_b = Address::new([2; 32]);
    let mut store = MetadataStore::new();
    store.apply_create_or_update(&key_a, record("https://example.com/a.json"));
    store.apply_create_or_update(&key_b, record("https://example.com/b.json"));
    store.apply_create_or_update(&key_a, record("https://example.com/c.json"));
    assert_eq!(store.record_of(&key_a).unwrap().uri, "https://example.com/c.json");
    assert_eq!(store.record_of(&key_b).unwrap().uri, "https://example.com/b.json");
    assert!(store.record_of(&Address::new([3; 32])).is_none());
}
