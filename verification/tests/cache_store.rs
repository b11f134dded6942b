use yoloeats_core::cache::{
    allergens_cache_key, product_cache_keys, product_code_cache_key, product_id_cache_key,
    profile_cache_key, usable_payload, write_back, CacheAsideStore, CacheEntry, CacheReply,
    PRODUCT_TTL_SECONDS, PROFILE_TTL_SECONDS, REFERENCE_TTL_SECONDS,
};
use yoloeats_core::ids::DocumentId;

fn entry(key: &str, value: &str, ttl_seconds: u64) -> CacheEntry {
    CacheEntry { key: key.to_string(), serialized_value: value.to_string(), ttl_seconds }
}

fn keys(items: &[&str]) -> Vec<String> {
    items.iter().map(|s| s.to_string()).collect()
}

#[test]
fn cache_keys_are_derived_from_identifiers() {
    let id = DocumentId::parse_str("53E37D08776F724E42000000").unwrap();
    assert_eq!(product_id_cache_key(&id), "product:id:53e37d08776f724e42000000");
    assert_eq!(product_code_cache_key("0012345"), "product:code:0012345");
    assert_eq!(profile_cache_key("user-7"), "profile:user-7");
    assert_eq!(allergens_cache_key(), "allergens:list_v1");
    assert_eq!(
        product_cache_keys(&id, "0012345"),
        keys(&["product:id:53e37d08776f724e42000000", "product:code:0012345"])
    );
}

#[test]
fn times_to_live_are_fixed() {
    assert_eq!(PRODUCT_TTL_SECONDS, 300);
    assert_eq!(PROFILE_TTL_SECONDS, 3600);
    assert_eq!(REFERENCE_TTL_SECONDS, 86400);
}

#[test]
fn only_a_value_that_is_not_empty_is_worth_decoding() {
    assert_eq!(usable_payload(CacheReply::Value("{}".to_string())), Some("{}".to_string()));
    assert_eq!(usable_payload(CacheReply::Value(String::new())), None);
    assert_eq!(usable_payload(CacheReply::Absent), None);
    assert_eq!(usable_payload(CacheReply::Failed("connection refused".to_string())), None);
}

#[test]
fn write_back_skips_what_could_not_be_serialized() {
    let written = write_back("k".to_string(), Some("v".to_string()), 300).unwrap();
    assert_eq!(written.key, "k");
    assert_eq!(written.serialized_value, "v");
    assert_eq!(written.ttl_seconds, 300);
    assert!(write_back("k".to_string(), None, 300).is_none());
}

#[test]
fn get_twice_returns_the_same_value() {
    let mut store = CacheAsideStore::new();
    store.put(entry("product:code:1", "{\"code\":\"1\"}", 300), 1_000);
    let first = store.get("product:code:1", 1_010);
    let second = store.get("product:code:1", 1_010);
    assert_eq!(first, Some("{\"code\":\"1\"}".to_string()));
    assert_eq!(first, second);
    assert_eq!(store.get("product:code:2", 1_010), None);
    assert_eq!(store.get("product:code:2", 1_011), None);
}

#[test]
fn put_then_get_returns_the_written_value_until_it_lapses() {
    let mut store = CacheAsideStore::new();
    store.put(entry("profile:u", "old", 3600), 50);
    store.put(entry("profile:u", "new", 3600), 100);
    assert_eq!(store.get("profile:u", 100), Some("new".to_string()));
    assert_eq!(store.get("profile:u", 3_699), Some("new".to_string()));
    assert_eq!(store.get("profile:u", 3_700), None);
}

#[test]
fn empty_value_is_a_miss() {
    let mut store = CacheAsideStore::new();
    store.put(entry("k", "", 300), 0);
    assert_eq!(store.get("k", 1), None);
}

#[test]
fn expiry_saturates_at_the_end_of_time() {
    let mut store = CacheAsideStore::new();
    store.put(entry("k", "v", u64::MAX), 10);
    assert_eq!(store.get("k", u64::MAX - 1), Some("v".to_string()));
    assert_eq!(store.get("k", u64::MAX), None);
}

#[test]
fn invalidated_keys_miss() {
    let mut store = CacheAsideStore::new();
    store.put(entry("product:id:a", "A", 300), 0);
    store.put(entry("product:code:1", "A", 300), 0);
    store.put(entry("product:code:2", "B", 300), 0);
    let count = store.invalidate(&keys(&["product:id:a", "product:code:1"]), 10);
    assert_eq!(count, 2);
    assert_eq!(store.get("product:id:a", 10), None);
    assert_eq!(store.get("product:code:1", 10), None);
    assert_eq!(store.get("product:code:2", 10), Some("B".to_string()));
}

#[test]
fn invalidate_counts_each_live_key_once() {
    let mut store = CacheAsideStore::new();
    store.put(entry("a", "1", 5), 0);
    store.put(entry("b", "2", 500), 0);
    let count = store.invalidate(&keys(&["b", "b", "missing", "a"]), 100);
    assert_eq!(count, 1);
    assert_eq!(store.get("b", 100), None);
    assert_eq!(store.invalidate(&keys(&["b"]), 100), 0);
    assert_eq!(store.invalidate(&keys(&[]), 100), 0);
}
