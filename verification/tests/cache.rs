use keyvault_tui::cache::{SecretListCache, SecretValueCache, Store, StoreKey};
use keyvault_tui::model::VaultCacheEntry;

fn entry(names: &[&str], at: u64) -> VaultCacheEntry {
    VaultCacheEntry { secrets: names.iter().map(|s| s.to_string()).collect(), refreshed_at: at }
}

#[test]
fn new_store_is_empty() {
    let cache: SecretListCache = Store::new();
    assert_eq!(cache.len(), 0);
    assert!(!cache.contains_key(&"v1".to_string()));
    assert!(cache.get(&"v1".to_string()).is_none());
}

#[test]
fn insert_then_get_returns_the_value() {
    let mut cache: SecretListCache = Store::new();
    cache.insert("v1".to_string(), entry(&["a", "b"], 10));
    cache.insert("v2".to_string(), entry(&["c"], 20));
    assert_eq!(cache.len(), 2);
    assert_eq!(cache.get(&"v1".to_string()), Some(&entry(&["a", "b"], 10)));
    assert_eq!(cache.get(&"v2".to_string()), Some(&entry(&["c"], 20)));
    assert!(cache.get(&"v3".to_string()).is_none());
}

#[test]
fn insert_overwrites_and_never_merges() {
    let mut cache: SecretListCache = Store::new();
    cache.insert("v1".to_string(), entry(&["a", "b"], 10));
    cache.insert("v1".to_string(), entry(&["c"], 30));
    assert_eq!(cache.len(), 1);
    assert_eq!(cache.get(&"v1".to_string()), Some(&entry(&["c"], 30)));
}

#[test]
fn value_cache_is_keyed_by_vault_and_secret() {
    let mut cache: SecretValueCache = Store::new();
    let key = |v: &str, s: &str| (v.to_string(), s.to_string());
    cache.insert(key("v1", "s"), "one".to_string());
    cache.insert(key("v2", "s"), "two".to_string());
    cache.insert(key("v1", "t"), "three".to_string());
    assert_eq!(cache.len(), 3);
    assert_eq!(cache.get(&key("v1", "s")), Some(&"one".to_string()));
    assert_eq!(cache.get(&key("v2", "s")), Some(&"two".to_string()));
    assert_eq!(cache.get(&key("v1", "t")), Some(&"three".to_string()));
    assert!(cache.get(&key("v2", "t")).is_none());
    assert!(cache.contains_key(&key("v1", "s")));
    assert!(!cache.contains_key(&key("s", "v1")));
}

#[test]
fn keys_are_the_same_when_their_text_is() {
    assert!("a".to_string().same(&"a".to_string()));
    assert!(!"a".to_string().same(&"b".to_string()));
    let pair = |a: &str, b: &str| (a.to_string(), b.to_string());
    assert!(pair("a", "b").same(&pair("a", "b")));
    assert!(!pair("a", "b").same(&pair("a", "c")));
    assert!(!pair("a", "b").same(&pair("c", "b")));
}
