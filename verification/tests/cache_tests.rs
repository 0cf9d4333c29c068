use postgres_oidc_proxy::keyset::{KeyRecord, KeySet, KeySetCache};

fn record(kid: &str) -> KeyRecord {
    KeyRecord {
        kty: "RSA".to_string(),
        kid: Some(kid.to_string()),
        key_use: None,
        alg: None,
        n: Some("AQAB".to_string()),
        e: Some("AQAB".to_string()),
        crv: None,
        x: None,
        y: None,
    }
}

#[test]
fn test_cache_initially_empty() {
    let cache = KeySetCache::new(3600);
    assert!(cache.get(0).is_none());
    assert!(cache.get(1_000_000).is_none());
}

#[test]
fn test_cache_hit_within_ttl() {
    // Once a snapshot is stored, every lookup less than TTL later is a hit,
    // so no second fetch can start within that window.
    let mut cache = KeySetCache::new(3600);
    let mut ks = KeySet::new();
    assert!(ks.push_key(record("k1")));
    cache.store(ks, 1000);

    assert!(cache.get(1000).is_some());
    assert!(cache.get(1000 + 3599).is_some());
    let hit = cache.get(2000).unwrap();
    assert!(hit.contains_kid("k1"));
}

#[test]
fn test_cache_miss_after_ttl() {
    let mut cache = KeySetCache::new(3600);
    let ks = KeySet::new();
    cache.store(ks, 1000);
    assert!(cache.get(1000 + 3600).is_none());
    assert!(cache.get(1000 + 7200).is_none());
}

#[test]
fn test_keyset_rejects_duplicate_kid() {
    let mut ks = KeySet::new();
    assert!(ks.push_key(record("k1")));
    assert!(!ks.push_key(record("k1")));
    assert!(ks.push_key(record("k2")));
    assert_eq!(ks.len(), 2);
    assert!(ks.contains_kid("k1"));
    assert!(ks.contains_kid("k2"));
    assert!(!ks.contains_kid("k3"));
}
