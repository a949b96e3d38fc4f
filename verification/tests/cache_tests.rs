//! Freshness cache behavior, with the short test TTL.

use instance_directory::cache::{InstancesCache, NegativeCache};

#[test]
fn negative_cache_hit_within_ttl() {
    let mut cache = NegativeCache::new(1);
    cache.set_cached("https://bad.example", 100);
    assert!(cache.is_cached("https://bad.example", 100));
    assert!(cache.is_cached("https://bad.example", 101));
}

#[test]
fn negative_cache_expires_and_removes() {
    let mut cache = NegativeCache::new(1);
    cache.set_cached("https://bad.example", 100);
    // past the one-second TTL: reported cold, and the entry is gone
    assert!(!cache.is_cached("https://bad.example", 102));
    assert!(!cache.is_cached("https://bad.example", 100));
}

#[test]
fn negative_cache_miss_without_write() {
    let mut cache = NegativeCache::new(1);
    assert!(!cache.is_cached("https://never.example", 5));
}

#[test]
fn negative_cache_keys_are_independent() {
    let mut cache = NegativeCache::new(1);
    cache.set_cached("https://one.example", 100);
    cache.set_cached("https://two.example", 200);
    assert!(!cache.is_cached("https://one.example", 300));
    assert!(cache.is_cached("https://two.example", 201));
}

#[test]
fn negative_cache_rewrite_refreshes() {
    let mut cache = NegativeCache::new(1);
    cache.set_cached("https://bad.example", 100);
    cache.set_cached("https://bad.example", 200);
    assert!(cache.is_cached("https://bad.example", 201));
}

#[test]
fn directory_cache_reloads_once_per_window() {
    let mut cache = InstancesCache::new();
    assert!(cache.needs_refresh(0));
    cache.refresh_succeeded(1000, Vec::new());
    // no second reload anywhere within the interval
    assert!(!cache.needs_refresh(1000));
    assert!(!cache.needs_refresh(1899));
    assert!(cache.needs_refresh(1900));
}

#[test]
fn directory_cache_failure_keeps_snapshot_and_retries_sooner() {
    let mut cache = InstancesCache::new();
    cache.refresh_succeeded(1000, Vec::new());
    let before = cache.current_listing().len();
    cache.refresh_failed(1900);
    assert_eq!(cache.current_listing().len(), before);
    assert!(!cache.needs_refresh(1959));
    assert!(cache.needs_refresh(1960));
}

#[test]
fn directory_cache_invalidation_forces_reload() {
    let mut cache = InstancesCache::new();
    cache.refresh_succeeded(1000, Vec::new());
    cache.invalidate();
    assert!(cache.needs_refresh(1001));
}
