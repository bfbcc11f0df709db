use course_catalog::token_cache::{get_token_cache, TokenCache};

#[test]
fn empty_cache_asks_for_a_token() {
    let cache = TokenCache::new();
    assert_eq!(get_token_cache(&cache, 1000), None);
}

#[test]
fn hour_token_cached_for_3300_seconds() {
    let mut cache = TokenCache::new();
    let expiry = cache.store_token("tok".to_string(), 1000, 3600);
    assert_eq!(expiry, 4300);
    assert_eq!(get_token_cache(&cache, 1000), Some("tok".to_string()));
    assert_eq!(get_token_cache(&cache, 3999), Some("tok".to_string()));
    assert_eq!(get_token_cache(&cache, 4000), None);
    assert_eq!(get_token_cache(&cache, 5000), None);
}

#[test]
fn new_token_replaces_old() {
    let mut cache = TokenCache::new();
    cache.store_token("old".to_string(), 0, 3600);
    cache.store_token("new".to_string(), 4000, 3600);
    assert_eq!(get_token_cache(&cache, 4001), Some("new".to_string()));
}
