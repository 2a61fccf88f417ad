use rathenafr_bot::flows::{cache_step, CacheStep};
use std::collections::HashMap;

/// Runs one cached request the way the command handlers do, with a counter as the
/// data source.
fn cached_request(
    ttl_secs: Option<u64>,
    key: &String,
    cache: &mut HashMap<String, usize>,
    calls: &mut usize,
) -> usize {
    match cache_step(ttl_secs, cache.get(key).copied()) {
        CacheStep::FetchUncached => {
            *calls += 1;
            *calls
        }
        CacheStep::Hit(value) => value,
        CacheStep::FetchAndStore(_ttl) => {
            *calls += 1;
            cache.insert(key.clone(), *calls);
            *calls
        }
    }
}

#[test]
fn dispatcher_cached_data_reuses_value_before_expiration() {
    let mut cache: HashMap<String, usize> = HashMap::new();
    let mut calls = 0usize;
    let key = "status".to_string();

    let first = cached_request(Some(1), &key, &mut cache, &mut calls);
    let second = cached_request(Some(1), &key, &mut cache, &mut calls);

    assert_eq!(first, 1);
    assert_eq!(second, 1);
    assert_eq!(calls, 1);
}

#[test]
fn dispatcher_cached_data_fetches_again_when_disabled() {
    let mut cache: HashMap<String, usize> = HashMap::new();
    let mut calls = 0usize;
    let key = "key".to_string();

    let first = cached_request(None, &key, &mut cache, &mut calls);
    let second = cached_request(None, &key, &mut cache, &mut calls);

    assert_eq!(first, 1);
    assert_eq!(second, 2);
    assert_eq!(cache.get(&key), None);
}

#[test]
fn tests_cached_data_reuses_value_before_expiration() {
    let mut cache: HashMap<String, usize> = HashMap::new();
    let mut calls = 0usize;
    let key = "status".to_string();

    let first = cached_request(Some(1), &key, &mut cache, &mut calls);
    let second = cached_request(Some(1), &key, &mut cache, &mut calls);

    assert_eq!(first, 1);
    assert_eq!(second, 1);
    assert_eq!(calls, 1);
}

#[test]
fn tests_cached_data_fetches_again_when_disabled() {
    let mut cache: HashMap<String, usize> = HashMap::new();
    let mut calls = 0usize;
    let key = "key".to_string();

    let first = cached_request(None, &key, &mut cache, &mut calls);
    let second = cached_request(None, &key, &mut cache, &mut calls);

    assert_eq!(first, 1);
    assert_eq!(second, 2);
    assert_eq!(cache.get(&key), None);
}
