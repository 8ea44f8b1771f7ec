use safe_gateway::errors::ApiError;
use safe_gateway::response_cache::{cache_response, response_key};
use safe_gateway::store::{Cache, InMemoryCache};

#[test]
fn miss_computes_stores_and_returns() {
    let mut cache = InMemoryCache::new();
    let mut computed = 0;
    let r = cache_response(&mut cache, "balances/0xabc", 60, || {
        computed += 1;
        Ok("{\"balance\":\"7\"}".to_string())
    });
    assert_eq!(r, Ok("{\"balance\":\"7\"}".to_string()));
    assert_eq!(computed, 1);
    assert_eq!(
        cache.fetch(&response_key("balances/0xabc")),
        Some("{\"balance\":\"7\"}".to_string())
    );
}

#[test]
fn hit_returns_stored_value_without_computing() {
    let mut cache = InMemoryCache::new();
    let _ = cache_response(&mut cache, "balances/0xabc", 60, || {
        Ok("first answer".to_string())
    });

    let mut computed = 0;
    let r = cache_response(&mut cache, "balances/0xabc", 60, || {
        computed += 1;
        Ok("second answer".to_string())
    });
    assert_eq!(r, Ok("first answer".to_string()));
    assert_eq!(computed, 0, "the computation must stay lazy on a hit");
}

#[test]
fn failure_propagates_and_is_not_cached() {
    let mut cache = InMemoryCache::new();
    let r = cache_response(&mut cache, "balances/0xabc", 60, || {
        Err(ApiError::Computation {
            details: "missing data dependency".to_string(),
        })
    });
    assert_eq!(
        r,
        Err(ApiError::Computation {
            details: "missing data dependency".to_string()
        })
    );
    assert_eq!(cache.fetch(&response_key("balances/0xabc")), None);

    let retry = cache_response(&mut cache, "balances/0xabc", 60, || {
        Ok("recovered".to_string())
    });
    assert_eq!(retry, Ok("recovered".to_string()));
}

#[test]
fn zero_ttl_returns_but_does_not_store() {
    let mut cache = InMemoryCache::new();
    let r = cache_response(&mut cache, "volatile", 0, || Ok("now".to_string()));
    assert_eq!(r, Ok("now".to_string()));
    assert_eq!(cache.fetch(&response_key("volatile")), None);
}
