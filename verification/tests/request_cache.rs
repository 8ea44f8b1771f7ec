use safe_gateway::errors::ApiError;
use safe_gateway::request_cache::{request_cached, request_key, UpstreamOutcome};
use safe_gateway::store::{Cache, InMemoryCache};

fn response(status: u16, body: &str) -> UpstreamOutcome {
    UpstreamOutcome::Response {
        status,
        body: body.to_string(),
    }
}

#[test]
fn success_is_cached_and_served_from_cache() {
    let mut cache = InMemoryCache::new();
    let mut calls = 0;
    let first = request_cached(&mut cache, "/v1/data", 60, 10, false, 0, |_t| {
        calls += 1;
        response(200, "payload")
    });
    assert_eq!(first, Ok("payload".to_string()));
    assert_eq!(calls, 1);
    assert_eq!(
        cache.fetch(&request_key("/v1/data")),
        Some("200payload".to_string())
    );

    let mut second_calls = 0;
    let second = request_cached(&mut cache, "/v1/data", 60, 10, false, 0, |_t| {
        second_calls += 1;
        response(200, "fresh payload")
    });
    assert_eq!(second, Ok("payload".to_string()));
    assert_eq!(second_calls, 0, "a hit must not consult the upstream");
}

#[test]
fn client_error_is_cached_and_replayed() {
    let mut cache = InMemoryCache::new();
    let first = request_cached(&mut cache, "/v1/missing", 60, 10, false, 0, |_t| {
        response(404, "not found")
    });
    assert_eq!(
        first,
        Err(ApiError::Upstream {
            status: 404,
            body: "not found".to_string()
        })
    );
    assert_eq!(
        cache.fetch(&request_key("/v1/missing")),
        Some("404not found".to_string())
    );

    let mut retries = 0;
    let second = request_cached(&mut cache, "/v1/missing", 60, 10, false, 0, |_t| {
        retries += 1;
        response(200, "it came back")
    });
    assert_eq!(
        second,
        Err(ApiError::Upstream {
            status: 404,
            body: "not found".to_string()
        })
    );
    assert_eq!(retries, 0, "the cached error must shield the upstream");
}

#[test]
fn server_error_is_not_cached_without_the_policy() {
    let mut cache = InMemoryCache::new();
    let first = request_cached(&mut cache, "/v1/busy", 60, 10, false, 0, |_t| {
        response(503, "overloaded")
    });
    assert_eq!(
        first,
        Err(ApiError::Upstream {
            status: 503,
            body: "overloaded".to_string()
        })
    );
    assert_eq!(cache.fetch(&request_key("/v1/busy")), None);

    let mut retries = 0;
    let second = request_cached(&mut cache, "/v1/busy", 60, 10, false, 0, |_t| {
        retries += 1;
        response(503, "still overloaded")
    });
    assert_eq!(
        second,
        Err(ApiError::Upstream {
            status: 503,
            body: "still overloaded".to_string()
        })
    );
    assert_eq!(retries, 1, "every retry must reach the upstream");
}

#[test]
fn server_error_is_cached_under_cache_all_errors() {
    let mut cache = InMemoryCache::new();
    let first = request_cached(&mut cache, "/v1/busy", 60, 10, true, 0, |_t| {
        response(500, "boom")
    });
    assert_eq!(
        first,
        Err(ApiError::Upstream {
            status: 500,
            body: "boom".to_string()
        })
    );
    assert_eq!(
        cache.fetch(&request_key("/v1/busy")),
        Some("500boom".to_string())
    );
}

#[test]
fn transport_failure_propagates_uncached_by_default() {
    let mut cache = InMemoryCache::new();
    let r = request_cached(&mut cache, "/v1/slow", 60, 10, false, 250, |_t| {
        UpstreamOutcome::TransportFailure {
            details: "connection timed out".to_string(),
        }
    });
    assert_eq!(
        r,
        Err(ApiError::Transport {
            details: "connection timed out".to_string()
        })
    );
    assert_eq!(cache.fetch(&request_key("/v1/slow")), None);
}

#[test]
fn transport_failure_is_cached_as_synthetic_500_under_policy() {
    let mut cache = InMemoryCache::new();
    let r = request_cached(&mut cache, "/v1/slow", 60, 10, true, 250, |_t| {
        UpstreamOutcome::TransportFailure {
            details: "connection refused".to_string(),
        }
    });
    assert_eq!(
        r,
        Err(ApiError::Transport {
            details: "connection refused".to_string()
        })
    );
    assert_eq!(
        cache.fetch(&request_key("/v1/slow")),
        Some("500connection refused".to_string())
    );
}

#[test]
fn request_timeout_is_handed_to_the_upstream_call() {
    let mut cache = InMemoryCache::new();
    let mut seen = 0;
    let _ = request_cached(&mut cache, "/v1/data", 60, 10, false, 1234, |t| {
        seen = t;
        response(200, "ok")
    });
    assert_eq!(seen, 1234);
}

#[test]
fn zero_ttl_skips_the_write() {
    let mut cache = InMemoryCache::new();
    let r = request_cached(&mut cache, "/v1/data", 0, 10, false, 0, |_t| {
        response(200, "uncacheable")
    });
    assert_eq!(r, Ok("uncacheable".to_string()));
    assert_eq!(cache.fetch(&request_key("/v1/data")), None);
}
