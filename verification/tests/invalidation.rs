use safe_gateway::invalidation::{invalidate, InvalidationPattern, InvalidationScope, TOKENS_KEY};
use safe_gateway::services::hooks::{invalidate_caches, EventDetails, Payload};
use safe_gateway::store::{Cache, InMemoryCache};
use safe_gateway::strutil::glob_match;

fn seeded_cache() -> InMemoryCache {
    let mut cache = InMemoryCache::new();
    cache.create(
        "c_reqs_/v1/safes/0xAAA/transactions/?limit=20",
        "200txs",
        60,
    );
    cache.create("c_resp_/v1/safes/0xAAA/balances/usd", "{}", 60);
    cache.create("c_reqs_/v1/safes/0xBBB/transfers/", "200transfers", 60);
    cache.create(TOKENS_KEY, "token list", 60);
    cache
}

#[test]
fn any_pattern_removes_the_scoped_namespace_for_the_address() {
    let mut cache = seeded_cache();
    invalidate(
        &mut cache,
        &InvalidationPattern::Any(InvalidationScope::Requests, "0xAAA".to_string()),
    );
    assert_eq!(
        cache.fetch("c_reqs_/v1/safes/0xAAA/transactions/?limit=20"),
        None
    );
    assert_eq!(
        cache.fetch("c_resp_/v1/safes/0xAAA/balances/usd"),
        Some("{}".to_string())
    );
    assert_eq!(
        cache.fetch("c_reqs_/v1/safes/0xBBB/transfers/"),
        Some("200transfers".to_string())
    );

    invalidate(
        &mut cache,
        &InvalidationPattern::Any(InvalidationScope::Responses, "0xAAA".to_string()),
    );
    assert_eq!(cache.fetch("c_resp_/v1/safes/0xAAA/balances/usd"), None);
    assert_eq!(cache.fetch(TOKENS_KEY), Some("token list".to_string()));
}

#[test]
fn transactions_pattern_is_scoped_to_one_address() {
    let mut cache = seeded_cache();
    invalidate(
        &mut cache,
        &InvalidationPattern::Transactions(InvalidationScope::Requests, "0xAAA".to_string()),
    );
    assert_eq!(
        cache.fetch("c_reqs_/v1/safes/0xAAA/transactions/?limit=20"),
        None
    );
    assert_eq!(
        cache.fetch("c_resp_/v1/safes/0xAAA/balances/usd"),
        Some("{}".to_string())
    );
}

#[test]
fn tokens_pattern_removes_exactly_the_token_list_key() {
    let mut cache = seeded_cache();
    invalidate(&mut cache, &InvalidationPattern::Tokens);
    assert_eq!(cache.fetch(TOKENS_KEY), None);
    assert_eq!(
        cache.fetch("c_reqs_/v1/safes/0xBBB/transfers/"),
        Some("200transfers".to_string())
    );
}

#[test]
fn single_key_invalidation_removes_only_that_key() {
    let mut cache = seeded_cache();
    cache.invalidate("c_resp_/v1/safes/0xAAA/balances/usd");
    assert_eq!(cache.fetch("c_resp_/v1/safes/0xAAA/balances/usd"), None);
    assert_eq!(
        cache.fetch("c_reqs_/v1/safes/0xAAA/transactions/?limit=20"),
        Some("200txs".to_string())
    );
    cache.invalidate("absent key is no error");
}

#[test]
fn invalidate_with_empty_payload() {
    let payload = Payload {
        address: "0x1230B3d59858296A31053C1b8562Ecf89A2f888b".to_string(),
        details: None,
    };

    let mut cache = seeded_cache();

    invalidate_caches(&mut cache, &payload);

    assert_eq!(
        cache.fetch("c_reqs_/v1/safes/0xAAA/transactions/?limit=20"),
        Some("200txs".to_string())
    );
    assert_eq!(
        cache.fetch("c_resp_/v1/safes/0xAAA/balances/usd"),
        Some("{}".to_string())
    );
    assert_eq!(cache.fetch(TOKENS_KEY), Some("token list".to_string()));
}

#[test]
fn transfer_event_invalidates_both_namespaces() {
    let mut cache = InMemoryCache::new();
    cache.create("c_reqs_/v1/safes/0xAAA/transfers/", "200t", 60);
    cache.create("c_resp_/v1/safes/0xAAA/incoming-transfers/", "{}", 60);
    cache.create("c_reqs_/v1/safes/0xAAA/balances/usd", "200b", 60);

    let payload = Payload {
        address: "0xAAA".to_string(),
        details: Some(EventDetails::NewTransfer),
    };
    invalidate_caches(&mut cache, &payload);

    assert_eq!(cache.fetch("c_reqs_/v1/safes/0xAAA/transfers/"), None);
    assert_eq!(cache.fetch("c_resp_/v1/safes/0xAAA/incoming-transfers/"), None);
    assert_eq!(
        cache.fetch("c_reqs_/v1/safes/0xAAA/balances/usd"),
        Some("200b".to_string())
    );
}

#[test]
fn token_list_event_removes_the_global_key() {
    let mut cache = seeded_cache();
    let payload = Payload {
        address: "ignored".to_string(),
        details: Some(EventDetails::TokenListChange),
    };
    invalidate_caches(&mut cache, &payload);
    assert_eq!(cache.fetch(TOKENS_KEY), None);
}

#[test]
fn glob_star_matches_any_run() {
    assert!(glob_match("c_reqs*0xAAA*", "c_reqs_/v1/safes/0xAAA/x"));
    assert!(glob_match("*contract*", "a contract registry row"));
    assert!(glob_match("*", ""));
    assert!(glob_match("a*b*c", "a-long-b-run-c"));
    assert!(!glob_match("a*b*c", "a-long-b-run-d"));
    assert!(!glob_match("c_reqs*0xAAA*", "c_resp_/v1/safes/0xBBB/x"));
    assert!(glob_match("tokens", "tokens"));
    assert!(!glob_match("tokens", "tokens2"));
}
