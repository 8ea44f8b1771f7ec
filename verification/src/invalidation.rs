//! The invalidation engine: a small pattern language that maps a domain
//! change event and a scope to a key-matching glob pattern, which is then
//! used to bulk-delete the cache entries that became stale.

use vstd::prelude::*;

use crate::store::Cache;
use crate::strutil::glob_matches;

verus! {

/// The namespace prefix of Request Cache keys.
pub const CACHE_REQS_PREFIX: &'static str = "c_reqs";

/// The namespace prefix of Response Cache keys.
pub const CACHE_RESP_PREFIX: &'static str = "c_resp";

/// The prefix that denotes both namespaces in invalidation patterns.
pub const CACHE_REQS_RESP_PREFIX: &'static str = "c_reqs_resp";

/// The fixed key under which the global token list is cached.
pub const TOKENS_KEY: &'static str = "tokens";

/// Which cache namespaces an invalidation addresses.
#[derive(Debug, Clone, Copy, PartialEq, Eq)]
pub enum InvalidationScope {
    Requests,
    Responses,
    Both,
}

/// The key prefix an invalidation scope selects.
pub open spec fn scope_prefix(scope: InvalidationScope) -> Seq<char> {
    match scope {
        InvalidationScope::Requests => "c_reqs"@,
        InvalidationScope::Responses => "c_resp"@,
        InvalidationScope::Both => "c_reqs_resp"@,
    }
}

impl InvalidationScope {
    /// The literal prefix of this scope: `Requests` selects `"c_reqs"`,
    /// `Responses` selects `"c_resp"`, and `Both` selects `"c_reqs_resp"`.
    pub fn invalidation_scope_string(&self) -> (r: &'static str)
        ensures
            r@ == scope_prefix(*self),
    {
        match self {
            InvalidationScope::Requests => "c_reqs",
            InvalidationScope::Responses => "c_resp",
            InvalidationScope::Both => "c_reqs_resp",
        }
    }
}

/// A domain change event, scoped to the affected address where the
/// resource is addressed per account. `Tokens` and `Contracts` are global
/// and scope-less.
#[derive(Debug, Clone, PartialEq, Eq)]
pub enum InvalidationPattern {
    Any(InvalidationScope, String),
    Transactions(InvalidationScope, String),
    Transfers(InvalidationScope, String),
    Balances(InvalidationScope, String),
    Collectibles(InvalidationScope, String),
    Tokens,
    Contracts,
}

/// The glob pattern an invalidation event maps to. `Tokens` always yields
/// the fixed global token-list key, whatever else the event carries, and
/// `Contracts` always yields `"*contract*"`.
pub open spec fn pattern_string(p: InvalidationPattern) -> Seq<char> {
    match p {
        InvalidationPattern::Any(scope, addr) => scope_prefix(scope).add("*"@).add(addr@).add(
            "*"@,
        ),
        InvalidationPattern::Transactions(scope, addr) => scope_prefix(scope).add("*/"@).add(
            addr@,
        ).add("/*transactions/*"@),
        InvalidationPattern::Transfers(scope, addr) => scope_prefix(scope).add("*/"@).add(
            addr@,
        ).add("/*transfer*"@),
        InvalidationPattern::Balances(scope, addr) => scope_prefix(scope).add("*/"@).add(
            addr@,
        ).add("/balances*"@),
        InvalidationPattern::Collectibles(scope, addr) => scope_prefix(scope).add("*/"@).add(
            addr@,
        ).add("/collectibles*"@),
        InvalidationPattern::Tokens => "tokens"@,
        InvalidationPattern::Contracts => "*contract*"@,
    }
}

impl InvalidationPattern {
    /// Renders the event as the glob pattern to delete by.
    pub fn to_pattern_string(&self) -> (r: String)
        ensures
            r@ == pattern_string(*self),
    {
        match self {
            InvalidationPattern::Any(scope, addr) => {
                let r = scope.invalidation_scope_string().to_owned().concat("*").concat(
                    addr.as_str(),
                ).concat("*");
                proof {
                    assert(r@ =~= pattern_string(*self));
                }
                r
            },
            InvalidationPattern::Transactions(scope, addr) => {
                let r = scope.invalidation_scope_string().to_owned().concat("*/").concat(
                    addr.as_str(),
                ).concat("/*transactions/*");
                proof {
                    assert(r@ =~= pattern_string(*self));
                }
                r
            },
            InvalidationPattern::Transfers(scope, addr) => {
                let r = scope.invalidation_scope_string().to_owned().concat("*/").concat(
                    addr.as_str(),
                ).concat("/*transfer*");
                proof {
                    assert(r@ =~= pattern_string(*self));
                }
                r
            },
            InvalidationPattern::Balances(scope, addr) => {
                let r = scope.invalidation_scope_string().to_owned().concat("*/").concat(
                    addr.as_str(),
                ).concat("/balances*");
                proof {
                    assert(r@ =~= pattern_string(*self));
                }
                r
            },
            InvalidationPattern::Collectibles(scope, addr) => {
                let r = scope.invalidation_scope_string().to_owned().concat("*/").concat(
                    addr.as_str(),
                ).concat("/collectibles*");
                proof {
                    assert(r@ =~= pattern_string(*self));
                }
                r
            },
            InvalidationPattern::Tokens => TOKENS_KEY.to_owned(),
            InvalidationPattern::Contracts => "*contract*".to_owned(),
        }
    }
}

/// Deletes from the store every key that the event's pattern matches.
pub fn invalidate<C: Cache>(cache: &mut C, pattern: &InvalidationPattern)
    ensures
        final(cache).entries() == old(cache).entries().remove_keys(
            Set::new(|k: Seq<char>| glob_matches(pattern_string(*pattern), k)),
        ),
{
    let p = pattern.to_pattern_string();
    cache.invalidate_pattern(p.as_str());
}

} // verus!
