//! The Request Cache: deduplicates outbound calls to the upstream service
//! keyed by URL, storing the status-tagged value, with differentiated TTLs
//! for success and error outcomes and a configurable policy on which error
//! classes are cached at all.

use vstd::prelude::*;

use crate::codec::{encode, encode_spec, to_result, to_result_rel, MAX_STATUS, MIN_STATUS};
use crate::errors::{is_transport_err, is_upstream_err, ApiError};
use crate::store::{stored, Cache};

verus! {

/// What came back from one attempt against the upstream service: either a
/// transport failure raised before any status was known (a connection or
/// timeout error, with its diagnostic details), or a response with its
/// HTTP status and body.
pub enum UpstreamOutcome {
    TransportFailure { details: String },
    Response { status: u16, body: String },
}

impl UpstreamOutcome {
    /// Any status an upstream response reports lies in `[100, 599]`.
    pub open spec fn wf(&self) -> bool {
        match self {
            UpstreamOutcome::TransportFailure { .. } => true,
            UpstreamOutcome::Response { status, .. } => MIN_STATUS <= *status <= MAX_STATUS,
        }
    }
}

/// The key a URL is cached under in the Request Cache namespace.
pub open spec fn request_key_spec(url: Seq<char>) -> Seq<char> {
    "c_reqs"@.add("_"@).add(url)
}

/// Builds the Request Cache key for a URL.
pub fn request_key(url: &str) -> (r: String)
    ensures
        r@ == request_key_spec(url@),
{
    let r = crate::invalidation::CACHE_REQS_PREFIX.to_owned().concat("_").concat(url);
    proof {
        assert(r@ =~= request_key_spec(url@));
    }
    r
}

/// What one Request Cache miss does, given the upstream outcome: which row
/// the store gains and what the caller is handed.
///
/// A transport failure is cached as a synthetic 500 under the error TTL
/// only when `cache_all_errors` is set, and propagated either way. A
/// server error (status 500 and above) is returned uncached unless
/// `cache_all_errors` is set. A client error (400-499) is always cached
/// under the error TTL. A success (below 400) is cached under the success
/// TTL and its body returned.
pub open spec fn request_miss_post(
    outcome: UpstreamOutcome,
    m0: Map<Seq<char>, (Seq<char>, usize)>,
    m1: Map<Seq<char>, (Seq<char>, usize)>,
    key: Seq<char>,
    cache_duration: usize,
    error_cache_duration: usize,
    cache_all_errors: bool,
    r: Result<String, ApiError>,
) -> bool {
    match outcome {
        UpstreamOutcome::TransportFailure { details } => {
            &&& is_transport_err(r, details@)
            &&& m1 == if cache_all_errors {
                stored(m0, key, encode_spec(500, details@), error_cache_duration)
            } else {
                m0
            }
        },
        UpstreamOutcome::Response { status, body } => {
            if status >= 500 && !cache_all_errors {
                m1 == m0 && is_upstream_err(r, status, body@)
            } else if status >= 400 {
                &&& m1 == stored(m0, key, encode_spec(status, body@), error_cache_duration)
                &&& is_upstream_err(r, status, body@)
            } else {
                &&& m1 == stored(m0, key, encode_spec(status, body@), cache_duration)
                &&& r matches Ok(s) && s@ == body@
            }
        },
    }
}

/// Fetches a URL through the Request Cache.
///
/// On a store hit the cached status-tagged row decides the result and the
/// upstream service is not consulted. On a miss the upstream call is made
/// through `upstream`, which receives the request timeout in milliseconds
/// (zero meaning unbounded); the outcome is cached and propagated per the
/// miss policy above.
pub fn request_cached<C: Cache, F: FnOnce(u64) -> UpstreamOutcome>(
    cache: &mut C,
    url: &str,
    cache_duration: usize,
    error_cache_duration: usize,
    cache_all_errors: bool,
    request_timeout: u64,
    upstream: F,
) -> (r: Result<String, ApiError>)
    requires
        call_requires(upstream, (request_timeout,)),
        forall|o: UpstreamOutcome| call_ensures(upstream, (request_timeout,), o) ==> o.wf(),
    ensures
        old(cache).entries().contains_key(request_key_spec(url@)) ==> {
            &&& final(cache).entries() == old(cache).entries()
            &&& to_result_rel(old(cache).entries()[request_key_spec(url@)].0, r)
        },
        !old(cache).entries().contains_key(request_key_spec(url@)) ==> exists|o: UpstreamOutcome|
            {
                &&& #[trigger] call_ensures(upstream, (request_timeout,), o)
                &&& request_miss_post(
                    o,
                    old(cache).entries(),
                    final(cache).entries(),
                    request_key_spec(url@),
                    cache_duration,
                    error_cache_duration,
                    cache_all_errors,
                    r,
                )
            },
{
    let cache_key = request_key(url);
    match cache.fetch(cache_key.as_str()) {
        Some(cached) => to_result(cached.as_str()),
        None => {
            let outcome = upstream(request_timeout);
            proof {
                assert(outcome.wf());
            }
            match outcome {
                UpstreamOutcome::TransportFailure { details } => {
                    if cache_all_errors {
                        let row = encode(500, details.as_str());
                        cache.create(cache_key.as_str(), row.as_str(), error_cache_duration);
                    }
                    Err(ApiError::Transport { details })
                },
                UpstreamOutcome::Response { status, body } => {
                    if status >= 500 && !cache_all_errors {
                        Err(ApiError::Upstream { status, body })
                    } else if status >= 400 {
                        let row = encode(status, body.as_str());
                        cache.create(cache_key.as_str(), row.as_str(), error_cache_duration);
                        Err(ApiError::Upstream { status, body })
                    } else {
                        let row = encode(status, body.as_str());
                        cache.create(cache_key.as_str(), row.as_str(), cache_duration);
                        Ok(body)
                    }
                },
            }
        },
    }
}

} // verus!
