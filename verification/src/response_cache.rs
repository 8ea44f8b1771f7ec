//! The Response Cache: memoizes the final serialized API response for a
//! logical request fingerprint, invoking the supplied computation only on
//! a miss.
//!
//! Unlike the Request Cache, failures here are never cached: a computation
//! failure is typically an application-level composition problem that
//! should be retried on the next call, not pinned for a TTL window.

use vstd::prelude::*;

use crate::errors::ApiError;
use crate::store::{stored, Cache};

verus! {

/// The key a fingerprint is cached under in the Response Cache namespace.
pub open spec fn response_key_spec(key: Seq<char>) -> Seq<char> {
    "c_resp"@.add("_"@).add(key)
}

/// Builds the Response Cache key for a fingerprint.
pub fn response_key(key: &str) -> (r: String)
    ensures
        r@ == response_key_spec(key@),
{
    let r = crate::invalidation::CACHE_RESP_PREFIX.to_owned().concat("_").concat(key);
    proof {
        assert(r@ =~= response_key_spec(key@));
    }
    r
}

/// Serves a response from the cache, or computes, stores and returns it.
///
/// On a store hit the stored serialized string is returned as-is and
/// `generate` is not invoked. On a miss `generate` is invoked to produce
/// the serialized response; a success is stored under the given TTL and
/// returned, a failure is propagated and nothing is stored.
pub fn cache_response<C: Cache, F: FnOnce() -> Result<String, ApiError>>(
    cache: &mut C,
    key: &str,
    duration: usize,
    generate: F,
) -> (r: Result<String, ApiError>)
    requires
        call_requires(generate, ()),
    ensures
        old(cache).entries().contains_key(response_key_spec(key@)) ==> {
            &&& final(cache).entries() == old(cache).entries()
            &&& r matches Ok(s) && s@ == old(cache).entries()[response_key_spec(key@)].0
        },
        !old(cache).entries().contains_key(response_key_spec(key@)) ==> exists|
            o: Result<String, ApiError>,
        |
            {
                &&& #[trigger] call_ensures(generate, (), o)
                &&& r == o
                &&& final(cache).entries() == match o {
                    Ok(s) => stored(
                        old(cache).entries(),
                        response_key_spec(key@),
                        s@,
                        duration,
                    ),
                    Err(_) => old(cache).entries(),
                }
            },
{
    let cache_key = response_key(key);
    match cache.fetch(cache_key.as_str()) {
        Some(value) => Ok(value),
        None => {
            match generate() {
                Ok(resp) => {
                    cache.create(cache_key.as_str(), resp.as_str(), duration);
                    Ok(resp)
                },
                Err(e) => Err(e),
            }
        },
    }
}

} // verus!
