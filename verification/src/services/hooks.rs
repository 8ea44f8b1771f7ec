//! Mapping inbound change notifications to cache invalidations.
//!
//! A webhook receiver (an external collaborator) decodes each
//! notification into a [`Payload`]; this module decides which cache
//! entries the event made stale and deletes exactly those. A per-account
//! event yields one pattern per cache namespace; the token list and the
//! contract registry are global.

use vstd::prelude::*;

use crate::invalidation::{invalidate, pattern_string, InvalidationPattern, InvalidationScope};
use crate::store::Cache;
use crate::strutil::glob_matches;

verus! {

/// The kind of change a notification reports.
#[derive(Debug, Clone, Copy, PartialEq, Eq, Structural)]
pub enum EventDetails {
    NewTransaction,
    NewTransfer,
    BalanceChange,
    SettingsChange,
    TokenListChange,
    ContractRegistryChange,
}

/// One change notification: the subject address and what changed, if the
/// notification carried a recognized kind at all.
#[derive(Debug)]
pub struct Payload {
    pub address: String,
    pub details: Option<EventDetails>,
}

/// The invalidation an event asks for in one scope.
pub open spec fn event_pattern(
    details: EventDetails,
    scope: InvalidationScope,
    address: String,
) -> InvalidationPattern {
    match details {
        EventDetails::NewTransaction => InvalidationPattern::Transactions(scope, address),
        EventDetails::NewTransfer => InvalidationPattern::Transfers(scope, address),
        EventDetails::BalanceChange => InvalidationPattern::Balances(scope, address),
        EventDetails::SettingsChange => InvalidationPattern::Any(scope, address),
        EventDetails::TokenListChange => InvalidationPattern::Tokens,
        EventDetails::ContractRegistryChange => InvalidationPattern::Contracts,
    }
}

/// The keys an event makes stale: those matched in the request-cache
/// namespace or in the response-cache namespace.
pub open spec fn stale_keys(details: EventDetails, address: String) -> Set<Seq<char>> {
    Set::new(
        |k: Seq<char>|
            glob_matches(pattern_string(event_pattern(details, InvalidationScope::Requests, address)), k)
                || glob_matches(
                pattern_string(event_pattern(details, InvalidationScope::Responses, address)),
                k,
            ),
    )
}

fn event_pattern_exec(details: &EventDetails, scope: InvalidationScope, address: &String) -> (r:
    InvalidationPattern)
    ensures
        pattern_string(r) == pattern_string(event_pattern(*details, scope, *address)),
{
    let r = match details {
        EventDetails::NewTransaction => InvalidationPattern::Transactions(scope, address.clone()),
        EventDetails::NewTransfer => InvalidationPattern::Transfers(scope, address.clone()),
        EventDetails::BalanceChange => InvalidationPattern::Balances(scope, address.clone()),
        EventDetails::SettingsChange => InvalidationPattern::Any(scope, address.clone()),
        EventDetails::TokenListChange => InvalidationPattern::Tokens,
        EventDetails::ContractRegistryChange => InvalidationPattern::Contracts,
    };
    proof {
        assert(pattern_string(r) =~= pattern_string(event_pattern(*details, scope, *address)));
    }
    r
}

/// Deletes from both caches exactly the entries the notification made
/// stale. A notification without a recognized kind touches nothing.
pub fn invalidate_caches<C: Cache>(cache: &mut C, payload: &Payload)
    ensures
        match payload.details {
            None => final(cache).entries() == old(cache).entries(),
            Some(details) => final(cache).entries() == old(cache).entries().remove_keys(
                stale_keys(details, payload.address),
            ),
        },
{
    match payload.details.as_ref() {
        None => {
        },
        Some(details) => {
            let requests = event_pattern_exec(details, InvalidationScope::Requests, &payload.address);
            let responses = event_pattern_exec(
                details,
                InvalidationScope::Responses,
                &payload.address,
            );
            invalidate(cache, &requests);
            invalidate(cache, &responses);
            proof {
                assert(cache.entries() =~= old(cache).entries().remove_keys(
                    stale_keys(*details, payload.address),
                ));
            }
        },
    }
}

} // verus!
