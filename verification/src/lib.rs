//! Verified core of a caching gateway that fronts a transaction-indexing
//! service: a status-tagged value codec, a cache-store contract with an
//! in-memory reference store, request/response memoization, and a pattern
//! language for cache invalidation, together with the converters that shape
//! backend payloads for clients.

pub mod codec;
pub mod converters;
pub mod errors;
pub mod invalidation;
pub mod models;
pub mod providers;
pub mod request_cache;
pub mod response_cache;
pub mod services;
pub mod store;
pub mod string_map;
pub mod strutil;
