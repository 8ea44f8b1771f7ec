//! The cache-store contract and an in-memory reference store.
//!
//! The store is a minimal key/value abstraction with TTL-bound writes,
//! point lookup, single-key delete, and glob-pattern bulk delete. A
//! production deployment backs it with a networked cache service; the
//! in-memory store here implements the same contract exactly and serves
//! as the reference semantics (and as the store used by tests).

use vstd::prelude::*;

use crate::string_map::StringMap;
use crate::strutil::glob_matches;

verus! {

/// One cache row: the stored string and the TTL, in seconds, that the
/// write asked for.
pub struct CacheSlot {
    pub value: String,
    pub ttl: usize,
}

impl View for CacheSlot {
    type V = (Seq<char>, usize);

    open spec fn view(&self) -> (Seq<char>, usize) {
        (self.value@, self.ttl)
    }
}

/// The state of a store after a TTL-bound write: a TTL of zero is the "do
/// not cache" sentinel and the write is skipped; otherwise the row is
/// overwritten atomically with its TTL.
pub open spec fn stored(
    m: Map<Seq<char>, (Seq<char>, usize)>,
    key: Seq<char>,
    value: Seq<char>,
    ttl: usize,
) -> Map<Seq<char>, (Seq<char>, usize)> {
    if ttl == 0 {
        m
    } else {
        m.insert(key, (value, ttl))
    }
}

/// The cache-store abstraction. Absence is a normal outcome represented in
/// the return type, never a failure, and no operation panics on a miss.
pub trait Cache: Sized {
    /// The rows the store holds: each key maps to its value and the TTL it
    /// was written with.
    spec fn entries(&self) -> Map<Seq<char>, (Seq<char>, usize)>;

    /// Point lookup.
    fn fetch(&self, id: &str) -> (r: Option<String>)
        ensures
            match r {
                Some(v) => self.entries().contains_key(id@) && v@ == self.entries()[id@].0,
                None => !self.entries().contains_key(id@),
            },
    ;

    /// Idempotent TTL-bound overwrite; a TTL of zero skips the write.
    fn create(&mut self, id: &str, dest: &str, timeout: usize)
        ensures
            final(self).entries() == stored(old(self).entries(), id@, dest@, timeout),
    ;

    /// Deletes one key; absent keys are no error.
    fn invalidate(&mut self, id: &str)
        ensures
            final(self).entries() == old(self).entries().remove(id@),
    ;

    /// Deletes every key whose name matches a glob pattern with `*`
    /// wildcards; zero matches are no error.
    fn invalidate_pattern(&mut self, pattern: &str)
        ensures
            final(self).entries() == old(self).entries().remove_keys(
                Set::new(|k: Seq<char>| glob_matches(pattern@, k)),
            ),
    ;
}

/// The in-memory reference store.
pub struct InMemoryCache {
    slots: StringMap<CacheSlot>,
}

impl InMemoryCache {
    /// An empty store.
    pub fn new() -> (r: Self)
        ensures
            r.entries() == Map::<Seq<char>, (Seq<char>, usize)>::empty(),
    {
        InMemoryCache { slots: StringMap::new() }
    }
}

impl Cache for InMemoryCache {
    closed spec fn entries(&self) -> Map<Seq<char>, (Seq<char>, usize)> {
        self.slots@
    }

    fn fetch(&self, id: &str) -> (r: Option<String>) {
        match self.slots.get(id) {
            Some(slot) => Some(slot.value.clone()),
            None => None,
        }
    }

    fn create(&mut self, id: &str, dest: &str, timeout: usize) {
        if timeout != 0 {
            self.slots.insert(id.to_owned(), CacheSlot { value: dest.to_owned(), ttl: timeout });
        }
    }

    fn invalidate(&mut self, id: &str) {
        self.slots.remove(id);
    }

    fn invalidate_pattern(&mut self, pattern: &str) {
        self.slots.remove_matching(pattern);
    }
}

} // verus!
