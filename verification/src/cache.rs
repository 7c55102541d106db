//! Result caching policy.
//!
//! The cache is keyed on a triple of (task type name, params snapshot,
//! input hash). [`NoCache`] is the default: it never holds anything, so
//! tasks always run.

use serde_json::Value;
use std::hash::{DefaultHasher, Hasher};
use vstd::prelude::*;
use vstd::std_specs::hash::DefaultHasherAdditionalSpecFns;

verus! {

/// Lookup key for the task result cache.
///
/// Built from the task's stable type name, its params snapshot, and a hash
/// of the serialized input value.
#[derive(Debug, Clone, PartialEq, Eq, Hash)]
pub struct CacheKey {
    /// Stable, human-readable type name of the task.
    pub task_type: &'static str,
    /// JSON params snapshot of the task.
    pub params: Value,
    /// Hash of the serialized input bytes.
    pub input_hash: u64,
}

impl CacheKey {
    /// Build a cache key from its three parts.
    pub fn new(task_type: &'static str, params: Value, input_hash: u64) -> (k: Self)
        ensures
            k.task_type == task_type,
            k.params == params,
            k.input_hash == input_hash,
    {
        CacheKey { task_type, params, input_hash }
    }
}

/// Hash the serialized bytes of an input with [`DefaultHasher`], as one
/// write: equal bytes give equal hashes.
pub fn hash_bytes(bytes: &Vec<u8>) -> (h: u64)
    ensures
        h == DefaultHasher::spec_finish(seq![bytes@]),
{
    let mut hasher = DefaultHasher::new();
    hasher.write(bytes.as_slice());
    hasher.finish()
}

/// A cache that always misses: tasks run unconditionally.
#[derive(Debug, Default, Clone, Copy)]
pub struct NoCache;

impl NoCache {
    /// Look a key up: there is never a hit.
    pub fn lookup<V>(&self, key: &CacheKey) -> (r: Option<V>)
        ensures
            r is None,
    {
        None
    }

    /// Offer an output for storage: it is dropped, so later lookups still
    /// miss.
    pub fn store<V>(&self, key: CacheKey, output: V) {
    }
}

} // verus!
