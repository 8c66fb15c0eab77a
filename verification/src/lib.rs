//! Enhanced double hashing: a deterministic family of hash points per key.
//!
//! From two base hash values the library derives an arbitrary-length
//! sequence of values in `[0, n)` through the enhanced double-hashing
//! recurrence, seeding the base values from a keyed XXH3 digest. The
//! recurrence, its overflow-safe modular arithmetic, and the configuration
//! layer around it are verified; the XXH3 primitive is called through a
//! trusted wrapper.

use vstd::prelude::*;

pub mod builder;
pub mod hasher;
pub mod hashes;
pub mod recurrence;

pub use builder::DoubleHashBuilder;
pub use hasher::DoubleHashHasher;
pub use hashes::Hashes;

verus! {

/// Capability of producing a sequence of hash values for a key.
///
/// Callers that consume many hash positions per key (a Bloom filter, for
/// instance) can depend on this trait instead of a concrete hasher type or
/// numeric width.
pub trait HashIterHasher<T> {
    /// The inputs on which `hash_iter` may be called.
    spec fn hash_iter_req(&self, count: usize) -> bool;

    /// What the cursor returned by `hash_iter` satisfies; each
    /// implementation pins the cursor's state down exactly.
    spec fn hash_iter_post(&self, key: Seq<char>, count: usize, r: Hashes<T>) -> bool;

    /// Returns a cursor over `count` hash values for `key`, generated by
    /// enhanced double hashing.
    fn hash_iter(&self, key: &str, count: usize) -> (r: Hashes<T>)
        requires
            self.hash_iter_req(count),
        ensures
            self.hash_iter_post(key@, count, r),
    ;
}

/// Capability of building a [`HashIterHasher`]: lets callers hold a
/// configuration and materialize independent hashers from it.
pub trait BuildHashIterHasher<T> {
    type Hasher: HashIterHasher<T>;

    /// What the built hasher satisfies; each implementation pins the
    /// hasher's configuration down exactly.
    spec fn build_post(&self, r: Self::Hasher) -> bool;

    /// Builds a hasher bound to this configuration.
    fn build_hash_iter_hasher(&self) -> (r: Self::Hasher)
        ensures
            self.build_post(r),
    ;
}

} // verus!
