//! The configuration layer: a fluent, immutable-update builder for the
//! seeded hasher.
//!
//! Every `with_*` operation returns a new configuration value; `build`
//! may be called any number of times and each call yields an independent
//! hasher with identical behaviour.

use vstd::prelude::*;

verus! {

use crate::hasher::DoubleHashHasher;
use crate::BuildHashIterHasher;

/// A builder's configuration: the two digest seeds and the modulus, at
/// the builder's own numeric width.
pub ghost struct BuilderConfig {
    pub seed1: nat,
    pub seed2: nat,
    pub n: nat,
}

/// Holds the configuration for the enhanced double hashing hasher.
///
/// Accumulates two digest seeds and the table size `n`, then materializes
/// a [`DoubleHashHasher`] bound to them. The default seeds are 12345 and
/// 67890 — any values would serve, they only avoid an all-zero default —
/// and the default modulus is the width's maximum.
#[derive(Clone, Copy)]
pub struct DoubleHashBuilder<T> {
    seed1: T,
    seed2: T,
    n: T,
}

impl View for DoubleHashBuilder<u64> {
    type V = BuilderConfig;

    closed spec fn view(&self) -> BuilderConfig {
        BuilderConfig { seed1: self.seed1 as nat, seed2: self.seed2 as nat, n: self.n as nat }
    }
}

impl View for DoubleHashBuilder<u32> {
    type V = BuilderConfig;

    closed spec fn view(&self) -> BuilderConfig {
        BuilderConfig { seed1: self.seed1 as nat, seed2: self.seed2 as nat, n: self.n as nat }
    }
}

impl View for DoubleHashBuilder<u128> {
    type V = BuilderConfig;

    closed spec fn view(&self) -> BuilderConfig {
        BuilderConfig { seed1: self.seed1 as nat, seed2: self.seed2 as nat, n: self.n as nat }
    }
}

impl DoubleHashBuilder<u64> {
    /// Constructs a builder with the default seeds and modulus.
    pub fn new() -> (r: Self)
        ensures
            r@ == (BuilderConfig { seed1: 12345 as nat, seed2: 67890 as nat, n: u64::MAX as nat }),
    {
        DoubleHashBuilder { seed1: 12345u64, seed2: 67890u64, n: u64::MAX }
    }

    /// Returns the configuration with the first seed replaced.
    pub fn with_seed1(self, seed1: u64) -> (r: Self)
        ensures
            r@ == (BuilderConfig { seed1: seed1 as nat, seed2: self@.seed2, n: self@.n }),
    {
        DoubleHashBuilder { seed1, seed2: self.seed2, n: self.n }
    }

    /// Returns the configuration with the second seed replaced.
    pub fn with_seed2(self, seed2: u64) -> (r: Self)
        ensures
            r@ == (BuilderConfig { seed1: self@.seed1, seed2: seed2 as nat, n: self@.n }),
    {
        DoubleHashBuilder { seed1: self.seed1, seed2, n: self.n }
    }

    /// Returns the configuration with the modulus replaced.
    pub fn with_n(self, n: u64) -> (r: Self)
        ensures
            r@ == (BuilderConfig { seed1: self@.seed1, seed2: self@.seed2, n: n as nat }),
    {
        DoubleHashBuilder { seed1: self.seed1, seed2: self.seed2, n }
    }
}

impl Default for DoubleHashBuilder<u64> {
    fn default() -> (r: Self)
        ensures
            r@ == (BuilderConfig { seed1: 12345 as nat, seed2: 67890 as nat, n: u64::MAX as nat }),
    {
        Self::new()
    }
}

impl BuildHashIterHasher<u64> for DoubleHashBuilder<u64> {
    type Hasher = DoubleHashHasher<u64>;

    /// The hasher carries this configuration: each seed converted to the
    /// digest's 64-bit seed type, and the modulus unchanged.
    open spec fn build_post(&self, r: DoubleHashHasher<u64>) -> bool {
        &&& r@.seed1 == self@.seed1 as u64
        &&& r@.seed2 == self@.seed2 as u64
        &&& r@.n == self@.n
    }

    fn build_hash_iter_hasher(&self) -> DoubleHashHasher<u64> {
        DoubleHashHasher::<u64>::with_seeds(self.seed1, self.seed2, self.n)
    }
}

impl DoubleHashBuilder<u32> {
    /// Constructs a builder with the default seeds and modulus.
    pub fn new() -> (r: Self)
        ensures
            r@ == (BuilderConfig { seed1: 12345 as nat, seed2: 67890 as nat, n: u32::MAX as nat }),
    {
        DoubleHashBuilder { seed1: 12345u32, seed2: 67890u32, n: u32::MAX }
    }

    /// Returns the configuration with the first seed replaced.
    pub fn with_seed1(self, seed1: u32) -> (r: Self)
        ensures
            r@ == (BuilderConfig { seed1: seed1 as nat, seed2: self@.seed2, n: self@.n }),
    {
        DoubleHashBuilder { seed1, seed2: self.seed2, n: self.n }
    }

    /// Returns the configuration with the second seed replaced.
    pub fn with_seed2(self, seed2: u32) -> (r: Self)
        ensures
            r@ == (BuilderConfig { seed1: self@.seed1, seed2: seed2 as nat, n: self@.n }),
    {
        DoubleHashBuilder { seed1: self.seed1, seed2, n: self.n }
    }

    /// Returns the configuration with the modulus replaced.
    pub fn with_n(self, n: u32) -> (r: Self)
        ensures
            r@ == (BuilderConfig { seed1: self@.seed1, seed2: self@.seed2, n: n as nat }),
    {
        DoubleHashBuilder { seed1: self.seed1, seed2: self.seed2, n }
    }
}

impl Default for DoubleHashBuilder<u32> {
    fn default() -> (r: Self)
        ensures
            r@ == (BuilderConfig { seed1: 12345 as nat, seed2: 67890 as nat, n: u32::MAX as nat }),
    {
        Self::new()
    }
}

impl BuildHashIterHasher<u32> for DoubleHashBuilder<u32> {
    type Hasher = DoubleHashHasher<u32>;

    /// The hasher carries this configuration: each seed converted to the
    /// digest's 64-bit seed type, and the modulus unchanged.
    open spec fn build_post(&self, r: DoubleHashHasher<u32>) -> bool {
        &&& r@.seed1 == self@.seed1 as u64
        &&& r@.seed2 == self@.seed2 as u64
        &&& r@.n == self@.n
    }

    fn build_hash_iter_hasher(&self) -> DoubleHashHasher<u32> {
        DoubleHashHasher::<u32>::with_seeds(self.seed1 as u64, self.seed2 as u64, self.n)
    }
}

impl DoubleHashBuilder<u128> {
    /// Constructs a builder with the default seeds and modulus.
    pub fn new() -> (r: Self)
        ensures
            r@ == (BuilderConfig {
                seed1: 12345 as nat,
                seed2: 67890 as nat,
                n: u128::MAX as nat,
            }),
    {
        DoubleHashBuilder { seed1: 12345u128, seed2: 67890u128, n: u128::MAX }
    }

    /// Returns the configuration with the first seed replaced.
    pub fn with_seed1(self, seed1: u128) -> (r: Self)
        ensures
            r@ == (BuilderConfig { seed1: seed1 as nat, seed2: self@.seed2, n: self@.n }),
    {
        DoubleHashBuilder { seed1, seed2: self.seed2, n: self.n }
    }

    /// Returns the configuration with the second seed replaced.
    pub fn with_seed2(self, seed2: u128) -> (r: Self)
        ensures
            r@ == (BuilderConfig { seed1: self@.seed1, seed2: seed2 as nat, n: self@.n }),
    {
        DoubleHashBuilder { seed1: self.seed1, seed2, n: self.n }
    }

    /// Returns the configuration with the modulus replaced.
    pub fn with_n(self, n: u128) -> (r: Self)
        ensures
            r@ == (BuilderConfig { seed1: self@.seed1, seed2: self@.seed2, n: n as nat }),
    {
        DoubleHashBuilder { seed1: self.seed1, seed2: self.seed2, n }
    }
}

impl Default for DoubleHashBuilder<u128> {
    fn default() -> (r: Self)
        ensures
            r@ == (BuilderConfig {
                seed1: 12345 as nat,
                seed2: 67890 as nat,
                n: u128::MAX as nat,
            }),
    {
        Self::new()
    }
}

impl BuildHashIterHasher<u128> for DoubleHashBuilder<u128> {
    type Hasher = DoubleHashHasher<u128>;

    /// The hasher carries this configuration: each seed converted — for
    /// this width, truncated — to the digest's 64-bit seed type, and the
    /// modulus unchanged.
    open spec fn build_post(&self, r: DoubleHashHasher<u128>) -> bool {
        &&& r@.seed1 == self@.seed1 as u64
        &&& r@.seed2 == self@.seed2 as u64
        &&& r@.n == self@.n
    }

    fn build_hash_iter_hasher(&self) -> DoubleHashHasher<u128> {
        DoubleHashHasher::<u128>::with_seeds(
            #[verifier::truncate] (self.seed1 as u64),
            #[verifier::truncate] (self.seed2 as u64),
            self.n,
        )
    }
}

} // verus!
