//! The seeded hasher: bridges a string key to the generator's two base
//! values through two independently seeded XXH3 digests.
//!
//! The digest itself is the one trusted boundary of the crate: its value
//! is named by the uninterpreted function [`xxh3_64`], and everything the
//! hasher promises is stated over that name.

use std::hash::BuildHasher;

use vstd::prelude::*;

verus! {

use crate::builder::DoubleHashBuilder;
use crate::hashes::Hashes;
use crate::recurrence::{fresh_state, lemma_outputs_in_range, lemma_outputs_len, outputs};
use crate::{BuildHashIterHasher, HashIterHasher};

/// The 64-bit XXH3 digest of a string under a seed. The digest is a pure
/// function of the seed and the string's characters, which is all the
/// contracts here rely on; its actual values are left to the primitive.
pub uninterp spec fn xxh3_64(seed: u64, key: Seq<char>) -> u64;

/// Relies on `xxhash_rust::xxh3::Xxh3Builder`: `with_seed` fixes the seed
/// (the builder derives its secret from that seed alone) and `hash_one`
/// runs the XXH3 algorithm over the bytes the string's `Hash` impl writes,
/// so the digest is a deterministic function of the seed and the string's
/// characters, on every call and on every machine.
#[verifier::external_body]
fn xxh3_digest(seed: u64, key: &str) -> (r: u64)
    ensures
        r == xxh3_64(seed, key@),
{
    xxhash_rust::xxh3::Xxh3Builder::new().with_seed(seed).hash_one(key)
}

/// A seeded hasher's configuration: the two digest seeds and the modulus.
pub ghost struct HasherConfig {
    pub seed1: u64,
    pub seed2: u64,
    pub n: nat,
}

/// Enhanced double hashing hasher.
///
/// Holds the seeds of two independent XXH3 instances and the modulus; for
/// each key it digests the key once per seed and hands both digests to a
/// [`Hashes`] cursor. It owns no other state, so every call is a pure
/// function of the key, the count, and this configuration.
#[derive(Clone, Copy)]
pub struct DoubleHashHasher<T> {
    seed1: u64,
    seed2: u64,
    n: T,
}

impl View for DoubleHashHasher<u64> {
    type V = HasherConfig;

    closed spec fn view(&self) -> HasherConfig {
        HasherConfig { seed1: self.seed1, seed2: self.seed2, n: self.n as nat }
    }
}

impl View for DoubleHashHasher<u32> {
    type V = HasherConfig;

    closed spec fn view(&self) -> HasherConfig {
        HasherConfig { seed1: self.seed1, seed2: self.seed2, n: self.n as nat }
    }
}

impl View for DoubleHashHasher<u128> {
    type V = HasherConfig;

    closed spec fn view(&self) -> HasherConfig {
        HasherConfig { seed1: self.seed1, seed2: self.seed2, n: self.n as nat }
    }
}

impl DoubleHashHasher<u64> {
    /// Constructs a hasher from explicit digest seeds and a modulus.
    pub fn with_seeds(seed1: u64, seed2: u64, n: u64) -> (r: Self)
        ensures
            r@ == (HasherConfig { seed1: seed1, seed2: seed2, n: n as nat }),
    {
        DoubleHashHasher { seed1, seed2, n }
    }

    /// Constructs a hasher with the default configuration: seeds 12345 and
    /// 67890, and the full 64-bit range as modulus.
    pub fn new() -> (r: Self)
        ensures
            r@ == (HasherConfig { seed1: 12345u64, seed2: 67890u64, n: u64::MAX as nat }),
    {
        DoubleHashBuilder::<u64>::new().build_hash_iter_hasher()
    }
}

impl DoubleHashHasher<u32> {
    /// Constructs a hasher from explicit digest seeds and a modulus.
    pub fn with_seeds(seed1: u64, seed2: u64, n: u32) -> (r: Self)
        ensures
            r@ == (HasherConfig { seed1: seed1, seed2: seed2, n: n as nat }),
    {
        DoubleHashHasher { seed1, seed2, n }
    }
}

impl DoubleHashHasher<u128> {
    /// Constructs a hasher from explicit digest seeds and a modulus.
    pub fn with_seeds(seed1: u64, seed2: u64, n: u128) -> (r: Self)
        ensures
            r@ == (HasherConfig { seed1: seed1, seed2: seed2, n: n as nat }),
    {
        DoubleHashHasher { seed1, seed2, n }
    }
}

impl HashIterHasher<u64> for DoubleHashHasher<u64> {
    /// The modulus must be positive, and at most `n` values may be asked
    /// for (the generator's counter must stay below the modulus).
    open spec fn hash_iter_req(&self, count: usize) -> bool {
        self@.n > 0 && count as nat <= self@.n
    }

    /// The cursor starts fresh on the two digests of `key`, with the
    /// configured modulus, set to yield `count` values.
    open spec fn hash_iter_post(&self, key: Seq<char>, count: usize, r: Hashes<u64>) -> bool {
        r@ == fresh_state(
            xxh3_64(self@.seed1, key) as nat,
            xxh3_64(self@.seed2, key) as nat,
            self@.n,
            count as nat,
        )
    }

    fn hash_iter(&self, key: &str, count: usize) -> Hashes<u64> {
        let hash1: u64 = xxh3_digest(self.seed1, key);
        let hash2: u64 = xxh3_digest(self.seed2, key);
        let count_t: u64 = count as u64;
        Hashes::<u64>::new(hash1, hash2, self.n, count_t)
    }
}

impl HashIterHasher<u32> for DoubleHashHasher<u32> {
    /// The modulus must be positive, and the count, after the intentional
    /// truncation to 32 bits, may not exceed it.
    open spec fn hash_iter_req(&self, count: usize) -> bool {
        self@.n > 0 && (count as u32) as nat <= self@.n
    }

    /// The cursor starts fresh on the two digests of `key`, both truncated
    /// to 32 bits, as is the count: narrower widths intentionally see
    /// wrapped base values, so each width has its own sequence.
    open spec fn hash_iter_post(&self, key: Seq<char>, count: usize, r: Hashes<u32>) -> bool {
        r@ == fresh_state(
            (xxh3_64(self@.seed1, key) as u32) as nat,
            (xxh3_64(self@.seed2, key) as u32) as nat,
            self@.n,
            (count as u32) as nat,
        )
    }

    fn hash_iter(&self, key: &str, count: usize) -> Hashes<u32> {
        let hash1: u64 = xxh3_digest(self.seed1, key);
        let hash2: u64 = xxh3_digest(self.seed2, key);
        let x: u32 = #[verifier::truncate] (hash1 as u32);
        let y: u32 = #[verifier::truncate] (hash2 as u32);
        let count_t: u32 = #[verifier::truncate] (count as u32);
        Hashes::<u32>::new(x, y, self.n, count_t)
    }
}

impl HashIterHasher<u128> for DoubleHashHasher<u128> {
    /// The modulus must be positive, and at most `n` values may be asked
    /// for (the generator's counter must stay below the modulus).
    open spec fn hash_iter_req(&self, count: usize) -> bool {
        self@.n > 0 && count as nat <= self@.n
    }

    /// The cursor starts fresh on the two digests of `key`, widened to 128
    /// bits, with the configured modulus, set to yield `count` values.
    open spec fn hash_iter_post(&self, key: Seq<char>, count: usize, r: Hashes<u128>) -> bool {
        r@ == fresh_state(
            xxh3_64(self@.seed1, key) as nat,
            xxh3_64(self@.seed2, key) as nat,
            self@.n,
            count as nat,
        )
    }

    fn hash_iter(&self, key: &str, count: usize) -> Hashes<u128> {
        let hash1: u64 = xxh3_digest(self.seed1, key);
        let hash2: u64 = xxh3_digest(self.seed2, key);
        let x: u128 = hash1 as u128;
        let y: u128 = hash2 as u128;
        let count_t: u128 = count as u128;
        Hashes::<u128>::new(x, y, self.n, count_t)
    }
}

/// At the 64-bit width, `hash_iter` yields exactly `count` values, each
/// below the configured modulus.
pub proof fn lemma_hash_iter_values_u64(
    h: DoubleHashHasher<u64>,
    key: Seq<char>,
    count: usize,
    r: Hashes<u64>,
)
    requires
        h.hash_iter_req(count),
        h.hash_iter_post(key, count, r),
    ensures
        outputs(r@).len() == count,
        forall|i: int| 0 <= i < outputs(r@).len() ==> outputs(r@)[i] < h@.n,
{
    lemma_outputs_len(r@);
    lemma_outputs_in_range(r@);
}

/// At the 32-bit width, `hash_iter` yields exactly as many values as the
/// count leaves after its intentional truncation to 32 bits, each below
/// the configured modulus.
pub proof fn lemma_hash_iter_values_u32(
    h: DoubleHashHasher<u32>,
    key: Seq<char>,
    count: usize,
    r: Hashes<u32>,
)
    requires
        h.hash_iter_req(count),
        h.hash_iter_post(key, count, r),
    ensures
        outputs(r@).len() == (count as u32) as nat,
        forall|i: int| 0 <= i < outputs(r@).len() ==> outputs(r@)[i] < h@.n,
{
    lemma_outputs_len(r@);
    lemma_outputs_in_range(r@);
}

/// At the 128-bit width, `hash_iter` yields exactly `count` values, each
/// below the configured modulus.
pub proof fn lemma_hash_iter_values_u128(
    h: DoubleHashHasher<u128>,
    key: Seq<char>,
    count: usize,
    r: Hashes<u128>,
)
    requires
        h.hash_iter_req(count),
        h.hash_iter_post(key, count, r),
    ensures
        outputs(r@).len() == count,
        forall|i: int| 0 <= i < outputs(r@).len() ==> outputs(r@)[i] < h@.n,
{
    lemma_outputs_len(r@);
    lemma_outputs_in_range(r@);
}

/// Determinism across calls and instances at the 64-bit width: two hashers
/// built from equal configurations yield, for the same key and count,
/// cursors in equal states, and hence the same value sequence.
pub proof fn lemma_hash_iter_deterministic_u64(
    p: DoubleHashBuilder<u64>,
    q: DoubleHashBuilder<u64>,
    hp: DoubleHashHasher<u64>,
    hq: DoubleHashHasher<u64>,
    key: Seq<char>,
    count: usize,
    rp: Hashes<u64>,
    rq: Hashes<u64>,
)
    requires
        p@ == q@,
        p.build_post(hp),
        q.build_post(hq),
        hp.hash_iter_post(key, count, rp),
        hq.hash_iter_post(key, count, rq),
    ensures
        rp@ == rq@,
        outputs(rp@) == outputs(rq@),
{
}

/// Determinism across calls and instances at the 32-bit width; see
/// [`lemma_hash_iter_deterministic_u64`].
pub proof fn lemma_hash_iter_deterministic_u32(
    p: DoubleHashBuilder<u32>,
    q: DoubleHashBuilder<u32>,
    hp: DoubleHashHasher<u32>,
    hq: DoubleHashHasher<u32>,
    key: Seq<char>,
    count: usize,
    rp: Hashes<u32>,
    rq: Hashes<u32>,
)
    requires
        p@ == q@,
        p.build_post(hp),
        q.build_post(hq),
        hp.hash_iter_post(key, count, rp),
        hq.hash_iter_post(key, count, rq),
    ensures
        rp@ == rq@,
        outputs(rp@) == outputs(rq@),
{
}

/// Determinism across calls and instances at the 128-bit width; see
/// [`lemma_hash_iter_deterministic_u64`].
pub proof fn lemma_hash_iter_deterministic_u128(
    p: DoubleHashBuilder<u128>,
    q: DoubleHashBuilder<u128>,
    hp: DoubleHashHasher<u128>,
    hq: DoubleHashHasher<u128>,
    key: Seq<char>,
    count: usize,
    rp: Hashes<u128>,
    rq: Hashes<u128>,
)
    requires
        p@ == q@,
        p.build_post(hp),
        q.build_post(hq),
        hp.hash_iter_post(key, count, rp),
        hq.hash_iter_post(key, count, rq),
    ensures
        rp@ == rq@,
        outputs(rp@) == outputs(rq@),
{
}

} // verus!
