use std::hash::BuildHasher;

use hash_iter::{BuildHashIterHasher, DoubleHashBuilder, HashIterHasher, Hashes};
use xxhash_rust::xxh3::Xxh3Builder;

// Mathematical reference for the enhanced double hashing function,
// h(i) = h1(k) + i * h2(k) + (i^3 - i)/6 (mod n), evaluated directly:
//
// x, y := a(d) MOD m, b(d) MOD m
// f[0] := x
// for i := 1 .. k-1
//   x := (x + y) MOD m
//   y := (y + i) MOD m
//   f[i] := x
fn reference_hash(i: u64, hash1: u64, hash2: u64, n: u64) -> u64 {
    let x = hash1.wrapping_rem(n);
    let y = hash2.wrapping_rem(n);
    x.wrapping_add(y.wrapping_mul(i))
        .wrapping_add((i.pow(3) - i) / 6)
        .wrapping_rem(n)
}

#[test]
fn default_build_hash_iter() {
    let key = "mykey";
    let n: u64 = 1_000_000_000;
    let k: usize = 100;

    let builder = DoubleHashBuilder::<u64>::new()
        .with_n(n)
        .with_seed1(1)
        .with_seed2(2);

    let hash_builder = Xxh3Builder::new();
    let hash1: u64 = hash_builder.with_seed(1).hash_one(key);
    let hash2: u64 = hash_builder.with_seed(2).hash_one(key);

    let hasher = builder.build_hash_iter_hasher();
    let mut iter = hasher.hash_iter(key, k);
    let mut i: u64 = 0;
    while let Some(hash) = iter.next() {
        assert_eq!(hash, reference_hash(i, hash1, hash2, n));
        i += 1;
    }
    assert_eq!(i, k as u64);
}

#[test]
fn hashes_next() {
    let hash_builder = Xxh3Builder::new();
    let hash1: u64 = hash_builder.with_seed(1).hash_one("mykey");
    let hash2: u64 = hash_builder.with_seed(2).hash_one("mykey");

    let n: u64 = 1_000_000_000;
    let k: u64 = 100;
    let mut iter = Hashes::<u64>::new(hash1, hash2, n, k);
    for i in 0..k {
        assert_eq!(iter.next(), Some(reference_hash(i, hash1, hash2, n)));
    }
}
