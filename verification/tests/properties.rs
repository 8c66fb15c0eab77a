use hash_iter::{BuildHashIterHasher, DoubleHashBuilder, DoubleHashHasher, HashIterHasher, Hashes};

#[test]
fn zero_count_yields_empty() {
    let hasher = DoubleHashHasher::<u64>::new();
    let mut iter = hasher.hash_iter("hello", 0);
    assert_eq!(iter.len(), 0);
    assert_eq!(iter.next(), None);
    assert_eq!(hasher.hash_iter("hello", 0).into_vec(), Vec::<u64>::new());
}

#[test]
fn length_matches_count() {
    let hasher = DoubleHashBuilder::<u64>::new()
        .with_n(1000)
        .build_hash_iter_hasher();
    for count in [1usize, 2, 7, 100] {
        assert_eq!(hasher.hash_iter("hello", count).into_vec().len(), count);
    }
}

#[test]
fn len_tracks_consumption() {
    let mut iter = Hashes::<u64>::new(11, 22, 1000, 4);
    assert_eq!(iter.len(), 4);
    iter.next();
    assert_eq!(iter.len(), 3);
    iter.next();
    iter.next();
    iter.next();
    assert_eq!(iter.len(), 0);
    assert_eq!(iter.next(), None);
    assert_eq!(iter.len(), 0);
}

#[test]
fn values_in_range_for_each_width() {
    let key = "range_key";
    let count: usize = 25;

    let hashes_u32: Vec<u32> = DoubleHashBuilder::<u32>::new()
        .with_n(97)
        .build_hash_iter_hasher()
        .hash_iter(key, count)
        .into_vec();
    let hashes_u64: Vec<u64> = DoubleHashBuilder::<u64>::new()
        .with_n(97)
        .build_hash_iter_hasher()
        .hash_iter(key, count)
        .into_vec();
    let hashes_u128: Vec<u128> = DoubleHashBuilder::<u128>::new()
        .with_n(97)
        .build_hash_iter_hasher()
        .hash_iter(key, count)
        .into_vec();

    assert_eq!(hashes_u32.len(), count);
    assert_eq!(hashes_u64.len(), count);
    assert_eq!(hashes_u128.len(), count);
    for &hash in &hashes_u32 {
        assert!(hash < 97);
    }
    for &hash in &hashes_u64 {
        assert!(hash < 97);
    }
    for &hash in &hashes_u128 {
        assert!(hash < 97);
    }
}

#[test]
fn recurrence_holds_on_concrete_sequence() {
    // Track the recurrence independently: value[i] = (value[i-1] + b[i-1]) mod n
    // and b[i] = (b[i-1] + i) mod n, starting from the reduced base values.
    let hash1: u64 = u64::MAX - 5;
    let hash2: u64 = u64::MAX - 7;
    let n: u64 = 97;
    let k: u64 = 50;

    let mut iter = Hashes::<u64>::new(hash1, hash2, n, k);
    let mut a: u64 = hash1 % n;
    let mut b: u64 = hash2 % n;
    assert_eq!(iter.next(), Some(a));
    for i in 1..k {
        a = (a + b) % n;
        b = (b + i) % n;
        assert_eq!(iter.next(), Some(a));
    }
    assert_eq!(iter.next(), None);
}

#[test]
fn closed_form_matches_forward_differencing() {
    // h(i) = (h1 + i*h2 + (i^3 - i)/6) mod n, evaluated in 128-bit
    // arithmetic so nothing overflows, must match the generator.
    let hash1: u64 = 123456789;
    let hash2: u64 = 987654321;
    let n: u64 = 10007;
    let k: u64 = 60;

    let mut iter = Hashes::<u64>::new(hash1, hash2, n, k);
    for i in 0..(k as u128) {
        let expected: u128 =
            (hash1 as u128 + i * hash2 as u128 + (i * i * i - i) / 6) % n as u128;
        assert_eq!(iter.next(), Some(expected as u64));
    }
}

#[test]
fn deterministic_across_instances() {
    // Two hashers built independently from equal configurations agree on
    // every call.
    let make = || {
        DoubleHashBuilder::<u64>::new()
            .with_seed1(31337)
            .with_seed2(4242)
            .with_n(1 << 20)
            .build_hash_iter_hasher()
    };
    let hasher_a = make();
    let hasher_b = make();
    for key in ["", "a", "hello", "some longer key with spaces"] {
        assert_eq!(
            hasher_a.hash_iter(key, 12).into_vec(),
            hasher_b.hash_iter(key, 12).into_vec()
        );
    }
}

#[test]
fn builder_updates_are_immutable() {
    // A `with_*` call returns a new configuration and leaves the original
    // untouched: the original still builds the default hasher.
    let base = DoubleHashBuilder::<u64>::new();
    let _changed = base.with_seed1(1).with_seed2(2).with_n(1000);
    let hasher = base.build_hash_iter_hasher();
    let default_hasher = DoubleHashHasher::<u64>::new();
    assert_eq!(
        hasher.hash_iter("hello", 3).into_vec(),
        default_hasher.hash_iter("hello", 3).into_vec()
    );
}

#[test]
fn count_equal_to_modulus_edge() {
    // The largest count the generator admits for a modulus: k == n.
    let mut iter = Hashes::<u64>::new(123, 456, 5, 5);
    let values = iter.into_vec();
    assert_eq!(values.len(), 5);
    for &value in &values {
        assert!(value < 5);
    }
    iter = Hashes::<u64>::new(123, 456, 5, 5);
    for _ in 0..5 {
        assert!(iter.next().is_some());
    }
    assert_eq!(iter.next(), None);
}

#[test]
fn modulus_one_yields_zeros() {
    let iter = Hashes::<u32>::new(u32::MAX, u32::MAX - 1, 1, 1);
    assert_eq!(iter.into_vec(), vec![0]);
}
