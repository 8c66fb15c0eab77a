//! The hash-point generator: a finite, restartable cursor over the values
//! of the enhanced double-hashing recurrence.
//!
//! `Hashes<T>` is a plain value; copying it duplicates the cursor, and the
//! two copies advance independently. The same algorithm is implemented for
//! each supported width (`u32`, `u64`, `u128`), all against the shared
//! model in [`crate::recurrence`].

use vstd::prelude::*;

verus! {

use vstd::arithmetic::div_mod::{lemma_mod_sub_multiples_vanish, lemma_small_mod};

use crate::recurrence::{
    advance, emitted, fresh_state, lemma_outputs_in_range, lemma_outputs_len, outputs, wf_state,
    GenState,
};

/// Cursor over the hash values generated by enhanced double hashing.
///
/// The state is `(hash1, hash2, n, k, cnt)`: the two forward-difference
/// accumulators, the modulus, the number of values to generate, and the
/// number generated so far. Mathematically the `i`-th value is
/// `(hash1 + i*hash2 + (i^3 - i)/6) mod n`, computed by forward
/// differencing: one overflow-safe modular addition per accumulator and
/// emission.
#[derive(Debug, Clone, Copy)]
pub struct Hashes<T> {
    hash1: T,
    hash2: T,
    n: T,
    k: T,
    cnt: T,
}

/// Overflow-safe modular addition: `(a + b) mod n` for already-reduced
/// operands, without ever forming the possibly-overflowing sum `a + b`
/// at the machine width.
fn add_mod_u32(a: u32, b: u32, n: u32) -> (r: u32)
    requires
        a < n,
        b < n,
    ensures
        r == (a + b) % (n as int),
{
    let r = if a >= n - b {
        a - (n - b)
    } else {
        a + b
    };
    proof {
        if a >= n - b {
            lemma_mod_sub_multiples_vanish((a + b) as int, n as int);
            lemma_small_mod((a + b - n) as nat, n as nat);
        } else {
            lemma_small_mod((a + b) as nat, n as nat);
        }
    }
    r
}

/// Overflow-safe modular addition at the 64-bit width; see [`add_mod_u32`].
fn add_mod_u64(a: u64, b: u64, n: u64) -> (r: u64)
    requires
        a < n,
        b < n,
    ensures
        r == (a + b) % (n as int),
{
    let r = if a >= n - b {
        a - (n - b)
    } else {
        a + b
    };
    proof {
        if a >= n - b {
            lemma_mod_sub_multiples_vanish((a + b) as int, n as int);
            lemma_small_mod((a + b - n) as nat, n as nat);
        } else {
            lemma_small_mod((a + b) as nat, n as nat);
        }
    }
    r
}

/// Overflow-safe modular addition at the 128-bit width; see [`add_mod_u32`].
fn add_mod_u128(a: u128, b: u128, n: u128) -> (r: u128)
    requires
        a < n,
        b < n,
    ensures
        r == (a + b) % (n as int),
{
    let r = if a >= n - b {
        a - (n - b)
    } else {
        a + b
    };
    proof {
        if a >= n - b {
            lemma_mod_sub_multiples_vanish((a + b) as int, n as int);
            lemma_small_mod((a + b - n) as nat, n as nat);
        } else {
            lemma_small_mod((a + b) as nat, n as nat);
        }
    }
    r
}

impl View for Hashes<u64> {
    type V = GenState;

    closed spec fn view(&self) -> GenState {
        GenState {
            hash1: self.hash1 as nat,
            hash2: self.hash2 as nat,
            n: self.n as nat,
            k: self.k as nat,
            cnt: self.cnt as nat,
        }
    }
}

impl Hashes<u64> {
    /// A well-formed cursor: see [`wf_state`].
    pub open spec fn wf(self) -> bool {
        wf_state(self@)
    }

    /// Constructs a cursor over `k` values derived from the raw base values
    /// `hash1` and `hash2`, each value reduced modulo `n`.
    ///
    /// A modulus of zero has no defined reduction, and the recurrence adds
    /// the emission counter (at most `k - 1`) to an accumulator that must
    /// stay reduced, so `k` may not exceed `n`.
    pub fn new(hash1: u64, hash2: u64, n: u64, k: u64) -> (r: Self)
        requires
            n > 0,
            k <= n,
        ensures
            r@ == fresh_state(hash1 as nat, hash2 as nat, n as nat, k as nat),
            r.wf(),
    {
        Hashes { hash1, hash2, n, k, cnt: 0 }
    }

    /// Emits the next hash value, or `None` once `k` values have been
    /// emitted. The first emission reduces both accumulators; every later
    /// one advances them by one forward-differencing step.
    pub fn next(&mut self) -> (r: Option<u64>)
        requires
            old(self).wf(),
        ensures
            final(self).wf(),
            final(self)@.n == old(self)@.n,
            final(self)@.k == old(self)@.k,
            old(self)@.cnt == old(self)@.k ==> r is None && final(self)@ == old(self)@,
            old(self)@.cnt < old(self)@.k ==> final(self)@ == advance(old(self)@) && (r matches
            Some(v) && v as nat == emitted(old(self)@)) && outputs(old(self)@) == seq![
                emitted(old(self)@),
            ] + outputs(final(self)@),
    {
        if self.cnt == self.k {
            return None;
        }
        if self.cnt == 0 {
            self.cnt = 1;
            self.hash1 = self.hash1 % self.n;
            self.hash2 = self.hash2 % self.n;
            return Some(self.hash1);
        }
        self.hash1 = add_mod_u64(self.hash1, self.hash2, self.n);
        self.hash2 = add_mod_u64(self.hash2, self.cnt, self.n);
        self.cnt = self.cnt + 1;
        Some(self.hash1)
    }

    /// The number of values still to come.
    pub fn len(&self) -> (r: usize)
        requires
            self.wf(),
            self@.k - self@.cnt <= usize::MAX,
        ensures
            r == self@.k - self@.cnt,
    {
        (self.k - self.cnt) as usize
    }

    /// Drains the cursor into a vector: exactly the remaining values, in
    /// emission order, each below the modulus.
    pub fn into_vec(self) -> (r: Vec<u64>)
        requires
            self.wf(),
        ensures
            r@.len() == self@.k - self@.cnt,
            forall|i: int| 0 <= i < r@.len() ==> r@[i] as nat == outputs(self@)[i],
            forall|i: int| 0 <= i < r@.len() ==> r@[i] < self@.n,
    {
        let mut it = self;
        let mut out: Vec<u64> = Vec::new();
        proof {
            lemma_outputs_len(self@);
            lemma_outputs_in_range(self@);
        }
        while it.cnt < it.k
            invariant
                it.wf(),
                out@.len() + outputs(it@).len() == outputs(self@).len(),
                outputs(it@) == outputs(self@).skip(out@.len() as int),
                forall|i: int| 0 <= i < out@.len() ==> out@[i] as nat == outputs(self@)[i],
            decreases it@.k - it@.cnt,
        {
            proof {
                lemma_outputs_len(it@);
            }
            let ghost prev = it@;
            let ghost done = out@.len() as int;
            let v: u64 = it.next().unwrap();
            out.push(v);
            proof {
                lemma_outputs_len(it@);
                assert(outputs(self@)[done] == outputs(prev)[0]);
                assert forall|j: int| 0 <= j < outputs(it@).len() implies outputs(it@)[j]
                    == outputs(self@)[done + 1 + j] by {
                    assert(outputs(it@)[j] == outputs(prev)[j + 1]);
                    assert(outputs(prev)[j + 1] == outputs(self@).skip(done)[j + 1]);
                }
                assert(outputs(it@) =~= outputs(self@).skip(done + 1));
            }
        }
        proof {
            lemma_outputs_len(it@);
        }
        out
    }
}


impl View for Hashes<u32> {
    type V = GenState;

    closed spec fn view(&self) -> GenState {
        GenState {
            hash1: self.hash1 as nat,
            hash2: self.hash2 as nat,
            n: self.n as nat,
            k: self.k as nat,
            cnt: self.cnt as nat,
        }
    }
}

impl Hashes<u32> {
    /// A well-formed cursor: see [`wf_state`].
    pub open spec fn wf(self) -> bool {
        wf_state(self@)
    }

    /// Constructs a cursor over `k` values derived from the raw base values
    /// `hash1` and `hash2`, each value reduced modulo `n`.
    ///
    /// A modulus of zero has no defined reduction, and the recurrence adds
    /// the emission counter (at most `k - 1`) to an accumulator that must
    /// stay reduced, so `k` may not exceed `n`.
    pub fn new(hash1: u32, hash2: u32, n: u32, k: u32) -> (r: Self)
        requires
            n > 0,
            k <= n,
        ensures
            r@ == fresh_state(hash1 as nat, hash2 as nat, n as nat, k as nat),
            r.wf(),
    {
        Hashes { hash1, hash2, n, k, cnt: 0 }
    }

    /// Emits the next hash value, or `None` once `k` values have been
    /// emitted. The first emission reduces both accumulators; every later
    /// one advances them by one forward-differencing step.
    pub fn next(&mut self) -> (r: Option<u32>)
        requires
            old(self).wf(),
        ensures
            final(self).wf(),
            final(self)@.n == old(self)@.n,
            final(self)@.k == old(self)@.k,
            old(self)@.cnt == old(self)@.k ==> r is None && final(self)@ == old(self)@,
            old(self)@.cnt < old(self)@.k ==> final(self)@ == advance(old(self)@) && (r matches
            Some(v) && v as nat == emitted(old(self)@)) && outputs(old(self)@) == seq![
                emitted(old(self)@),
            ] + outputs(final(self)@),
    {
        if self.cnt == self.k {
            return None;
        }
        if self.cnt == 0 {
            self.cnt = 1;
            self.hash1 = self.hash1 % self.n;
            self.hash2 = self.hash2 % self.n;
            return Some(self.hash1);
        }
        self.hash1 = add_mod_u32(self.hash1, self.hash2, self.n);
        self.hash2 = add_mod_u32(self.hash2, self.cnt, self.n);
        self.cnt = self.cnt + 1;
        Some(self.hash1)
    }

    /// The number of values still to come.
    pub fn len(&self) -> (r: usize)
        requires
            self.wf(),
            self@.k - self@.cnt <= usize::MAX,
        ensures
            r == self@.k - self@.cnt,
    {
        (self.k - self.cnt) as usize
    }

    /// Drains the cursor into a vector: exactly the remaining values, in
    /// emission order, each below the modulus.
    pub fn into_vec(self) -> (r: Vec<u32>)
        requires
            self.wf(),
        ensures
            r@.len() == self@.k - self@.cnt,
            forall|i: int| 0 <= i < r@.len() ==> r@[i] as nat == outputs(self@)[i],
            forall|i: int| 0 <= i < r@.len() ==> r@[i] < self@.n,
    {
        let mut it = self;
        let mut out: Vec<u32> = Vec::new();
        proof {
            lemma_outputs_len(self@);
            lemma_outputs_in_range(self@);
        }
        while it.cnt < it.k
            invariant
                it.wf(),
                out@.len() + outputs(it@).len() == outputs(self@).len(),
                outputs(it@) == outputs(self@).skip(out@.len() as int),
                forall|i: int| 0 <= i < out@.len() ==> out@[i] as nat == outputs(self@)[i],
            decreases it@.k - it@.cnt,
        {
            proof {
                lemma_outputs_len(it@);
            }
            let ghost prev = it@;
            let ghost done = out@.len() as int;
            let v: u32 = it.next().unwrap();
            out.push(v);
            proof {
                lemma_outputs_len(it@);
                assert(outputs(self@)[done] == outputs(prev)[0]);
                assert forall|j: int| 0 <= j < outputs(it@).len() implies outputs(it@)[j]
                    == outputs(self@)[done + 1 + j] by {
                    assert(outputs(it@)[j] == outputs(prev)[j + 1]);
                    assert(outputs(prev)[j + 1] == outputs(self@).skip(done)[j + 1]);
                }
                assert(outputs(it@) =~= outputs(self@).skip(done + 1));
            }
        }
        proof {
            lemma_outputs_len(it@);
        }
        out
    }
}

impl View for Hashes<u128> {
    type V = GenState;

    closed spec fn view(&self) -> GenState {
        GenState {
            hash1: self.hash1 as nat,
            hash2: self.hash2 as nat,
            n: self.n as nat,
            k: self.k as nat,
            cnt: self.cnt as nat,
        }
    }
}

impl Hashes<u128> {
    /// A well-formed cursor: see [`wf_state`].
    pub open spec fn wf(self) -> bool {
        wf_state(self@)
    }

    /// Constructs a cursor over `k` values derived from the raw base values
    /// `hash1` and `hash2`, each value reduced modulo `n`.
    ///
    /// A modulus of zero has no defined reduction, and the recurrence adds
    /// the emission counter (at most `k - 1`) to an accumulator that must
    /// stay reduced, so `k` may not exceed `n`.
    pub fn new(hash1: u128, hash2: u128, n: u128, k: u128) -> (r: Self)
        requires
            n > 0,
            k <= n,
        ensures
            r@ == fresh_state(hash1 as nat, hash2 as nat, n as nat, k as nat),
            r.wf(),
    {
        Hashes { hash1, hash2, n, k, cnt: 0 }
    }

    /// Emits the next hash value, or `None` once `k` values have been
    /// emitted. The first emission reduces both accumulators; every later
    /// one advances them by one forward-differencing step.
    pub fn next(&mut self) -> (r: Option<u128>)
        requires
            old(self).wf(),
        ensures
            final(self).wf(),
            final(self)@.n == old(self)@.n,
            final(self)@.k == old(self)@.k,
            old(self)@.cnt == old(self)@.k ==> r is None && final(self)@ == old(self)@,
            old(self)@.cnt < old(self)@.k ==> final(self)@ == advance(old(self)@) && (r matches
            Some(v) && v as nat == emitted(old(self)@)) && outputs(old(self)@) == seq![
                emitted(old(self)@),
            ] + outputs(final(self)@),
    {
        if self.cnt == self.k {
            return None;
        }
        if self.cnt == 0 {
            self.cnt = 1;
            self.hash1 = self.hash1 % self.n;
            self.hash2 = self.hash2 % self.n;
            return Some(self.hash1);
        }
        self.hash1 = add_mod_u128(self.hash1, self.hash2, self.n);
        self.hash2 = add_mod_u128(self.hash2, self.cnt, self.n);
        self.cnt = self.cnt + 1;
        Some(self.hash1)
    }

    /// The number of values still to come.
    pub fn len(&self) -> (r: usize)
        requires
            self.wf(),
            self@.k - self@.cnt <= usize::MAX,
        ensures
            r == self@.k - self@.cnt,
    {
        (self.k - self.cnt) as usize
    }

    /// Drains the cursor into a vector: exactly the remaining values, in
    /// emission order, each below the modulus.
    pub fn into_vec(self) -> (r: Vec<u128>)
        requires
            self.wf(),
        ensures
            r@.len() == self@.k - self@.cnt,
            forall|i: int| 0 <= i < r@.len() ==> r@[i] as nat == outputs(self@)[i],
            forall|i: int| 0 <= i < r@.len() ==> r@[i] < self@.n,
    {
        let mut it = self;
        let mut out: Vec<u128> = Vec::new();
        proof {
            lemma_outputs_len(self@);
            lemma_outputs_in_range(self@);
        }
        while it.cnt < it.k
            invariant
                it.wf(),
                out@.len() + outputs(it@).len() == outputs(self@).len(),
                outputs(it@) == outputs(self@).skip(out@.len() as int),
                forall|i: int| 0 <= i < out@.len() ==> out@[i] as nat == outputs(self@)[i],
            decreases it@.k - it@.cnt,
        {
            proof {
                lemma_outputs_len(it@);
            }
            let ghost prev = it@;
            let ghost done = out@.len() as int;
            let v: u128 = it.next().unwrap();
            out.push(v);
            proof {
                lemma_outputs_len(it@);
                assert(outputs(self@)[done] == outputs(prev)[0]);
                assert forall|j: int| 0 <= j < outputs(it@).len() implies outputs(it@)[j]
                    == outputs(self@)[done + 1 + j] by {
                    assert(outputs(it@)[j] == outputs(prev)[j + 1]);
                    assert(outputs(prev)[j + 1] == outputs(self@).skip(done)[j + 1]);
                }
                assert(outputs(it@) =~= outputs(self@).skip(done + 1));
            }
        }
        proof {
            lemma_outputs_len(it@);
        }
        out
    }
}
/// Independence of duplicated cursors at the 64-bit width: what a cursor
/// yields is a function of its state value alone, so two copies in equal
/// states yield the same remaining values — and since `next` takes `&mut
/// self` and its contract mentions no other state, advancing one copy
/// cannot change what the other yields.
pub proof fn lemma_duplicate_independence_u64(a: Hashes<u64>, b: Hashes<u64>)
    requires
        a@ == b@,
    ensures
        outputs(a@) == outputs(b@),
{
}

/// Independence of duplicated cursors at the 32-bit width; see
/// [`lemma_duplicate_independence_u64`].
pub proof fn lemma_duplicate_independence_u32(a: Hashes<u32>, b: Hashes<u32>)
    requires
        a@ == b@,
    ensures
        outputs(a@) == outputs(b@),
{
}

/// Independence of duplicated cursors at the 128-bit width; see
/// [`lemma_duplicate_independence_u64`].
pub proof fn lemma_duplicate_independence_u128(a: Hashes<u128>, b: Hashes<u128>)
    requires
        a@ == b@,
    ensures
        outputs(a@) == outputs(b@),
{
}

} // verus!
