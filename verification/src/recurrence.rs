//! Mathematical model of the enhanced double-hashing recurrence.
//!
//! The three generator widths share this one specification: a generator
//! state over unbounded naturals, the step function that one emission
//! performs on it, the sequence of values a state still yields, and the
//! lemmas that tie that sequence to the closed form
//! `h(i) = (h1 + i*h2 + (i^3 - i)/6) mod n`.

use vstd::prelude::*;

verus! {

use vstd::arithmetic::div_mod::{
    lemma_add_mod_noop, lemma_add_mod_noop_right, lemma_div_multiples_vanish,
};

/// A generator's state, abstracted to unbounded naturals: the two
/// forward-difference accumulators, the modulus, the requested number of
/// values, and how many have been emitted already.
pub ghost struct GenState {
    pub hash1: nat,
    pub hash2: nat,
    pub n: nat,
    pub k: nat,
    pub cnt: nat,
}

/// Well-formedness of a generator state: the modulus is positive, at most
/// `n` values are requested (the recurrence adds the emission counter to an
/// accumulator, so the counter itself must stay below the modulus), no more
/// than `k` values have been emitted, and once the first emission has
/// reduced them, both accumulators stay below the modulus.
pub open spec fn wf_state(s: GenState) -> bool {
    &&& s.n > 0
    &&& s.k <= s.n
    &&& s.cnt <= s.k
    &&& (s.cnt > 0 ==> s.hash1 < s.n && s.hash2 < s.n)
}

/// The first emission reduces both raw accumulators modulo `n`.
pub open spec fn first_touch(s: GenState) -> GenState {
    GenState {
        hash1: s.hash1 % s.n,
        hash2: s.hash2 % s.n,
        n: s.n,
        k: s.k,
        cnt: 1,
    }
}

/// Every later emission advances the accumulators by forward differencing:
/// the value accumulator absorbs the difference accumulator, and the
/// difference accumulator absorbs the emission counter.
pub open spec fn forward_step(s: GenState) -> GenState {
    GenState {
        hash1: (s.hash1 + s.hash2) % s.n,
        hash2: (s.hash2 + s.cnt) % s.n,
        n: s.n,
        k: s.k,
        cnt: s.cnt + 1,
    }
}

/// The state after one emission from `s`.
pub open spec fn advance(s: GenState) -> GenState {
    if s.cnt == 0 {
        first_touch(s)
    } else {
        forward_step(s)
    }
}

/// The value that one emission from `s` yields: the value accumulator as
/// the emission leaves it.
pub open spec fn emitted(s: GenState) -> nat {
    advance(s).hash1
}

/// The whole sequence of values a generator in state `s` still yields.
pub open spec fn outputs(s: GenState) -> Seq<nat>
    decreases s.k - s.cnt,
{
    if s.cnt >= s.k {
        Seq::empty()
    } else {
        seq![emitted(s)] + outputs(advance(s))
    }
}

/// The state a fresh generator starts in: raw accumulators, nothing emitted.
pub open spec fn fresh_state(hash1: nat, hash2: nat, n: nat, k: nat) -> GenState {
    GenState { hash1: hash1, hash2: hash2, n: n, k: k, cnt: 0 }
}

/// One emission preserves well-formedness.
pub proof fn lemma_advance_wf(s: GenState)
    requires
        wf_state(s),
        s.cnt < s.k,
    ensures
        wf_state(advance(s)),
{
}

/// A generator in state `s` yields exactly `k - cnt` further values.
pub proof fn lemma_outputs_len(s: GenState)
    requires
        s.cnt <= s.k,
    ensures
        outputs(s).len() == s.k - s.cnt,
    decreases s.k - s.cnt,
{
    if s.cnt < s.k {
        lemma_outputs_len(advance(s));
    }
}

/// Every value a well-formed generator yields lies in `[0, n)`.
pub proof fn lemma_outputs_in_range(s: GenState)
    requires
        wf_state(s),
    ensures
        forall|i: int| 0 <= i < outputs(s).len() ==> outputs(s)[i] < s.n,
    decreases s.k - s.cnt,
{
    if s.cnt < s.k {
        lemma_advance_wf(s);
        lemma_outputs_in_range(advance(s));
        assert forall|i: int| 0 <= i < outputs(s).len() implies outputs(s)[i] < s.n by {
            if i == 0 {
                assert(outputs(s)[0] == emitted(s));
            } else {
                assert(outputs(s)[i] == outputs(advance(s))[i - 1]);
            }
        }
    }
}

/// The difference accumulator after `i` emissions beyond the first, as a
/// function of the raw second accumulator: `b_0 = h2 mod n`,
/// `b_i = (b_(i-1) + i) mod n`.
pub open spec fn b_seq(hash2: nat, n: nat, i: nat) -> nat
    decreases i,
{
    if i == 0 {
        hash2 % n
    } else {
        (b_seq(hash2, n, (i - 1) as nat) + i) % n
    }
}

/// The `i`-th emitted value, as a function of the raw accumulators:
/// `a_0 = h1 mod n`, `a_i = (a_(i-1) + b_(i-1)) mod n`.
pub open spec fn a_seq(hash1: nat, hash2: nat, n: nat, i: nat) -> nat
    decreases i,
{
    if i == 0 {
        hash1 % n
    } else {
        (a_seq(hash1, hash2, n, (i - 1) as nat) + b_seq(hash2, n, (i - 1) as nat)) % n
    }
}

/// From a state whose accumulators hold `a_(c-1)` and `b_(c-1)`, the
/// remaining outputs are `a_c, a_(c+1), ...`.
proof fn lemma_outputs_mid(hash1: nat, hash2: nat, n: nat, k: nat, c: nat)
    requires
        n > 0,
        1 <= c <= k,
    ensures
        outputs(
            GenState {
                hash1: a_seq(hash1, hash2, n, (c - 1) as nat),
                hash2: b_seq(hash2, n, (c - 1) as nat),
                n: n,
                k: k,
                cnt: c,
            },
        ) == Seq::new((k - c) as nat, |j: int| a_seq(hash1, hash2, n, (c + j) as nat)),
    decreases k - c,
{
    let s = GenState {
        hash1: a_seq(hash1, hash2, n, (c - 1) as nat),
        hash2: b_seq(hash2, n, (c - 1) as nat),
        n: n,
        k: k,
        cnt: c,
    };
    if c == k {
        assert(outputs(s) =~= Seq::new((k - c) as nat, |j: int| a_seq(hash1, hash2, n, (c + j) as nat)));
    } else {
        assert(advance(s) == (GenState {
            hash1: a_seq(hash1, hash2, n, c),
            hash2: b_seq(hash2, n, c),
            n: n,
            k: k,
            cnt: (c + 1) as nat,
        }));
        lemma_outputs_mid(hash1, hash2, n, k, (c + 1) as nat);
        assert(outputs(s) =~= Seq::new((k - c) as nat, |j: int| a_seq(hash1, hash2, n, (c + j) as nat)));
    }
}

/// A fresh generator's outputs are exactly the recurrence values
/// `a_0, ..., a_(k-1)`.
pub proof fn lemma_outputs_are_a_seq(hash1: nat, hash2: nat, n: nat, k: nat)
    requires
        n > 0,
    ensures
        outputs(fresh_state(hash1, hash2, n, k)) == Seq::new(
            k,
            |i: int| a_seq(hash1, hash2, n, i as nat),
        ),
{
    let s = fresh_state(hash1, hash2, n, k);
    if k == 0 {
        assert(outputs(s) =~= Seq::new(k, |i: int| a_seq(hash1, hash2, n, i as nat)));
    } else {
        lemma_outputs_mid(hash1, hash2, n, k, 1);
        assert(outputs(s) =~= Seq::new(k, |i: int| a_seq(hash1, hash2, n, i as nat)));
    }
}

/// The `i`-th triangular number, built by the same forward differencing the
/// generator uses: `0, 1, 3, 6, ...`.
pub open spec fn tri(i: nat) -> nat
    decreases i,
{
    if i == 0 {
        0
    } else {
        tri((i - 1) as nat) + i
    }
}

/// The cubic correction term of enhanced double hashing, built as the
/// running sum of triangular numbers; `lemma_cubic_value` shows it equals
/// `(i^3 - i) / 6`.
pub open spec fn cubic(i: nat) -> nat
    decreases i,
{
    if i == 0 {
        0
    } else {
        cubic((i - 1) as nat) + tri((i - 1) as nat)
    }
}

/// `tri(i)` is `i * (i + 1) / 2`, stated multiplicatively.
pub proof fn lemma_tri_value(i: nat)
    ensures
        2 * tri(i) == i * (i + 1),
    decreases i,
{
    if i > 0 {
        lemma_tri_value((i - 1) as nat);
        assert(2 * tri(i) == i * (i + 1)) by (nonlinear_arith)
            requires
                2 * tri((i - 1) as nat) == (i - 1) * i,
                tri(i) == tri((i - 1) as nat) + i,
                i > 0,
        ;
    } else {
        assert(2 * tri(i) == i * (i + 1)) by (nonlinear_arith)
            requires
                i == 0,
                tri(i) == 0,
        ;
    }
}

/// `cubic(i)` is `(i^3 - i) / 6`, stated multiplicatively.
pub proof fn lemma_cubic_value(i: nat)
    ensures
        6 * cubic(i) == i * i * i - i,
    decreases i,
{
    if i > 0 {
        lemma_cubic_value((i - 1) as nat);
        lemma_tri_value((i - 1) as nat);
        assert(6 * cubic(i) == i * i * i - i) by (nonlinear_arith)
            requires
                6 * cubic((i - 1) as nat) == (i - 1) * (i - 1) * (i - 1) - (i - 1),
                2 * tri((i - 1) as nat) == (i - 1) * i,
                cubic(i) == cubic((i - 1) as nat) + tri((i - 1) as nat),
                i > 0,
        ;
    } else {
        assert(6 * cubic(i) == i * i * i - i) by (nonlinear_arith)
            requires
                i == 0,
                cubic(i) == 0,
        ;
    }
}

/// The difference accumulator in closed form: `b_i = (h2 + tri(i)) mod n`.
proof fn lemma_b_closed(hash2: nat, n: nat, i: nat)
    requires
        n > 0,
    ensures
        b_seq(hash2, n, i) == (hash2 + tri(i)) % n,
    decreases i,
{
    if i > 0 {
        lemma_b_closed(hash2, n, (i - 1) as nat);
        lemma_add_mod_noop_right(i as int, (hash2 + tri((i - 1) as nat)) as int, n as int);
    }
}

/// The emitted values in closed form: `a_i = (h1 + i*h2 + cubic(i)) mod n`.
proof fn lemma_a_closed(hash1: nat, hash2: nat, n: nat, i: nat)
    requires
        n > 0,
    ensures
        a_seq(hash1, hash2, n, i) == (hash1 + i * hash2 + cubic(i)) % n,
    decreases i,
{
    if i > 0 {
        let ip = (i - 1) as nat;
        lemma_a_closed(hash1, hash2, n, ip);
        lemma_b_closed(hash2, n, ip);
        lemma_add_mod_noop(
            (hash1 + ip * hash2 + cubic(ip)) as int,
            (hash2 + tri(ip)) as int,
            n as int,
        );
        assert(ip * hash2 + hash2 == i * hash2) by (nonlinear_arith)
            requires
                ip == i - 1,
        ;
    } else {
        assert(i * hash2 == 0) by (nonlinear_arith)
            requires
                i == 0,
        ;
    }
}

/// The closed form of enhanced double hashing: the `i`-th value a fresh
/// generator yields is `(h1 + i*h2 + (i^3 - i)/6) mod n`.
pub proof fn lemma_closed_form(hash1: nat, hash2: nat, n: nat, k: nat, i: nat)
    requires
        n > 0,
        i < k,
    ensures
        outputs(fresh_state(hash1, hash2, n, k))[i as int] == (hash1 + i * hash2 + (i * i * i
            - i) / 6) % (n as int),
{
    lemma_outputs_are_a_seq(hash1, hash2, n, k);
    lemma_a_closed(hash1, hash2, n, i);
    lemma_cubic_value(i);
    lemma_div_multiples_vanish(cubic(i) as int, 6);
    assert(6 * (cubic(i) as int) == i * i * i - i);
    assert((6 * (cubic(i) as int)) / 6 == cubic(i) as int);
}

/// Recurrence conformance, as a statement about the emitted values alone:
/// beyond the first value, each output is the previous one plus the running
/// difference, modulo `n`, and the running difference grows by the step
/// index, modulo `n`.
pub proof fn lemma_recurrence(hash1: nat, hash2: nat, n: nat, k: nat, i: nat)
    requires
        n > 0,
        1 <= i < k,
    ensures
        outputs(fresh_state(hash1, hash2, n, k))[i as int] == (outputs(
            fresh_state(hash1, hash2, n, k),
        )[i - 1] + b_seq(hash2, n, (i - 1) as nat)) % n,
        b_seq(hash2, n, i) == (b_seq(hash2, n, (i - 1) as nat) + i) % n,
{
    lemma_outputs_are_a_seq(hash1, hash2, n, k);
}

} // verus!
