//! Xorshift64 pseudo-random generator that drives the random projections of
//! the sliced Wasserstein distance.
//!
//! A draw advances a 64-bit state by three xor-shift steps; the caller turns
//! the new state into a number in the unit interval.

use vstd::prelude::*;

verus! {

/// One xorshift64 step: shifts by 13 left, 7 right and 17 left.
pub open spec fn xorshift64_spec(s: u64) -> u64 {
    let s1 = s ^ (s << 13u64);
    let s2 = s1 ^ (s1 >> 7u64);
    s2 ^ (s2 << 17u64)
}

/// The state after `k` steps from `s`.
pub open spec fn xorshift64_iter(s: u64, k: nat) -> u64
    decreases k,
{
    if k == 0 {
        s
    } else {
        xorshift64_spec(xorshift64_iter(s, (k - 1) as nat))
    }
}

/// Advances the generator by one step and returns the new state.
pub fn xorshift64_step(state: &mut u64) -> (r: u64)
    ensures
        *final(state) == xorshift64_spec(*old(state)),
        r == *final(state),
        ({
            let t1 = *old(state) ^ (*old(state) << 13u64);
            let t2 = t1 ^ (t1 >> 7u64);
            r == t2 ^ (t2 << 17u64)
        }),
{
    let s: u64 = *state;
    let s1: u64 = s ^ (s << 13u64);
    let s2: u64 = s1 ^ (s1 >> 7u64);
    let s3: u64 = s2 ^ (s2 << 17u64);
    *state = s3;
    s3
}


/// The all-zero state is a fixed point: a generator seeded with zero
/// produces zero forever.
pub proof fn lemma_xorshift64_zero_is_fixed()
    ensures
        xorshift64_spec(0u64) == 0u64,
{
    assert(xorshift64_spec(0u64) == 0u64) by (bit_vector);
}

/// A nonzero state never becomes zero, so a generator seeded with a nonzero
/// value never draws the value zero.
pub proof fn lemma_xorshift64_nonzero(s: u64)
    requires
        s != 0,
    ensures
        xorshift64_spec(s) != 0,
{
    let s1 = s ^ (s << 13u64);
    let s2 = s1 ^ (s1 >> 7u64);
    assert(s1 != 0) by (bit_vector)
        requires
            s != 0,
            s1 == s ^ (s << 13u64),
    ;
    assert(s2 != 0) by (bit_vector)
        requires
            s1 != 0,
            s2 == s1 ^ (s1 >> 7u64),
    ;
    assert(s2 ^ (s2 << 17u64) != 0) by (bit_vector)
        requires
            s2 != 0,
    ;
}

/// Distinct states step to distinct states: one step is a permutation of the
/// 64-bit states.
pub proof fn lemma_xorshift64_injective(s: u64, t: u64)
    requires
        xorshift64_spec(s) == xorshift64_spec(t),
    ensures
        s == t,
{
    let s1 = s ^ (s << 13u64);
    let s2 = s1 ^ (s1 >> 7u64);
    let t1 = t ^ (t << 13u64);
    let t2 = t1 ^ (t1 >> 7u64);
    assert(s2 == t2) by (bit_vector)
        requires
            s2 ^ (s2 << 17u64) == t2 ^ (t2 << 17u64),
    ;
    assert(s1 == t1) by (bit_vector)
        requires
            s1 ^ (s1 >> 7u64) == t1 ^ (t1 >> 7u64),
    ;
    assert(s == t) by (bit_vector)
        requires
            s ^ (s << 13u64) == t ^ (t << 13u64),
    ;
}


/// Stepping `k` times and then `l` times is stepping `k + l` times.
pub proof fn lemma_xorshift64_iter_add(s: u64, k: nat, l: nat)
    ensures
        xorshift64_iter(xorshift64_iter(s, k), l) == xorshift64_iter(s, k + l),
    decreases l,
{
    if l > 0 {
        lemma_xorshift64_iter_add(s, k, (l - 1) as nat);
        assert(((k + l) - 1) as nat == k + (l - 1) as nat);
    }
}

/// Each further step applies one xorshift64 step to the state reached so
/// far: the states are the successive results of `xorshift64_step`.
pub proof fn lemma_xorshift64_iter_succ(s: u64, k: nat)
    ensures
        xorshift64_iter(s, k + 1) == xorshift64_spec(xorshift64_iter(s, k)),
        xorshift64_iter(s, 1) == xorshift64_spec(s),
        xorshift64_iter(s, 0) == s,
{
    assert(xorshift64_iter(s, 0) == s);
    assert(xorshift64_iter(s, 1) == xorshift64_spec(xorshift64_iter(s, 0)));
}

/// One step is linear over bitwise xor: stepping `a ^ b` gives the xor of
/// the steps of `a` and of `b`.
pub proof fn lemma_xorshift64_linear(a: u64, b: u64)
    ensures
        xorshift64_spec(a ^ b) == xorshift64_spec(a) ^ xorshift64_spec(b),
{
    let a1 = a ^ (a << 13u64);
    let b1 = b ^ (b << 13u64);
    let c = a ^ b;
    let c1 = c ^ (c << 13u64);
    assert(c1 == a1 ^ b1) by (bit_vector)
        requires
            c == a ^ b,
            a1 == a ^ (a << 13u64),
            b1 == b ^ (b << 13u64),
            c1 == c ^ (c << 13u64),
    ;
    let a2 = a1 ^ (a1 >> 7u64);
    let b2 = b1 ^ (b1 >> 7u64);
    let c2 = c1 ^ (c1 >> 7u64);
    assert(c2 == a2 ^ b2) by (bit_vector)
        requires
            c1 == a1 ^ b1,
            a2 == a1 ^ (a1 >> 7u64),
            b2 == b1 ^ (b1 >> 7u64),
            c2 == c1 ^ (c1 >> 7u64),
    ;
    assert(c2 ^ (c2 << 17u64) == (a2 ^ (a2 << 17u64)) ^ (b2 ^ (b2 << 17u64))) by (bit_vector)
        requires
            c2 == a2 ^ b2,
    ;
}

/// Seeded with zero, the generator stays at zero after any number of steps.
pub proof fn lemma_xorshift64_iter_zero(k: nat)
    ensures
        xorshift64_iter(0u64, k) == 0u64,
    decreases k,
{
    if k > 0 {
        lemma_xorshift64_iter_zero((k - 1) as nat);
        lemma_xorshift64_zero_is_fixed();
    }
}

/// Seeded with a nonzero value, the generator is nonzero after any number of
/// steps: no draw of it is zero.
pub proof fn lemma_xorshift64_iter_nonzero(s: u64, k: nat)
    requires
        s != 0,
    ensures
        xorshift64_iter(s, k) != 0,
    decreases k,
{
    if k > 0 {
        lemma_xorshift64_iter_nonzero(s, (k - 1) as nat);
        lemma_xorshift64_nonzero(xorshift64_iter(s, (k - 1) as nat));
    }
}

/// State substituted for the seed zero, which xorshift64 would keep at zero
/// forever: the 64-bit golden-ratio constant.
pub const ZERO_SEED_STATE: u64 = 0x9E37_79B9_7F4A_7C15u64;

/// The starting state of the generator for a seed: the seed itself, except
/// that zero, a fixed point of xorshift64, is replaced by `ZERO_SEED_STATE`.
pub open spec fn seed_state_spec(seed: u64) -> u64 {
    if seed == 0 {
        ZERO_SEED_STATE
    } else {
        seed
    }
}

/// Computes the starting state of the generator for a seed, so that every
/// seed gives a stream of nonzero draws, that is values in (0, 1) once
/// divided by the largest state.
pub fn seed_state(seed: u64) -> (s: u64)
    ensures
        s == seed_state_spec(seed),
        s != 0,
        seed != 0 ==> s == seed,
        seed == 0 ==> s == ZERO_SEED_STATE,
{
    if seed == 0 {
        ZERO_SEED_STATE
    } else {
        seed
    }
}

/// Whatever the seed, no draw of the generator started from its seeded
/// state is zero.
pub proof fn lemma_seeded_draws_nonzero(seed: u64, k: nat)
    ensures
        xorshift64_iter(seed_state_spec(seed), k) != 0,
{
    lemma_xorshift64_iter_nonzero(seed_state_spec(seed), k);
}

/// The raw draws for one random direction in `dim` dimensions: two
/// consecutive states per coordinate, the pair that a Box-Muller transform
/// turns into one normal sample.
///
/// Coordinate `i` gets the states after `2 i + 1` and `2 i + 2` steps, and
/// the generator is left `2 dim` steps further on.
pub fn direction_draws(dim: usize, state: &mut u64) -> (draws: Vec<(u64, u64)>)
    ensures
        draws@.len() == dim,
        forall|i: int|
            0 <= i < dim ==> #[trigger] draws@[i] == (
                xorshift64_iter(*old(state), (2 * i + 1) as nat),
                xorshift64_iter(*old(state), (2 * i + 2) as nat),
            ),
        *final(state) == xorshift64_iter(*old(state), (2 * dim) as nat),
        dim > 0 ==> draws@[0].0 == xorshift64_spec(*old(state)),
        forall|i: int| 0 <= i < dim ==> #[trigger] draws@[i].1 == xorshift64_spec(draws@[i].0),
        forall|i: int|
            0 <= i < dim - 1 ==> #[trigger] draws@[i + 1].0 == xorshift64_spec(draws@[i].1),
        dim > 0 ==> *final(state) == draws@[dim - 1].1,
        dim == 0 ==> *final(state) == *old(state),
{
    let ghost seed: u64 = *state;
    let mut draws: Vec<(u64, u64)> = Vec::with_capacity(dim);
    let mut i: usize = 0;
    while i < dim
        invariant
            i <= dim,
            draws@.len() == i,
            *state == xorshift64_iter(seed, (2 * i) as nat),
            forall|k: int|
                0 <= k < i ==> #[trigger] draws@[k] == (
                    xorshift64_iter(seed, (2 * k + 1) as nat),
                    xorshift64_iter(seed, (2 * k + 2) as nat),
                ),
        decreases dim - i,
    {
        let u1: u64 = xorshift64_step(state);
        let u2: u64 = xorshift64_step(state);
        assert(u1 == xorshift64_iter(seed, (2 * i + 1) as nat));
        assert(u2 == xorshift64_iter(seed, (2 * i + 2) as nat));
        draws.push((u1, u2));
        i = i + 1;
        assert(*state == xorshift64_iter(seed, (2 * i) as nat));
    }
    proof {
        lemma_xorshift64_iter_succ(seed, 0);
    }
    draws
}

/// The raw draws of all random directions of a sliced distance: projection
/// `l` gets the draws that `direction_draws` makes after `l` earlier
/// directions, from the state that `seed_state` gives for `seed`.
///
/// The draws depend on `seed`, `dim` and `n_projections` alone, so a seed
/// reproduces its directions, and none of the draws is zero.
pub fn projection_draws(dim: usize, n_projections: usize, seed: u64) -> (draws: Vec<
    Vec<(u64, u64)>,
>)
    ensures
        draws@.len() == n_projections,
        forall|l: int|
            0 <= l < n_projections ==> (#[trigger] draws@[l])@.len() == dim,
        forall|l: int, i: int|
            0 <= l < n_projections && 0 <= i < dim ==> #[trigger] draws@[l]@[i] == (
                xorshift64_iter(seed_state_spec(seed), (2 * dim * l + 2 * i + 1) as nat),
                xorshift64_iter(seed_state_spec(seed), (2 * dim * l + 2 * i + 2) as nat),
            ),
        n_projections > 0 && dim > 0 ==> draws@[0]@[0].0 == xorshift64_spec(
            seed_state_spec(seed),
        ),
        forall|l: int, i: int|
            0 <= l < n_projections && 0 <= i < dim ==> #[trigger] draws@[l]@[i].1
                == xorshift64_spec(draws@[l]@[i].0),
        forall|l: int, i: int|
            0 <= l < n_projections && 0 <= i < dim - 1 ==> #[trigger] draws@[l]@[i + 1].0
                == xorshift64_spec(draws@[l]@[i].1),
        forall|l: int|
            0 <= l < n_projections - 1 && dim > 0 ==> #[trigger] draws@[l + 1]@[0].0
                == xorshift64_spec(draws@[l]@[dim - 1].1),
{
    let mut state: u64 = seed_state(seed);
    let ghost start: u64 = state;
    let mut draws: Vec<Vec<(u64, u64)>> = Vec::with_capacity(n_projections);
    let mut l: usize = 0;
    while l < n_projections
        invariant
            l <= n_projections,
            start == seed_state_spec(seed),
            draws@.len() == l,
            state == xorshift64_iter(start, (2 * dim * l) as nat),
            forall|p: int| 0 <= p < l ==> (#[trigger] draws@[p])@.len() == dim,
            forall|p: int, i: int|
                0 <= p < l && 0 <= i < dim ==> #[trigger] draws@[p]@[i] == (
                    xorshift64_iter(start, (2 * dim * p + 2 * i + 1) as nat),
                    xorshift64_iter(start, (2 * dim * p + 2 * i + 2) as nat),
                ),
        decreases n_projections - l,
    {
        let ghost before: u64 = state;
        let row = direction_draws(dim, &mut state);
        proof {
            assert forall|i: int| 0 <= i < dim implies #[trigger] row@[i] == (
                xorshift64_iter(start, (2 * dim * l + 2 * i + 1) as nat),
                xorshift64_iter(start, (2 * dim * l + 2 * i + 2) as nat),
            ) by {
                lemma_xorshift64_iter_add(start, (2 * dim * l) as nat, (2 * i + 1) as nat);
                lemma_xorshift64_iter_add(start, (2 * dim * l) as nat, (2 * i + 2) as nat);
            }
            lemma_xorshift64_iter_add(start, (2 * dim * l) as nat, (2 * dim) as nat);
            assert(2 * dim * l + 2 * dim == 2 * dim * (l + 1)) by (nonlinear_arith);
        }
        draws.push(row);
        l = l + 1;
    }
    proof {
        assert forall|p: int, i: int|
            0 <= p < n_projections && 0 <= i < dim implies #[trigger] draws@[p]@[i].1
                == xorshift64_spec(draws@[p]@[i].0) by {
            lemma_xorshift64_iter_succ(start, (2 * dim * p + 2 * i + 1) as nat);
        }
        assert forall|p: int, i: int|
            0 <= p < n_projections && 0 <= i < dim - 1 implies #[trigger] draws@[p]@[i + 1].0
                == xorshift64_spec(draws@[p]@[i].1) by {
            lemma_xorshift64_iter_succ(start, (2 * dim * p + 2 * i + 2) as nat);
        }
        assert forall|p: int|
            0 <= p < n_projections - 1 && dim > 0 implies #[trigger] draws@[p + 1]@[0].0
                == xorshift64_spec(draws@[p]@[dim - 1].1) by {
            assert(2 * dim * p + 2 * (dim - 1) + 2 == 2 * dim * (p + 1)) by (nonlinear_arith);
            assert(2 * dim * (p + 1) >= 0) by (nonlinear_arith)
                requires
                    p >= 0,
            ;
            lemma_xorshift64_iter_succ(start, (2 * dim * (p + 1)) as nat);
        }
        if n_projections > 0 && dim > 0 {
            lemma_xorshift64_iter_succ(start, 0);
            assert(draws@[0]@[0].0 == xorshift64_iter(start, 1));
        }
    }
    draws
}

} // verus!
