//! The tabulated proxy-sampling scheme: density-table indexing and the
//! signed work accounting of its normalization-correction loop.
//!
//! The proxy strategy precomputes, per emitter and per bucket of
//! (position on the light, phase bias), a discretized angular density.
//! At render time a signed rejection/extension loop corrects the
//! tabulation bias: it keeps a signed counter of pending work units and
//! a hard iteration budget, draws one candidate angle per unit, and
//! splits each residual into new signed units by stochastic rounding.

use vstd::prelude::*;

verus! {

/// Resolution of the position-on-light buckets along the first light
/// edge; the second edge uses `8 * S_SIZE` buckets.
pub const S_SIZE: usize = 20;

/// Resolution of the phase-bias buckets.
pub const E_SIZE: usize = 100;

/// Resolution of the discretized angle variable inside one table entry.
pub const X_SIZE: usize = 1000;

/// Hard cap on the correction loop's iterations.
pub const MAX_CORRECTION_ITERATIONS: usize = 1000;

/// Fixed-point scale of probabilities and residual magnitudes: a value
/// `v` stands for the real number `v / UNIT_SCALE`.
pub const UNIT_SCALE: u64 = 1_000_000;

/// Clamps a discretized coordinate to its bucket range.
///
/// A coordinate in `[0, 1]` scaled by `size` and truncated lands in
/// `0 ..= size`; the boundary value `size` belongs to the last bucket.
pub fn bucket_index(scaled: usize, size: usize) -> (i: usize)
    requires
        0 < size,
        scaled <= size,
    ensures
        i == if scaled == size { (size - 1) as int } else { scaled as int },
        i < size,
{
    if scaled == size {
        size - 1
    } else {
        scaled
    }
}

/// Position of the bucket `(light, u, v, e)` in a flat table that stores
/// one entry per emitter, position bucket pair, and phase-bias bucket.
pub open spec fn spec_table_index(light: int, u: int, v: int, e: int) -> int {
    ((light * S_SIZE + u) * (8 * S_SIZE) + v) * E_SIZE + e
}

/// Number of entries of a flat density table for `n_lights` emitters.
pub open spec fn spec_table_len(n_lights: int) -> int {
    n_lights * (S_SIZE * (8 * S_SIZE) * E_SIZE)
}

/// A bucket tuple's flat position is nonnegative and below the table
/// length, and so are the partial products on the way to it.
proof fn lemma_table_index_bounds(li: int, ui: int, vi: int, ei: int, nl: int)
    requires
        0 <= li < nl,
        0 <= ui < 20,
        0 <= vi < 160,
        0 <= ei < 100,
    ensures
        li * 20 + ui < nl * 20,
        (li * 20 + ui) * 160 + vi < nl * 3200,
        ((li * 20 + ui) * 160 + vi) * 100 + ei < nl * 320000,
        nl * 20 <= nl * 320000,
        nl * 3200 <= nl * 320000,
{
    assert(li * 20 + ui < nl * 20
        && (li * 20 + ui) * 160 + vi < nl * 3200
        && ((li * 20 + ui) * 160 + vi) * 100 + ei < nl * 320000
        && nl * 20 <= nl * 320000
        && nl * 3200 <= nl * 320000) by (nonlinear_arith)
        requires
            0 <= li < nl,
            0 <= ui < 20,
            0 <= vi < 160,
            0 <= ei < 100,
    ;
}

/// Flat position of the table entry for emitter `light`, position
/// buckets `u` and `v`, and phase-bias bucket `e`.
pub fn table_index(light: usize, u: usize, v: usize, e: usize, n_lights: usize) -> (idx: usize)
    requires
        light < n_lights,
        u < S_SIZE,
        v < 8 * S_SIZE,
        e < E_SIZE,
        spec_table_len(n_lights as int) <= usize::MAX,
    ensures
        idx == spec_table_index(light as int, u as int, v as int, e as int),
        idx < spec_table_len(n_lights as int),
{
    proof {
        lemma_table_index_bounds(
            light as int,
            u as int,
            v as int,
            e as int,
            n_lights as int,
        );
        assert(S_SIZE == 20 && E_SIZE == 100);
        assert(spec_table_len(n_lights as int) == n_lights * 320000);
    }
    ((light * S_SIZE + u) * (8 * S_SIZE) + v) * E_SIZE + e
}

/// Distinct bucket coordinates occupy distinct flat positions: the flat
/// table loses nothing.
pub proof fn lemma_table_index_injective(
    light1: int, u1: int, v1: int, e1: int,
    light2: int, u2: int, v2: int, e2: int,
)
    requires
        0 <= light1,
        0 <= u1 < S_SIZE,
        0 <= v1 < 8 * S_SIZE,
        0 <= e1 < E_SIZE,
        0 <= light2,
        0 <= u2 < S_SIZE,
        0 <= v2 < 8 * S_SIZE,
        0 <= e2 < E_SIZE,
        spec_table_index(light1, u1, v1, e1) == spec_table_index(light2, u2, v2, e2),
    ensures
        light1 == light2,
        u1 == u2,
        v1 == v2,
        e1 == e2,
{
    let a1 = (light1 * S_SIZE + u1) * (8 * S_SIZE) + v1;
    let a2 = (light2 * S_SIZE + u2) * (8 * S_SIZE) + v2;
    assert(a1 * E_SIZE + e1 == a2 * E_SIZE + e2);
    assert(a1 == a2 && e1 == e2) by (nonlinear_arith)
        requires
            a1 * E_SIZE + e1 == a2 * E_SIZE + e2,
            0 <= e1 < E_SIZE,
            0 <= e2 < E_SIZE,
            E_SIZE == 100,
    ;
    let b1 = light1 * S_SIZE + u1;
    let b2 = light2 * S_SIZE + u2;
    assert(b1 == b2 && v1 == v2) by (nonlinear_arith)
        requires
            b1 * (8 * S_SIZE) + v1 == b2 * (8 * S_SIZE) + v2,
            0 <= v1 < 8 * S_SIZE,
            0 <= v2 < 8 * S_SIZE,
            S_SIZE == 20,
    ;
    assert(light1 == light2 && u1 == u2) by (nonlinear_arith)
        requires
            light1 * S_SIZE + u1 == light2 * S_SIZE + u2,
            0 <= u1 < S_SIZE,
            0 <= u2 < S_SIZE,
            S_SIZE == 20,
    ;
}

/// A product with a sign factor is the value itself or its negation.
proof fn lemma_signed_unit_product(d: int, r: int)
    requires
        d == 1 || d == -1,
    ensures
        d * r == if d == 1 { r } else { -r },
{
    assert(d * r == if d == 1 { r } else { -r }) by (nonlinear_arith)
        requires
            d == 1 || d == -1,
    ;
}

/// The signed work accounting of the normalization-correction loop.
///
/// The counter starts at one pending unit of positive work.  Every
/// iteration removes one unit of the counter's current sign, evaluates
/// one candidate angle, and pushes back the stochastically rounded
/// residual — negated when the candidate overshot its envelope — until
/// no work is pending or the iteration budget is spent.
#[derive(PartialEq, Eq, Structural, Clone, Copy, Debug)]
pub struct CorrectionLoop {
    /// Signed number of outstanding work units.
    pub pending: i64,
    /// Iterations still allowed before the series is truncated.
    pub budget: usize,
}

impl CorrectionLoop {
    /// The budget never exceeds the hard cap, so the number of spent
    /// iterations is always defined.
    pub open spec fn wf(self) -> bool {
        self.budget <= MAX_CORRECTION_ITERATIONS
    }

    /// A fresh loop: one positive unit of pending work, full budget.
    pub fn new() -> (state: CorrectionLoop)
        ensures
            state.pending == 1,
            state.budget == MAX_CORRECTION_ITERATIONS,
            state.wf(),
    {
        CorrectionLoop { pending: 1, budget: MAX_CORRECTION_ITERATIONS }
    }

    /// The loop runs while work is pending and budget remains.
    pub fn active(&self) -> (a: bool)
        ensures
            a == (self.pending != 0 && self.budget > 0),
    {
        self.pending != 0 && self.budget > 0
    }

    /// The sign of the work unit the next iteration removes.
    pub fn current_sign(&self) -> (s: i64)
        requires
            self.pending != 0,
        ensures
            s == if self.pending > 0 { 1int } else { -1int },
    {
        if self.pending > 0 {
            1
        } else {
            -1
        }
    }

    /// One iteration of the correction loop, after the candidate angle
    /// was evaluated: removes the unit that was taken, then pushes
    /// `r_round` new units of the same sign — or of the opposite sign
    /// when `flip` says the candidate overshot its envelope.  The sign
    /// flip is applied before the rounded magnitude, never after.
    pub fn step(&mut self, flip: bool, r_round: u32)
        requires
            old(self).wf(),
            old(self).pending != 0,
            old(self).budget > 0,
            i64::MIN + r_round + 1 < old(self).pending,
            old(self).pending < i64::MAX - r_round - 1,
        ensures
            final(self).wf(),
            final(self).budget == old(self).budget - 1,
            ({
                let s: int = if old(self).pending > 0 { 1int } else { -1int };
                let d: int = if flip { -s } else { s };
                final(self).pending == old(self).pending - s + d * r_round
            }),
    {
        let was_positive = self.pending > 0;
        let delta: i64 = r_round as i64;
        let removed: i64 = if was_positive {
            self.pending - 1
        } else {
            self.pending + 1
        };
        self.pending = if was_positive != flip {
            removed + delta
        } else {
            removed - delta
        };
        self.budget = self.budget - 1;
        proof {
            let s: int = if old(self).pending > 0 { 1int } else { -1int };
            let d: int = if flip { -s } else { s };
            lemma_signed_unit_product(d, r_round as int);
        }
    }

    /// How many candidate evaluations the loop has performed.
    pub fn iterations_used(&self) -> (n: usize)
        requires
            self.wf(),
        ensures
            n == MAX_CORRECTION_ITERATIONS - self.budget,
    {
        MAX_CORRECTION_ITERATIONS - self.budget
    }
}

/// Splits a fixed-point residual magnitude into a whole number of work
/// units: the integer part, plus one more with probability equal to the
/// fractional part (`u` is a uniform fixed-point draw from `[0, 1)`).
pub fn stochastic_round(magnitude: u64, u: u64) -> (r: u64)
    requires
        u < UNIT_SCALE,
    ensures
        r == magnitude / UNIT_SCALE + if u < magnitude % UNIT_SCALE { 1int } else { 0int },
{
    let whole = magnitude / UNIT_SCALE;
    let frac = magnitude % UNIT_SCALE;
    if u < frac {
        whole + 1
    } else {
        whole
    }
}

} // verus!
