//! Photon-plane variants, combination strategies, and the batch plan of
//! the single-scattering plane estimator.

use vstd::prelude::*;

use crate::structure::Color;

verus! {

/// The four ways a photon plane can be generated from a rectangular
/// emitter.  `UV` spans the light surface itself, `VT` and `UT` span one
/// light edge and the sampled flight direction, and `UAlphaT` spans a
/// chord of the light rectangle (chosen by a free angle parameter) and
/// the flight direction.
#[derive(PartialEq, Eq, Structural, Clone, Copy, Debug)]
pub enum PlaneType {
    UV,
    VT,
    UT,
    UAlphaT,
}

/// How per-intersection contributions are weighted and combined.  The
/// first three use a single plane variant alone; `Average` and
/// `DiscreteMIS` draw all three of `UV`, `VT`, `UT` per sample point; the
/// remaining strategies combine `UAlphaT` planes, whose free angle
/// parameter can be resampled without changing the path's endpoints.
#[derive(PartialEq, Eq, Structural, Clone, Copy, Debug)]
pub enum SinglePlaneStrategy {
    UV,
    VT,
    UT,
    Average,
    DiscreteMIS,
    UAlpha,
    ContinousMIS,
    SMISAll(usize),
    SMISJacobian(usize),
    ProxySample,
}

impl SinglePlaneStrategy {
    /// The plane variants that one generation draw produces under this
    /// strategy, in generation order.
    pub open spec fn spec_draw_types(self) -> Seq<PlaneType> {
        match self {
            SinglePlaneStrategy::UV => seq![PlaneType::UV],
            SinglePlaneStrategy::VT => seq![PlaneType::VT],
            SinglePlaneStrategy::UT => seq![PlaneType::UT],
            SinglePlaneStrategy::Average | SinglePlaneStrategy::DiscreteMIS => seq![
                PlaneType::UV,
                PlaneType::VT,
                PlaneType::UT,
            ],
            _ => seq![PlaneType::UAlphaT],
        }
    }

    /// The plane variants of one generation draw, as executable data.
    pub fn draw_types(&self) -> (types: Vec<PlaneType>)
        ensures
            types@ == self.spec_draw_types(),
    {
        match self {
            SinglePlaneStrategy::UV => {
                let types = vec![PlaneType::UV];
                proof { assert(types@ =~= self.spec_draw_types()); }
                types
            }
            SinglePlaneStrategy::VT => {
                let types = vec![PlaneType::VT];
                proof { assert(types@ =~= self.spec_draw_types()); }
                types
            }
            SinglePlaneStrategy::UT => {
                let types = vec![PlaneType::UT];
                proof { assert(types@ =~= self.spec_draw_types()); }
                types
            }
            SinglePlaneStrategy::Average | SinglePlaneStrategy::DiscreteMIS => {
                let types = vec![PlaneType::UV, PlaneType::VT, PlaneType::UT];
                proof { assert(types@ =~= self.spec_draw_types()); }
                types
            }
            _ => {
                let types = vec![PlaneType::UAlphaT];
                proof { assert(types@ =~= self.spec_draw_types()); }
                types
            }
        }
    }

    /// How many planes one generation draw produces: three for the
    /// strategies that pair every `UV` plane with a `VT` and a `UT`
    /// plane, one for all others.
    pub fn planes_per_draw(&self) -> (n: usize)
        ensures
            n == self.spec_draw_types().len(),
            n == 1 || n == 3,
            (n == 3) == (self is Average || self is DiscreteMIS),
    {
        match self {
            SinglePlaneStrategy::Average | SinglePlaneStrategy::DiscreteMIS => 3,
            _ => 1,
        }
    }

    /// The number of stochastic-MIS samples, for the two SMIS strategies.
    pub fn smis_sample_count(&self) -> (n: Option<usize>)
        ensures
            n == match *self {
                SinglePlaneStrategy::SMISAll(k) => Some(k),
                SinglePlaneStrategy::SMISJacobian(k) => Some(k),
                _ => None::<usize>,
            },
    {
        match self {
            SinglePlaneStrategy::SMISAll(k) => Some(*k),
            SinglePlaneStrategy::SMISJacobian(k) => Some(*k),
            _ => None,
        }
    }

    /// A configuration is valid unless an SMIS strategy asks for zero
    /// samples; that is a fatal configuration error at setup.
    pub fn valid_config(&self) -> (v: bool)
        ensures
            v == match *self {
                SinglePlaneStrategy::SMISAll(k) => k > 0,
                SinglePlaneStrategy::SMISJacobian(k) => k > 0,
                _ => true,
            },
    {
        match self {
            SinglePlaneStrategy::SMISAll(k) => *k > 0,
            SinglePlaneStrategy::SMISJacobian(k) => *k > 0,
            _ => true,
        }
    }

    /// Only the proxy-sampling strategy needs the tabulated densities.
    pub fn uses_proxy_tables(&self) -> (p: bool)
        ensures
            p == (self is ProxySample),
    {
        match self {
            SinglePlaneStrategy::ProxySample => true,
            _ => false,
        }
    }

    /// The constant part of the combination weight: the single-variant
    /// and combined-single-plane strategies evaluate the intersected
    /// plane at full weight, `Average` at a third.  `DiscreteMIS`
    /// rebalances per hit, so it has no fixed weight.
    pub fn fixed_mis_weight(&self) -> (w: Option<(u64, u64)>)
        ensures
            w == if *self is Average {
                Some((1u64, 3u64))
            } else if *self is DiscreteMIS {
                None::<(u64, u64)>
            } else {
                Some((1u64, 1u64))
            },
    {
        match self {
            SinglePlaneStrategy::Average => Some((1, 3)),
            SinglePlaneStrategy::DiscreteMIS => None,
            _ => Some((1, 1)),
        }
    }
}

/// The sequence obtained by repeating `types` in order, `draws` times.
pub open spec fn repeated_draws(types: Seq<PlaneType>, draws: nat) -> Seq<PlaneType>
    decreases draws,
{
    if draws == 0 {
        Seq::empty()
    } else {
        repeated_draws(types, (draws - 1) as nat) + types
    }
}

/// Repeating `types` `draws` times yields `draws * types.len()` planes.
pub proof fn lemma_repeated_draws_len(types: Seq<PlaneType>, draws: nat)
    ensures
        repeated_draws(types, draws).len() == draws * types.len(),
    decreases draws,
{
    if draws > 0 {
        let prev = (draws - 1) as nat;
        lemma_repeated_draws_len(types, prev);
        assert(repeated_draws(types, draws) == repeated_draws(types, prev) + types);
        assert(prev * types.len() + types.len() == draws * types.len())
            by (nonlinear_arith)
            requires
                draws > 0,
                prev == draws - 1,
        ;
    } else {
        assert(draws * types.len() == 0) by (nonlinear_arith)
            requires
                draws == 0,
        ;
    }
}

/// Every plane of the batch follows the draw pattern: position `i` of
/// the repeated sequence carries the variant at `i` modulo the pattern
/// length.
pub proof fn lemma_repeated_draws_index(types: Seq<PlaneType>, draws: nat, i: int)
    requires
        types.len() > 0,
        0 <= i < repeated_draws(types, draws).len(),
    ensures
        repeated_draws(types, draws)[i] == types[i % (types.len() as int)],
    decreases draws,
{
    let l = types.len() as int;
    lemma_repeated_draws_len(types, draws);
    if draws > 0 {
        let prev = (draws - 1) as nat;
        lemma_repeated_draws_len(types, prev);
        assert(draws * l == prev * l + l) by (nonlinear_arith)
            requires
                draws == prev + 1,
        ;
        if i < prev * l {
            lemma_repeated_draws_index(types, prev, i);
        } else {
            let r = i - prev * l;
            vstd::arithmetic::div_mod::lemma_fundamental_div_mod_converse(i, l, prev as int, r);
            assert(repeated_draws(types, draws)[i] == types[r]);
        }
    }
}

/// The single-scattering photon-plane estimator: how many planes to
/// generate, how to weight their contributions, and whether the SMIS
/// angle samples are stratified.
#[derive(PartialEq, Eq, Structural, Clone, Copy, Debug)]
pub struct IntegratorSinglePlane {
    pub nb_primitive: usize,
    pub strategy: SinglePlaneStrategy,
    pub stratified: bool,
}

impl IntegratorSinglePlane {
    /// The batch plan of the sequential generation phase: the variant of
    /// every plane to build, in order, and the number of generation
    /// draws.  Draws are whole: each appends all of the strategy's
    /// variants, so the batch can overshoot `nb_primitive` by at most
    /// two planes, and the number of draws is the least that reaches
    /// `nb_primitive`.
    pub fn generation_plan(&self) -> (plan: (Vec<PlaneType>, usize))
        requires
            self.nb_primitive <= usize::MAX - 3,
        ensures
            plan.0@ == repeated_draws(self.strategy.spec_draw_types(), plan.1 as nat),
            plan.0@.len() == plan.1 * self.strategy.spec_draw_types().len(),
            plan.0@.len() >= self.nb_primitive,
            plan.0@.len() < self.nb_primitive + 3,
            plan.1 > 0 ==> (plan.1 - 1) * self.strategy.spec_draw_types().len()
                < self.nb_primitive,
    {
        let types = self.strategy.draw_types();
        // Only the length of the draw matters below; the method's
        // contract ties it to the strategy.
        let k = self.strategy.planes_per_draw();
        let mut plan: Vec<PlaneType> = Vec::new();
        let mut draws: usize = 0;
        proof {
            assert(plan@ =~= repeated_draws(types@, 0));
        }
        while plan.len() < self.nb_primitive
            invariant
                types@ == self.strategy.spec_draw_types(),
                k == types@.len(),
                k == 1 || k == 3,
                self.nb_primitive <= usize::MAX - 3,
                plan@ == repeated_draws(types@, draws as nat),
                plan@.len() == draws * k,
                plan@.len() < self.nb_primitive + 3,
                draws > 0 ==> (draws - 1) * k < self.nb_primitive,
            decreases (if self.nb_primitive <= plan@.len() {
                0int
            } else {
                self.nb_primitive - plan@.len()
            }),
        {
            let ghost prev = plan@;
            let ghost prev_draws = draws as nat;
            let mut j: usize = 0;
            while j < k
                invariant
                    types@ == self.strategy.spec_draw_types(),
                    k == types@.len(),
                    j <= k,
                    plan@ == prev + types@.take(j as int),
                    prev.len() < self.nb_primitive,
                    self.nb_primitive <= usize::MAX - 3,
                    k <= 3,
                decreases k - j,
            {
                let t = types[j];
                plan.push(t);
                proof {
                    assert(types@.take(j + 1) =~= types@.take(j as int).push(types@[j as int]));
                    assert(plan@ =~= prev + types@.take(j + 1));
                }
                j += 1;
            }
            proof {
                assert(types@.take(k as int) =~= types@);
                assert(plan@ =~= repeated_draws(types@, prev_draws + 1));
                lemma_repeated_draws_len(types@, prev_draws + 1);
                assert((prev_draws + 1) * k == prev_draws * k + k) by (nonlinear_arith);
            }
            draws += 1;
        }
        (plan, draws)
    }
}

/// The order in which the discrete-MIS combiner rebuilds the three plane
/// variants at an actual hit, to balance their contributions.
pub fn discrete_mis_rebuild_order() -> (order: Vec<PlaneType>)
    ensures
        order@ =~= seq![PlaneType::UV, PlaneType::UT, PlaneType::VT],
{
    vec![PlaneType::UV, PlaneType::UT, PlaneType::VT]
}

/// Position of the intersected plane's variant among the planes that the
/// discrete-MIS combiner rebuilds; the `UAlphaT` variant never occurs
/// under that strategy.
pub fn discrete_mis_index(t: PlaneType) -> (i: usize)
    requires
        t != PlaneType::UAlphaT,
    ensures
        i < 3,
        seq![PlaneType::UV, PlaneType::UT, PlaneType::VT][i as int] == t,
{
    match t {
        PlaneType::UV => 0,
        PlaneType::UT => 1,
        PlaneType::VT => 2,
        PlaneType::UAlphaT => 0,
    }
}

/// Numerator of the discrete-MIS balance weight of rebuilt variant `i`,
/// put over the common denominator `dmis_weight_denominator`: the weight
/// of variant `i` is the inverse of its contribution divided by the sum
/// of the three inverses, so its numerator is the product of the other
/// two contributions.
pub open spec fn dmis_weight_numerator(c0: int, c1: int, c2: int, i: int) -> int {
    if i == 0 {
        c1 * c2
    } else if i == 1 {
        c0 * c2
    } else {
        c0 * c1
    }
}

/// Common denominator of the three discrete-MIS balance weights.
pub open spec fn dmis_weight_denominator(c0: int, c1: int, c2: int) -> int {
    c1 * c2 + c0 * c2 + c0 * c1
}

/// The discrete-MIS weights of the three rebuilt variants sum to one
/// whenever all three contributions are nonzero: over their common
/// (positive) denominator, the three numerators add up to the
/// denominator exactly.  Moreover each weight multiplied by its own
/// contribution gives the same product — the balance heuristic equalizes
/// the weighted contributions of the variants.
pub proof fn lemma_discrete_mis_weights_sum_to_one(c0: int, c1: int, c2: int)
    requires
        c0 > 0,
        c1 > 0,
        c2 > 0,
    ensures
        dmis_weight_numerator(c0, c1, c2, 0) + dmis_weight_numerator(c0, c1, c2, 1)
            + dmis_weight_numerator(c0, c1, c2, 2) == dmis_weight_denominator(c0, c1, c2),
        dmis_weight_denominator(c0, c1, c2) > 0,
        dmis_weight_numerator(c0, c1, c2, 0) * c0 == dmis_weight_numerator(c0, c1, c2, 1) * c1,
        dmis_weight_numerator(c0, c1, c2, 1) * c1 == dmis_weight_numerator(c0, c1, c2, 2) * c2,
{
    assert(c1 * c2 > 0 && c0 * c2 > 0 && c0 * c1 > 0 && (c1 * c2) * c0 == (c0 * c2) * c1 && (c0
        * c2) * c1 == (c0 * c1) * c2) by (nonlinear_arith)
        requires
            c0 > 0,
            c1 > 0,
            c2 > 0,
    ;
}

/// How many extra `UAlphaT` planes the stochastic-MIS combiner builds for
/// one intersected plane: one for every sample beyond the intersected
/// plane itself.  With a single sample the strategy degenerates to the
/// plain single-plane estimator and builds none.
pub fn smis_extra_sample_count(n_samples: usize) -> (extra: usize)
    requires
        n_samples >= 1,
    ensures
        extra == n_samples - 1,
        n_samples == 1 ==> extra == 0,
{
    n_samples - 1
}

/// The occlusion gate of the gathering loop: an intersection whose hit
/// point and light point are not mutually visible contributes exactly
/// zero, whatever weight the strategy computed for it.
pub fn visible_contribution(visible: bool, term: Color) -> (c: Color)
    ensures
        visible ==> c == term,
        !visible ==> c == (Color { r: 0, g: 0, b: 0 }),
{
    if visible {
        term
    } else {
        Color::value(0)
    }
}

/// Clamps `v` to the interval `[min, max]`.
pub fn clamp(v: i64, min: i64, max: i64) -> (r: i64)
    ensures
        r == if v < min {
            min
        } else if v > max {
            max
        } else {
            v
        },
{
    if v < min {
        min
    } else if v > max {
        max
    } else {
        v
    }
}

} // verus!
