//! Discrete part of the BxDF layer: transport modes, BxDF type flags,
//! and the data carried by the diffuse and Fresnel lobes.

use vstd::prelude::*;

use crate::structure::Color;

verus! {

/// Which quantity a path carries; only radiance transport is used here.
#[derive(PartialEq, Eq, Structural, Clone, Copy, Debug)]
pub enum TransportMode {
    Radiance,
}

/// Classification flags of a BxDF lobe.  Each variant stands for one bit
/// of a `u8` flag set except `BsdfAll`, which is the union of all five.
#[derive(PartialEq, Eq, Structural, Clone, Copy, Debug)]
pub enum BxdfType {
    BsdfReflection,
    BsdfTransmission,
    BsdfDiffuse,
    BsdfGlossy,
    BsdfSpecular,
    BsdfAll,
}

impl BxdfType {
    /// The bit pattern of this flag in a `u8` flag set.
    pub fn bits(self) -> (b: u8)
        ensures
            b == match self {
                BxdfType::BsdfReflection => 1u8,
                BxdfType::BsdfTransmission => 2u8,
                BxdfType::BsdfDiffuse => 4u8,
                BxdfType::BsdfGlossy => 8u8,
                BxdfType::BsdfSpecular => 16u8,
                BxdfType::BsdfAll => 31u8,
            },
    {
        match self {
            BxdfType::BsdfReflection => 1,
            BxdfType::BsdfTransmission => 2,
            BxdfType::BsdfDiffuse => 4,
            BxdfType::BsdfGlossy => 8,
            BxdfType::BsdfSpecular => 16,
            BxdfType::BsdfAll => 31,
        }
    }
}

/// Whether a lobe whose type flags are `own` matches a query flag set:
/// every bit of the lobe must be allowed by the query.
pub fn matches_flags(own: u8, query: u8) -> (m: bool)
    ensures
        m == (own & query == own),
{
    own & query == own
}

/// The number of lobes whose type flags match a query flag set.
pub open spec fn spec_matching_count(lobes: Seq<u8>, query: u8) -> nat
    decreases lobes.len(),
{
    if lobes.len() == 0 {
        0
    } else {
        spec_matching_count(lobes.drop_last(), query) + (if lobes.last() & query
            == lobes.last() {
            1nat
        } else {
            0nat
        })
    }
}

/// Core of the BSDF component count: how many of a BSDF's lobes, given
/// by their type flags, match a query flag set.
pub fn count_matching_flags(lobes: &Vec<u8>, query: u8) -> (n: usize)
    ensures
        n == spec_matching_count(lobes@, query),
{
    let mut n: usize = 0;
    let mut i: usize = 0;
    proof {
        assert(lobes@.take(0int) =~= Seq::<u8>::empty());
    }
    while i < lobes.len()
        invariant
            i <= lobes@.len(),
            n <= i,
            n == spec_matching_count(lobes@.take(i as int), query),
        decreases lobes@.len() - i,
    {
        let f = lobes[i];
        if matches_flags(f, query) {
            n = n + 1;
        }
        proof {
            assert(lobes@.take(i + 1).drop_last() =~= lobes@.take(i as int));
            assert(lobes@.take(i + 1).last() == lobes@[i as int]);
        }
        i = i + 1;
    }
    proof {
        assert(lobes@.take(lobes@.len() as int) =~= lobes@);
    }
    n
}

/// A prefix of the lobes never matches more often than all of them.
proof fn lemma_matching_count_prefix_le(lobes: Seq<u8>, query: u8, i: int)
    requires
        0 <= i <= lobes.len(),
    ensures
        spec_matching_count(lobes.take(i), query) <= spec_matching_count(lobes, query),
    decreases lobes.len() - i,
{
    if i == lobes.len() {
        assert(lobes.take(i) =~= lobes);
    } else {
        assert(lobes.take(i + 1).drop_last() =~= lobes.take(i));
        lemma_matching_count_prefix_le(lobes, query, i + 1);
    }
}

/// Which lobe the BSDF sampler draws once a component number has been
/// chosen: the `comp`-th, counting from zero, of the lobes that match
/// the query flags, in their stored order.  There is no such lobe
/// exactly when fewer than `comp + 1` lobes match.
pub fn select_matching_lobe(lobes: &Vec<u8>, query: u8, comp: usize) -> (r: Option<usize>)
    ensures
        r matches Some(i) ==> i < lobes@.len() && lobes@[i as int] & query == lobes@[i as int]
            && spec_matching_count(lobes@.take(i as int), query) == comp,
        (r is None) == (comp >= spec_matching_count(lobes@, query)),
{
    let mut seen: usize = 0;
    let mut i: usize = 0;
    proof {
        assert(lobes@.take(0int) =~= Seq::<u8>::empty());
    }
    while i < lobes.len()
        invariant
            i <= lobes@.len(),
            seen <= comp,
            seen == spec_matching_count(lobes@.take(i as int), query),
        decreases lobes@.len() - i,
    {
        let f = lobes[i];
        proof {
            assert(lobes@.take(i + 1).drop_last() =~= lobes@.take(i as int));
        }
        if matches_flags(f, query) {
            if seen == comp {
                proof {
                    lemma_matching_count_prefix_le(lobes@, query, i + 1);
                }
                return Some(i);
            }
            seen = seen + 1;
        }
        i = i + 1;
    }
    proof {
        assert(lobes@.take(lobes@.len() as int) =~= lobes@);
    }
    None
}

/// Fresnel term of a conductor, described by the refraction indices on
/// both sides and the absorption coefficient.
#[derive(PartialEq, Eq, Structural, Clone, Copy, Debug)]
pub struct FresnelConductor {
    pub eta_i: Color,
    pub eta_t: Color,
    pub k: Color,
}

/// Fresnel term that reflects everything.
#[derive(PartialEq, Eq, Structural, Clone, Copy, Debug)]
pub struct FresnelNoOp {}

/// Ideal diffuse reflection lobe with albedo `r`.
#[derive(PartialEq, Eq, Structural, Clone, Copy, Debug)]
pub struct LambertianReflection {
    pub r: Color,
}

impl LambertianReflection {
    pub fn new(r: Color) -> (l: LambertianReflection)
        ensures
            l.r == r,
    {
        LambertianReflection { r }
    }
}

/// Roughness of the Trowbridge–Reitz microfacet distribution along the
/// two tangent directions, in fixed-point form, and whether sampling is
/// restricted to the visible area.
#[derive(PartialEq, Eq, Structural, Clone, Copy, Debug)]
pub struct TrowbridgeReitzDistribution {
    pub alpha_x: i64,
    pub alpha_y: i64,
    pub sample_visible_area: bool,
}

/// Mixed diffuse and glossy reflection lobe: a diffuse base `rd` under a
/// Schlick-approximated specular coat `rs`, shaped by an optional
/// microfacet distribution.
#[derive(PartialEq, Eq, Structural, Clone, Copy, Debug)]
pub struct FresnelBlend {
    pub rd: Color,
    pub rs: Color,
    pub distribution: Option<TrowbridgeReitzDistribution>,
}

impl FresnelBlend {
    pub fn new(rd: Color, rs: Color, distribution: Option<TrowbridgeReitzDistribution>) -> (f:
        FresnelBlend)
        ensures
            f.rd == rd,
            f.rs == rs,
            f.distribution == distribution,
    {
        FresnelBlend { rd, rs, distribution }
    }
}

} // verus!
