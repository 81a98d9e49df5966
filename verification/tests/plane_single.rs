use rustlight::plane_single::{
    clamp, discrete_mis_index, discrete_mis_rebuild_order, smis_extra_sample_count,
    visible_contribution, IntegratorSinglePlane, PlaneType, SinglePlaneStrategy,
};
use rustlight::structure::Color;

#[test]
fn single_variant_plan_counts_one_plane_per_draw() {
    let integ = IntegratorSinglePlane {
        nb_primitive: 5,
        strategy: SinglePlaneStrategy::UV,
        stratified: false,
    };
    let (plan, draws) = integ.generation_plan();
    assert_eq!(draws, 5);
    assert_eq!(plan.len(), 5);
    assert!(plan.iter().all(|t| *t == PlaneType::UV));
}

#[test]
fn average_plan_generates_three_planes_per_draw() {
    let integ = IntegratorSinglePlane {
        nb_primitive: 4,
        strategy: SinglePlaneStrategy::Average,
        stratified: false,
    };
    let (plan, draws) = integ.generation_plan();
    assert_eq!(draws, 2);
    assert_eq!(
        plan,
        vec![
            PlaneType::UV,
            PlaneType::VT,
            PlaneType::UT,
            PlaneType::UV,
            PlaneType::VT,
            PlaneType::UT,
        ]
    );
}

#[test]
fn discrete_mis_plan_matches_average_plan_shape() {
    let integ = IntegratorSinglePlane {
        nb_primitive: 3,
        strategy: SinglePlaneStrategy::DiscreteMIS,
        stratified: false,
    };
    let (plan, draws) = integ.generation_plan();
    assert_eq!(draws, 1);
    assert_eq!(plan.len(), 3);
}

#[test]
fn combined_strategies_generate_ualphat_planes() {
    for strategy in [
        SinglePlaneStrategy::UAlpha,
        SinglePlaneStrategy::ContinousMIS,
        SinglePlaneStrategy::SMISAll(4),
        SinglePlaneStrategy::SMISJacobian(4),
        SinglePlaneStrategy::ProxySample,
    ] {
        let integ = IntegratorSinglePlane {
            nb_primitive: 2,
            strategy,
            stratified: true,
        };
        let (plan, draws) = integ.generation_plan();
        assert_eq!(draws, 2);
        assert_eq!(plan, vec![PlaneType::UAlphaT, PlaneType::UAlphaT]);
    }
}

#[test]
fn empty_batch_needs_no_draws() {
    let integ = IntegratorSinglePlane {
        nb_primitive: 0,
        strategy: SinglePlaneStrategy::Average,
        stratified: false,
    };
    let (plan, draws) = integ.generation_plan();
    assert_eq!(draws, 0);
    assert!(plan.is_empty());
}

#[test]
fn planes_per_draw_is_three_only_for_average_and_discrete_mis() {
    assert_eq!(SinglePlaneStrategy::Average.planes_per_draw(), 3);
    assert_eq!(SinglePlaneStrategy::DiscreteMIS.planes_per_draw(), 3);
    assert_eq!(SinglePlaneStrategy::UV.planes_per_draw(), 1);
    assert_eq!(SinglePlaneStrategy::VT.planes_per_draw(), 1);
    assert_eq!(SinglePlaneStrategy::UT.planes_per_draw(), 1);
    assert_eq!(SinglePlaneStrategy::UAlpha.planes_per_draw(), 1);
    assert_eq!(SinglePlaneStrategy::ContinousMIS.planes_per_draw(), 1);
    assert_eq!(SinglePlaneStrategy::SMISAll(7).planes_per_draw(), 1);
    assert_eq!(SinglePlaneStrategy::SMISJacobian(7).planes_per_draw(), 1);
    assert_eq!(SinglePlaneStrategy::ProxySample.planes_per_draw(), 1);
}

#[test]
fn smis_sample_count_reads_the_strategy_parameter() {
    assert_eq!(SinglePlaneStrategy::SMISAll(8).smis_sample_count(), Some(8));
    assert_eq!(
        SinglePlaneStrategy::SMISJacobian(2).smis_sample_count(),
        Some(2)
    );
    assert_eq!(SinglePlaneStrategy::Average.smis_sample_count(), None);
    assert_eq!(SinglePlaneStrategy::ProxySample.smis_sample_count(), None);
}

#[test]
fn zero_smis_samples_is_an_invalid_configuration() {
    assert!(!SinglePlaneStrategy::SMISAll(0).valid_config());
    assert!(!SinglePlaneStrategy::SMISJacobian(0).valid_config());
    assert!(SinglePlaneStrategy::SMISAll(1).valid_config());
    assert!(SinglePlaneStrategy::UV.valid_config());
}

#[test]
fn only_proxy_sample_uses_the_tables() {
    assert!(SinglePlaneStrategy::ProxySample.uses_proxy_tables());
    assert!(!SinglePlaneStrategy::SMISAll(4).uses_proxy_tables());
    assert!(!SinglePlaneStrategy::Average.uses_proxy_tables());
}

#[test]
fn fixed_weight_is_one_third_for_average_and_unknown_for_discrete_mis() {
    assert_eq!(
        SinglePlaneStrategy::Average.fixed_mis_weight(),
        Some((1, 3))
    );
    assert_eq!(SinglePlaneStrategy::DiscreteMIS.fixed_mis_weight(), None);
    assert_eq!(SinglePlaneStrategy::UV.fixed_mis_weight(), Some((1, 1)));
    assert_eq!(
        SinglePlaneStrategy::ContinousMIS.fixed_mis_weight(),
        Some((1, 1))
    );
    assert_eq!(
        SinglePlaneStrategy::ProxySample.fixed_mis_weight(),
        Some((1, 1))
    );
}

#[test]
fn rebuild_order_and_index_agree() {
    let order = discrete_mis_rebuild_order();
    assert_eq!(order, vec![PlaneType::UV, PlaneType::UT, PlaneType::VT]);
    assert_eq!(discrete_mis_index(PlaneType::UV), 0);
    assert_eq!(discrete_mis_index(PlaneType::UT), 1);
    assert_eq!(discrete_mis_index(PlaneType::VT), 2);
    for t in [PlaneType::UV, PlaneType::UT, PlaneType::VT] {
        assert_eq!(order[discrete_mis_index(t)], t);
    }
}

#[test]
fn one_smis_sample_builds_no_extra_planes() {
    assert_eq!(smis_extra_sample_count(1), 0);
    assert_eq!(smis_extra_sample_count(4), 3);
}

#[test]
fn occluded_intersection_contributes_exactly_zero() {
    let term = Color {
        r: 123,
        g: -4,
        b: 1_000_000,
    };
    assert_eq!(visible_contribution(false, term), Color { r: 0, g: 0, b: 0 });
    assert_eq!(visible_contribution(true, term), term);
}

#[test]
fn clamp_bounds_its_argument() {
    assert_eq!(clamp(-5, 0, 10), 0);
    assert_eq!(clamp(15, 0, 10), 10);
    assert_eq!(clamp(7, 0, 10), 7);
    assert_eq!(clamp(0, 0, 10), 0);
    assert_eq!(clamp(10, 0, 10), 10);
}

#[test]
fn color_value_fills_all_channels() {
    let c = Color::value(250_000);
    assert_eq!(c, Color { r: 250_000, g: 250_000, b: 250_000 });
    assert!(!c.is_zero());
    assert!(Color::value(0).is_zero());
}
