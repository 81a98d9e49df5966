use rustlight::cli::match_infinity;
use rustlight::pbrt::{
    count_matching_flags, matches_flags, select_matching_lobe, BxdfType, FresnelBlend,
    FresnelConductor, FresnelNoOp, LambertianReflection, TransportMode,
    TrowbridgeReitzDistribution,
};
use rustlight::structure::Color;

#[test]
fn bxdf_type_bits_are_distinct_powers_of_two() {
    assert_eq!(BxdfType::BsdfReflection.bits(), 1);
    assert_eq!(BxdfType::BsdfTransmission.bits(), 2);
    assert_eq!(BxdfType::BsdfDiffuse.bits(), 4);
    assert_eq!(BxdfType::BsdfGlossy.bits(), 8);
    assert_eq!(BxdfType::BsdfSpecular.bits(), 16);
    assert_eq!(
        BxdfType::BsdfAll.bits(),
        BxdfType::BsdfReflection.bits()
            | BxdfType::BsdfTransmission.bits()
            | BxdfType::BsdfDiffuse.bits()
            | BxdfType::BsdfGlossy.bits()
            | BxdfType::BsdfSpecular.bits()
    );
}

#[test]
fn matches_flags_requires_every_own_bit() {
    let lambertian = BxdfType::BsdfDiffuse.bits() | BxdfType::BsdfReflection.bits();
    assert!(matches_flags(lambertian, BxdfType::BsdfAll.bits()));
    assert!(matches_flags(lambertian, lambertian));
    assert!(!matches_flags(lambertian, BxdfType::BsdfDiffuse.bits()));
    assert!(!matches_flags(lambertian, BxdfType::BsdfTransmission.bits()));
    assert!(matches_flags(0, 0));
}

#[test]
fn component_count_counts_matching_lobes_only() {
    let lambertian = 4 | 1;
    let specular_reflection = 16 | 1;
    let specular_transmission = 16 | 2;
    let lobes = vec![lambertian, specular_reflection, specular_transmission];
    assert_eq!(count_matching_flags(&lobes, 31), 3);
    assert_eq!(count_matching_flags(&lobes, 16 | 2), 1);
    assert_eq!(count_matching_flags(&lobes, 4 | 1), 1);
    assert_eq!(count_matching_flags(&lobes, 0), 0);
    assert_eq!(count_matching_flags(&Vec::new(), 31), 0);
}

#[test]
fn lobe_selection_skips_lobes_that_do_not_match() {
    let lambertian = 4 | 1;
    let specular_reflection = 16 | 1;
    let specular_transmission = 16 | 2;
    let lobes = vec![lambertian, specular_reflection, specular_transmission];
    assert_eq!(select_matching_lobe(&lobes, 31, 0), Some(0));
    assert_eq!(select_matching_lobe(&lobes, 31, 2), Some(2));
    assert_eq!(select_matching_lobe(&lobes, 31, 3), None);
    assert_eq!(select_matching_lobe(&lobes, 16 | 1, 0), Some(1));
    assert_eq!(select_matching_lobe(&lobes, 16 | 2, 0), Some(2));
    assert_eq!(select_matching_lobe(&lobes, 16 | 2, 1), None);
    assert_eq!(select_matching_lobe(&Vec::new(), 31, 0), None);
}

#[test]
fn lambertian_reflection_stores_its_albedo() {
    let r = Color {
        r: 500_000,
        g: 250_000,
        b: 0,
    };
    let lobe = LambertianReflection::new(r);
    assert_eq!(lobe.r, r);
}

#[test]
fn fresnel_blend_stores_its_parts() {
    let rd = Color::value(500_000);
    let rs = Color::value(100_000);
    let dist = TrowbridgeReitzDistribution {
        alpha_x: 100_000,
        alpha_y: 100_000,
        sample_visible_area: true,
    };
    let blend = FresnelBlend::new(rd, rs, Some(dist));
    assert_eq!(blend.rd, rd);
    assert_eq!(blend.rs, rs);
    assert_eq!(blend.distribution, Some(dist));
    let bare = FresnelBlend::new(rd, rs, None);
    assert_eq!(bare.distribution, None);
}

#[test]
fn fresnel_carriers_hold_their_fields() {
    let c = FresnelConductor {
        eta_i: Color::value(1_000_000),
        eta_t: Color::value(1_500_000),
        k: Color::value(2_000_000),
    };
    assert_eq!(c.eta_t, Color::value(1_500_000));
    assert_eq!(FresnelNoOp {}, FresnelNoOp {});
    assert_eq!(TransportMode::Radiance, TransportMode::Radiance);
}

#[test]
fn infinity_word_means_no_bound() {
    assert_eq!(match_infinity("inf"), None);
}

#[test]
fn digit_strings_parse_to_their_value() {
    assert_eq!(match_infinity("0"), Some(0));
    assert_eq!(match_infinity("42"), Some(42));
    assert_eq!(match_infinity("128"), Some(128));
    assert_eq!(match_infinity("1000000"), Some(1_000_000));
}
